use vstd::prelude::*;
use crate::data_model::{
    CompositeType, CompositeTypeWeakRef, Field, FieldType, InternalDataModel,
    InternalDataModelRef, Model, ModelWeakRef, RootIds,
};
use crate::parent_container::ParentContainer;

verus! {

/// The declared type of a field, as the schema names it.
#[derive(Clone, Debug)]
pub enum TypeDescription {
    Scalar(String),
    Relation(String),
    Composite(String),
}

#[derive(Clone, Debug)]
pub struct FieldDescription {
    pub name: String,
    pub type_description: TypeDescription,
}

#[derive(Clone, Debug)]
pub struct EntityDescription {
    pub name: String,
    pub fields: Vec<FieldDescription>,
}

/// A validated schema: the models and the composite types to register.
#[derive(Clone, Debug)]
pub struct SchemaDescription {
    pub models: Vec<EntityDescription>,
    pub composite_types: Vec<EntityDescription>,
}

/// Why a data model could not be built.
#[derive(Clone, Debug)]
pub enum BuildError {
    DuplicateModelName(String),
    DuplicateCompositeTypeName(String),
    UnresolvedType(String),
    IdentitiesExhausted,
}

pub open spec fn names_unique(es: Seq<EntityDescription>) -> bool {
    forall|i: int, j: int|
        #![trigger es[i], es[j]]
        0 <= i < j < es.len() ==> es[i].name@ != es[j].name@
}

pub open spec fn name_repeated(es: Seq<EntityDescription>, n: Seq<char>) -> bool {
    exists|i: int, j: int|
        #![trigger es[i], es[j]]
        0 <= i < j < es.len() && es[i].name@ == n && es[j].name@ == n
}

pub open spec fn has_name(es: Seq<EntityDescription>, n: Seq<char>) -> bool {
    exists|i: int| 0 <= i < es.len() && #[trigger] es[i].name@ == n
}

/// The type's target, if it names one, is registered in its namespace.
pub open spec fn type_resolves(t: TypeDescription, s: SchemaDescription) -> bool {
    match t {
        TypeDescription::Scalar(_) => true,
        TypeDescription::Relation(n) => has_name(s.models@, n@),
        TypeDescription::Composite(n) => has_name(s.composite_types@, n@),
    }
}

pub open spec fn entity_resolves(e: EntityDescription, s: SchemaDescription) -> bool {
    forall|j: int| 0 <= j < e.fields@.len() ==> type_resolves(#[trigger] e.fields@[j].type_description, s)
}

pub open spec fn schema_resolves(s: SchemaDescription) -> bool {
    &&& forall|i: int| 0 <= i < s.models@.len() ==> entity_resolves(#[trigger] s.models@[i], s)
    &&& forall|i: int| 0 <= i < s.composite_types@.len() ==> entity_resolves(#[trigger] s.composite_types@[i], s)
}

/// The name of a relation or embed target that is not registered.
pub open spec fn unresolved_name(s: SchemaDescription, n: Seq<char>) -> bool {
    exists|e: EntityDescription, j: int|
        (s.models@.contains(e) || s.composite_types@.contains(e)) && 0 <= j < e.fields@.len()
            && !type_resolves(#[trigger] e.fields@[j].type_description, s) && match e.fields@[j].type_description {
            TypeDescription::Scalar(_) => false,
            TypeDescription::Relation(t) => t@ == n,
            TypeDescription::Composite(t) => t@ == n,
        }
}

/// `ft` is what `t` resolves to in `s`, for the data model with identity `id`.
pub open spec fn resolved_as(ft: FieldType, t: TypeDescription, s: SchemaDescription, id: u64) -> bool {
    match (t, ft) {
        (TypeDescription::Scalar(a), FieldType::Scalar(b)) => a@ == b@,
        (TypeDescription::Relation(n), FieldType::Relation(w)) => w.internal_data_model.id == id
            && w.index < s.models@.len() && s.models@[w.index as int].name@ == n@,
        (TypeDescription::Composite(n), FieldType::Composite(w)) => w.internal_data_model.id == id
            && w.index < s.composite_types@.len() && s.composite_types@[w.index as int].name@ == n@,
        _ => false,
    }
}

/// The fields `fs` were wired from the descriptions `ds`, all declared by `c`.
pub open spec fn fields_built(
    fs: Seq<Field>,
    ds: Seq<FieldDescription>,
    c: ParentContainer,
    s: SchemaDescription,
    id: u64,
) -> bool {
    &&& fs.len() == ds.len()
    &&& forall|j: int|
        #![trigger fs[j]]
        0 <= j < fs.len() ==> fs[j].name@ == ds[j].name@ && fs[j].container == c && resolved_as(
            fs[j].type_identifier,
            ds[j].type_description,
            s,
            id,
        )
}

pub open spec fn model_built(m: Model, s: SchemaDescription, id: u64, i: int) -> bool {
    let h = ModelWeakRef { internal_data_model: InternalDataModelRef { id }, index: i as usize };
    &&& m.name@ == s.models@[i].name@
    &&& m.internal_data_model.id == id
    &&& m.index == i
    &&& fields_built(m.fields@, s.models@[i].fields@, ParentContainer::Model(h), s, id)
}

pub open spec fn composite_built(c: CompositeType, s: SchemaDescription, id: u64, i: int) -> bool {
    let h = CompositeTypeWeakRef { internal_data_model: InternalDataModelRef { id }, index: i as usize };
    &&& c.name@ == s.composite_types@[i].name@
    &&& c.internal_data_model.id == id
    &&& c.index == i
    &&& fields_built(c.fields@, s.composite_types@[i].fields@, ParentContainer::CompositeType(h), s, id)
}

/// `dm` holds exactly the entities of `s`, in order, wired to one another.
pub open spec fn built_from(dm: InternalDataModel, s: SchemaDescription) -> bool {
    &&& dm.models@.len() == s.models@.len()
    &&& dm.composite_types@.len() == s.composite_types@.len()
    &&& forall|i: int| 0 <= i < dm.models@.len() ==> model_built(#[trigger] dm.models@[i], s, dm.id, i)
    &&& forall|i: int|
        0 <= i < dm.composite_types@.len() ==> composite_built(#[trigger] dm.composite_types@[i], s, dm.id, i)
}

/// The position of a repeated name: `Some(j)` where an earlier entity has
/// the name of entity `j`.
fn find_duplicate(es: &Vec<EntityDescription>) -> (r: Option<usize>)
    ensures
        r is None <==> names_unique(es@),
        r matches Some(j) ==> j < es@.len() && name_repeated(es@, es@[j as int].name@),
{
    let mut j: usize = 0;
    while j < es.len()
        invariant
            j <= es@.len(),
            forall|a: int, b: int|
                #![trigger es@[a], es@[b]]
                0 <= a < b < j ==> es@[a].name@ != es@[b].name@,
        decreases es@.len() - j,
    {
        let mut i: usize = 0;
        while i < j
            invariant
                i <= j < es@.len(),
                forall|a: int| 0 <= a < i ==> #[trigger] es@[a].name@ != es@[j as int].name@,
            decreases j - i,
        {
            if es[i].name == es[j].name {
                assert(es@[i as int].name@ == es@[j as int].name@);
                return Some(j);
            }
            i = i + 1;
        }
        j = j + 1;
    }
    None
}

/// The position of the first entity named `name`.
fn position_of(es: &Vec<EntityDescription>, name: &String) -> (r: Option<usize>)
    ensures
        r is None <==> !has_name(es@, name@),
        r matches Some(i) ==> i < es@.len() && es@[i as int].name@ == name@,
{
    let mut i: usize = 0;
    while i < es.len()
        invariant
            i <= es@.len(),
            forall|a: int| 0 <= a < i ==> #[trigger] es@[a].name@ != name@,
        decreases es@.len() - i,
    {
        if es[i].name == *name {
            return Some(i);
        }
        i = i + 1;
    }
    None
}

/// Resolves a declared type against the registries of `s`.
fn resolve_type(t: &TypeDescription, s: &SchemaDescription, id: u64) -> (r: Option<FieldType>)
    ensures
        r is None <==> !type_resolves(*t, *s),
        r matches Some(ft) ==> resolved_as(ft, *t, *s, id),
{
    let root = InternalDataModelRef { id };
    match t {
        TypeDescription::Scalar(n) => Some(FieldType::Scalar(n.clone())),
        TypeDescription::Relation(n) => match position_of(&s.models, n) {
            Some(i) => Some(FieldType::Relation(ModelWeakRef { internal_data_model: root, index: i })),
            None => None,
        },
        TypeDescription::Composite(n) => match position_of(&s.composite_types, n) {
            Some(i) => Some(
                FieldType::Composite(CompositeTypeWeakRef { internal_data_model: root, index: i }),
            ),
            None => None,
        },
    }
}

/// The name that a declared type refers to.
fn target_name(t: &TypeDescription) -> (r: String)
    ensures
        match *t {
            TypeDescription::Scalar(n) => r@ == n@,
            TypeDescription::Relation(n) => r@ == n@,
            TypeDescription::Composite(n) => r@ == n@,
        },
{
    match t {
        TypeDescription::Scalar(n) => n.clone(),
        TypeDescription::Relation(n) => n.clone(),
        TypeDescription::Composite(n) => n.clone(),
    }
}

/// Wires the fields of entity `e`, each declared by `c`.
fn build_fields(e: &EntityDescription, c: ParentContainer, s: &SchemaDescription, id: u64) -> (r:
    Result<Vec<Field>, String>)
    ensures
        r is Ok <==> entity_resolves(*e, *s),
        r matches Ok(fs) ==> fields_built(fs@, e.fields@, c, *s, id),
        r matches Err(n) ==> exists|j: int|
            0 <= j < e.fields@.len() && !type_resolves(#[trigger] e.fields@[j].type_description, *s)
                && match e.fields@[j].type_description {
                TypeDescription::Scalar(_) => false,
                TypeDescription::Relation(t) => t@ == n@,
                TypeDescription::Composite(t) => t@ == n@,
            },
{
    let mut fields: Vec<Field> = Vec::new();
    let mut j: usize = 0;
    while j < e.fields.len()
        invariant
            j <= e.fields@.len(),
            fields@.len() == j,
            forall|k: int| 0 <= k < j ==> type_resolves(#[trigger] e.fields@[k].type_description, *s),
            fields_built(fields@, e.fields@.subrange(0, j as int), c, *s, id),
        decreases e.fields@.len() - j,
    {
        let d = &e.fields[j];
        match resolve_type(&d.type_description, s, id) {
            Some(ft) => {
                fields.push(Field { name: d.name.clone(), type_identifier: ft, container: c });
            },
            None => {
                return Err(target_name(&d.type_description));
            },
        }
        j = j + 1;
        assert(fields@.len() == j);
        assert forall|k: int| #![trigger fields@[k]] 0 <= k < fields@.len() implies fields@[k].name@
            == e.fields@.subrange(0, j as int)[k].name@ && fields@[k].container == c && resolved_as(
            fields@[k].type_identifier,
            e.fields@.subrange(0, j as int)[k].type_description,
            *s,
            id,
        ) by {
            if k < j - 1 {
                assert(e.fields@.subrange(0, j - 1)[k] == e.fields@.subrange(0, j as int)[k]);
            }
        }
    }
    assert(e.fields@.subrange(0, j as int) =~= e.fields@);
    Ok(fields)
}

/// What building `s` with the identity `id` gives: the data model of `s`
/// when its names are unique and its types resolve, else the first failure.
pub open spec fn build_outcome(r: Result<InternalDataModel, BuildError>, s: SchemaDescription, id: u64) -> bool {
    match r {
        Ok(dm) => names_unique(s.models@) && names_unique(s.composite_types@) && schema_resolves(s)
            && dm.id == id && dm.wf() && built_from(dm, s),
        Err(BuildError::DuplicateModelName(n)) => name_repeated(s.models@, n@),
        Err(BuildError::DuplicateCompositeTypeName(n)) => names_unique(s.models@) && name_repeated(
            s.composite_types@,
            n@,
        ),
        Err(BuildError::UnresolvedType(n)) => names_unique(s.models@) && names_unique(
            s.composite_types@,
        ) && unresolved_name(s, n@),
        Err(BuildError::IdentitiesExhausted) => false,
    }
}

impl InternalDataModel {
    /// Builds the data model of a schema, with a fresh identity taken from
    /// `ids`, in two phases: every entity is registered under its name, then
    /// every field is wired to its declaring entity and its type resolved by
    /// name. Fails on a repeated name in a namespace, on a type that names no
    /// registered entity, or when `ids` has no identity left.
    pub fn build(ids: &mut RootIds, s: &SchemaDescription) -> (r: Result<InternalDataModel, BuildError>)
        ensures
            old(ids).next_id() == u64::MAX ==> (r matches Err(BuildError::IdentitiesExhausted))
                && final(ids).next_id() == old(ids).next_id(),
            old(ids).next_id() < u64::MAX ==> final(ids).next_id() == old(ids).next_id() + 1
                && build_outcome(r, *s, old(ids).next_id()),
    {
        match ids.fresh() {
            Some(id) => InternalDataModel::build_with_id(id, s),
            None => Err(BuildError::IdentitiesExhausted),
        }
    }

    fn build_with_id(id: u64, s: &SchemaDescription) -> (r: Result<InternalDataModel, BuildError>)
        ensures
            build_outcome(r, *s, id),
    {
        // Registration: names must be unique within each namespace.
        match find_duplicate(&s.models) {
            Some(j) => return Err(BuildError::DuplicateModelName(s.models[j].name.clone())),
            None => {},
        }
        match find_duplicate(&s.composite_types) {
            Some(j) => return Err(
                BuildError::DuplicateCompositeTypeName(s.composite_types[j].name.clone()),
            ),
            None => {},
        }
        // Wiring: each field points back to the entity that declares it.
        let root = InternalDataModelRef { id };
        let mut models: Vec<Model> = Vec::new();
        let mut i: usize = 0;
        while i < s.models.len()
            invariant
                i <= s.models@.len(),
                models@.len() == i,
                root == (InternalDataModelRef { id }),
                names_unique(s.models@),
                names_unique(s.composite_types@),
                forall|k: int| 0 <= k < i ==> entity_resolves(#[trigger] s.models@[k], *s),
                forall|k: int| 0 <= k < i ==> model_built(#[trigger] models@[k], *s, id, k),
            decreases s.models@.len() - i,
        {
            let h = ModelWeakRef { internal_data_model: root, index: i };
            let e = &s.models[i];
            match build_fields(e, ParentContainer::Model(h), s, id) {
                Ok(fields) => {
                    models.push(Model { name: e.name.clone(), fields, internal_data_model: root, index: i });
                    assert(model_built(models@[i as int], *s, id, i as int));
                },
                Err(n) => {
                    proof {
                        let j = choose|j: int|
                            0 <= j < e.fields@.len() && !type_resolves(
                                #[trigger] e.fields@[j].type_description,
                                *s,
                            ) && match e.fields@[j].type_description {
                                TypeDescription::Scalar(_) => false,
                                TypeDescription::Relation(t) => t@ == n@,
                                TypeDescription::Composite(t) => t@ == n@,
                            };
                        assert(s.models@[i as int] == *e);
                        assert(s.models@.contains(*e));
                        assert(unresolved_name(*s, n@));
                    }
                    return Err(BuildError::UnresolvedType(n));
                },
            }
            i = i + 1;
        }
        let mut composite_types: Vec<CompositeType> = Vec::new();
        let mut i: usize = 0;
        while i < s.composite_types.len()
            invariant
                i <= s.composite_types@.len(),
                composite_types@.len() == i,
                root == (InternalDataModelRef { id }),
                names_unique(s.models@),
                names_unique(s.composite_types@),
                models@.len() == s.models@.len(),
                forall|k: int| 0 <= k < s.models@.len() ==> model_built(#[trigger] models@[k], *s, id, k),
                forall|k: int| 0 <= k < s.models@.len() ==> entity_resolves(#[trigger] s.models@[k], *s),
                forall|k: int| 0 <= k < i ==> entity_resolves(#[trigger] s.composite_types@[k], *s),
                forall|k: int| 0 <= k < i ==> composite_built(#[trigger] composite_types@[k], *s, id, k),
            decreases s.composite_types@.len() - i,
        {
            let h = CompositeTypeWeakRef { internal_data_model: root, index: i };
            let e = &s.composite_types[i];
            match build_fields(e, ParentContainer::CompositeType(h), s, id) {
                Ok(fields) => {
                    composite_types.push(
                        CompositeType { name: e.name.clone(), fields, internal_data_model: root, index: i },
                    );
                    assert(composite_built(composite_types@[i as int], *s, id, i as int));
                },
                Err(n) => {
                    proof {
                        let j = choose|j: int|
                            0 <= j < e.fields@.len() && !type_resolves(
                                #[trigger] e.fields@[j].type_description,
                                *s,
                            ) && match e.fields@[j].type_description {
                                TypeDescription::Scalar(_) => false,
                                TypeDescription::Relation(t) => t@ == n@,
                                TypeDescription::Composite(t) => t@ == n@,
                            };
                        assert(s.composite_types@[i as int] == *e);
                        assert(s.composite_types@.contains(*e));
                        assert(unresolved_name(*s, n@));
                    }
                    return Err(BuildError::UnresolvedType(n));
                },
            }
            i = i + 1;
        }
        let dm = InternalDataModel { id, models, composite_types };
        proof {
            lemma_built_is_wf(dm, *s);
        }
        Ok(dm)
    }
}

proof fn lemma_built_is_wf(dm: InternalDataModel, s: SchemaDescription)
    requires
        names_unique(s.models@),
        names_unique(s.composite_types@),
        built_from(dm, s),
    ensures
        dm.wf(),
{
    assert forall|i: int| 0 <= i < dm.models@.len() implies #[trigger] dm.model_wf(i) by {
        assert(model_built(dm.models@[i], s, dm.id, i));
        let m = dm.models@[i];
        assert forall|j: int| 0 <= j < m.fields@.len() implies #[trigger] dm.field_wf(
            m.fields@[j],
            ParentContainer::Model(dm.model_handle(i)),
        ) by {
            assert(m.fields@[j].container == ParentContainer::Model(dm.model_handle(i)));
        }
    }
    assert forall|i: int| 0 <= i < dm.composite_types@.len() implies #[trigger] dm.composite_wf(i) by {
        assert(composite_built(dm.composite_types@[i], s, dm.id, i));
        let c = dm.composite_types@[i];
        assert forall|j: int| 0 <= j < c.fields@.len() implies #[trigger] dm.field_wf(
            c.fields@[j],
            ParentContainer::CompositeType(dm.composite_handle(i)),
        ) by {
            assert(c.fields@[j].container == ParentContainer::CompositeType(dm.composite_handle(i)));
        }
    }
    assert forall|i: int, j: int|
        #![trigger dm.models@[i], dm.models@[j]]
        0 <= i < j < dm.models@.len() implies dm.models@[i].name@ != dm.models@[j].name@ by {
        assert(model_built(dm.models@[i], s, dm.id, i));
        assert(model_built(dm.models@[j], s, dm.id, j));
        assert(s.models@[i].name@ != s.models@[j].name@);
    }
    assert forall|i: int, j: int|
        #![trigger dm.composite_types@[i], dm.composite_types@[j]]
        0 <= i < j < dm.composite_types@.len() implies dm.composite_types@[i].name@
            != dm.composite_types@[j].name@ by {
        assert(composite_built(dm.composite_types@[i], s, dm.id, i));
        assert(composite_built(dm.composite_types@[j], s, dm.id, j));
        assert(s.composite_types@[i].name@ != s.composite_types@[j].name@);
    }
}

} // verus!
