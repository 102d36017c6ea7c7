use vstd::prelude::*;
use crate::parent_container::ParentContainer;
use vstd::std_specs::cmp::PartialEqSpec;

verus! {

/// The identity of one data model instance. Data models built through one
/// `RootIds` have distinct identities, so handles of one never equal or
/// resolve in another.
#[derive(Clone, Copy, PartialEq, Eq, Structural, Hash, Debug)]
pub struct InternalDataModelRef {
    pub id: u64,
}

/// A non-owning handle to a model: the data model it belongs to and its
/// position there.
#[derive(Clone, Copy, PartialEq, Eq, Structural, Hash, Debug)]
pub struct ModelWeakRef {
    pub internal_data_model: InternalDataModelRef,
    pub index: usize,
}

/// A non-owning handle to a composite type: the data model it belongs to and
/// its position there.
#[derive(Clone, Copy, PartialEq, Eq, Structural, Hash, Debug)]
pub struct CompositeTypeWeakRef {
    pub internal_data_model: InternalDataModelRef,
    pub index: usize,
}

/// Hands out data model identities, each at most once.
#[derive(Debug)]
pub struct RootIds {
    next: u64,
}

impl RootIds {
    /// The identity that `fresh` hands out next; all earlier ones are below it.
    pub closed spec fn next_id(&self) -> u64 {
        self.next
    }

    pub fn new() -> (r: RootIds)
        ensures
            r.next_id() == 0,
    {
        RootIds { next: 0 }
    }

    /// A new identity, never handed out before by this allocator; `None` once
    /// all are used up.
    pub fn fresh(&mut self) -> (r: Option<u64>)
        ensures
            old(self).next_id() < u64::MAX ==> r == Some(old(self).next_id())
                && final(self).next_id() == old(self).next_id() + 1,
            old(self).next_id() == u64::MAX ==> r is None && final(self).next_id() == old(
                self,
            ).next_id(),
    {
        if self.next < u64::MAX {
            let id = self.next;
            self.next = self.next + 1;
            Some(id)
        } else {
            None
        }
    }
}

impl ModelWeakRef {
    pub open spec fn resolves_in(self, dm: InternalDataModel) -> bool {
        self.internal_data_model.id == dm.id && self.index < dm.models@.len()
    }
}

impl CompositeTypeWeakRef {
    pub open spec fn resolves_in(self, dm: InternalDataModel) -> bool {
        self.internal_data_model.id == dm.id && self.index < dm.composite_types@.len()
    }
}

/// What a field holds: a scalar of the named type, a relation to a model, or
/// an embedded composite type.
#[derive(Clone, Debug, Hash)]
pub enum FieldType {
    Scalar(String),
    Relation(ModelWeakRef),
    Composite(CompositeTypeWeakRef),
}

/// A named, typed member of a model or composite type.
#[derive(Clone, Debug, Hash)]
pub struct Field {
    pub name: String,
    pub type_identifier: FieldType,
    pub container: ParentContainer,
}

/// A top-level, queryable entity. Equality is identity: the data model and
/// the position of the registration; `handle` gives that identity for hashing.
#[derive(Clone, Debug)]
pub struct Model {
    pub name: String,
    pub fields: Vec<Field>,
    pub internal_data_model: InternalDataModelRef,
    pub index: usize,
}

/// An embeddable entity. Equality is identity, as for models.
#[derive(Clone, Debug)]
pub struct CompositeType {
    pub name: String,
    pub fields: Vec<Field>,
    pub internal_data_model: InternalDataModelRef,
    pub index: usize,
}

/// The root: owns every model and composite type of one schema. Its `id` is
/// its identity; data models come from `build`, which takes it from a
/// `RootIds`, so that no two live data models share one.
#[derive(Debug)]
pub struct InternalDataModel {
    pub id: u64,
    pub models: Vec<Model>,
    pub composite_types: Vec<CompositeType>,
}

impl InternalDataModel {
    pub open spec fn reference_spec(self) -> InternalDataModelRef {
        InternalDataModelRef { id: self.id }
    }

    pub open spec fn model_handle(self, i: int) -> ModelWeakRef {
        ModelWeakRef { internal_data_model: self.reference_spec(), index: i as usize }
    }

    pub open spec fn composite_handle(self, i: int) -> CompositeTypeWeakRef {
        CompositeTypeWeakRef { internal_data_model: self.reference_spec(), index: i as usize }
    }

    /// A field declared by the entity behind `c`, whose type points into this
    /// data model.
    pub open spec fn field_wf(self, f: Field, c: ParentContainer) -> bool {
        &&& f.container == c
        &&& match f.type_identifier {
            FieldType::Scalar(_) => true,
            FieldType::Relation(w) => w.resolves_in(self),
            FieldType::Composite(w) => w.resolves_in(self),
        }
    }

    pub open spec fn model_wf(self, i: int) -> bool {
        let m = self.models@[i];
        &&& m.internal_data_model == self.reference_spec()
        &&& m.index == i
        &&& forall|j: int|
            0 <= j < m.fields@.len() ==> #[trigger] self.field_wf(
                m.fields@[j],
                ParentContainer::Model(self.model_handle(i)),
            )
    }

    pub open spec fn composite_wf(self, i: int) -> bool {
        let c = self.composite_types@[i];
        &&& c.internal_data_model == self.reference_spec()
        &&& c.index == i
        &&& forall|j: int|
            0 <= j < c.fields@.len() ==> #[trigger] self.field_wf(
                c.fields@[j],
                ParentContainer::CompositeType(self.composite_handle(i)),
            )
    }

    /// Every entity knows its root and position, every field its declaring
    /// entity, every type reference resolves, and names are unique within
    /// each namespace.
    pub open spec fn wf(self) -> bool {
        &&& forall|i: int| 0 <= i < self.models@.len() ==> #[trigger] self.model_wf(i)
        &&& forall|i: int| 0 <= i < self.composite_types@.len() ==> #[trigger] self.composite_wf(i)
        &&& forall|i: int, j: int|
            #![trigger self.models@[i], self.models@[j]]
            0 <= i < j < self.models@.len() ==> self.models@[i].name@ != self.models@[j].name@
        &&& forall|i: int, j: int|
            #![trigger self.composite_types@[i], self.composite_types@[j]]
            0 <= i < j < self.composite_types@.len() ==> self.composite_types@[i].name@
                != self.composite_types@[j].name@
    }

    /// The identity of this data model.
    pub fn reference(&self) -> (r: InternalDataModelRef)
        ensures
            r == self.reference_spec(),
    {
        InternalDataModelRef { id: self.id }
    }

    /// Resolves a model handle against this data model.
    pub fn resolve_model<'a>(&'a self, w: &ModelWeakRef) -> (r: Option<&'a Model>)
        ensures
            w.resolves_in(*self) ==> r is Some && *r.unwrap() == self.models@[w.index as int],
            !w.resolves_in(*self) ==> r is None,
    {
        if w.internal_data_model.id == self.id && w.index < self.models.len() {
            Some(&self.models[w.index])
        } else {
            None
        }
    }

    /// Resolves a composite type handle against this data model.
    pub fn resolve_composite_type<'a>(&'a self, w: &CompositeTypeWeakRef) -> (r: Option<
        &'a CompositeType,
    >)
        ensures
            w.resolves_in(*self) ==> r is Some && *r.unwrap() == self.composite_types@[w.index as int],
            !w.resolves_in(*self) ==> r is None,
    {
        if w.internal_data_model.id == self.id && w.index < self.composite_types.len() {
            Some(&self.composite_types[w.index])
        } else {
            None
        }
    }

    /// The model registered under `name`, if any.
    pub fn find_model<'a>(&'a self, name: &str) -> (r: Option<&'a Model>)
        ensures
            match r {
                Some(m) => exists|i: int|
                    0 <= i < self.models@.len() && *m == self.models@[i] && self.models@[i].name@
                        == name@ && forall|k: int|
                        0 <= k < i ==> #[trigger] self.models@[k].name@ != name@,
                None => forall|i: int|
                    0 <= i < self.models@.len() ==> #[trigger] self.models@[i].name@ != name@,
            },
    {
        let wanted = name.to_owned();
        let mut i: usize = 0;
        while i < self.models.len()
            invariant
                i <= self.models@.len(),
                wanted@ == name@,
                forall|k: int| 0 <= k < i ==> #[trigger] self.models@[k].name@ != name@,
            decreases self.models@.len() - i,
        {
            if self.models[i].name == wanted {
                return Some(&self.models[i]);
            }
            i = i + 1;
        }
        None
    }

    /// The composite type registered under `name`, if any.
    pub fn find_composite_type<'a>(&'a self, name: &str) -> (r: Option<&'a CompositeType>)
        ensures
            match r {
                Some(c) => exists|i: int|
                    0 <= i < self.composite_types@.len() && *c == self.composite_types@[i]
                        && self.composite_types@[i].name@ == name@ && forall|k: int|
                        0 <= k < i ==> #[trigger] self.composite_types@[k].name@ != name@,
                None => forall|i: int|
                    0 <= i < self.composite_types@.len() ==> #[trigger] self.composite_types@[i].name@
                        != name@,
            },
    {
        let wanted = name.to_owned();
        let mut i: usize = 0;
        while i < self.composite_types.len()
            invariant
                i <= self.composite_types@.len(),
                wanted@ == name@,
                forall|k: int| 0 <= k < i ==> #[trigger] self.composite_types@[k].name@ != name@,
            decreases self.composite_types@.len() - i,
        {
            if self.composite_types[i].name == wanted {
                return Some(&self.composite_types[i]);
            }
            i = i + 1;
        }
        None
    }

    /// The models, in order of registration.
    pub fn models(&self) -> (r: &Vec<Model>)
        ensures
            r == &self.models,
    {
        &self.models
    }

    /// The composite types, in order of registration.
    pub fn composite_types(&self) -> (r: &Vec<CompositeType>)
        ensures
            r == &self.composite_types,
    {
        &self.composite_types
    }
}

impl Model {
    /// The identity of this entity, as a handle: what `==` compares, and what
    /// to hash where entities are keys.
    pub fn handle(&self) -> (r: ModelWeakRef)
        ensures
            r.internal_data_model == self.internal_data_model,
            r.index == self.index,
    {
        ModelWeakRef { internal_data_model: self.internal_data_model, index: self.index }
    }

    pub fn name(&self) -> (r: &String)
        ensures
            r == &self.name,
    {
        &self.name
    }

    pub fn fields(&self) -> (r: &Vec<Field>)
        ensures
            r == &self.fields,
    {
        &self.fields
    }

    /// The data model that owns this model.
    pub fn internal_data_model(&self) -> (r: InternalDataModelRef)
        ensures
            r == self.internal_data_model,
    {
        self.internal_data_model
    }
}

impl CompositeType {
    /// The identity of this entity, as a handle: what `==` compares, and what
    /// to hash where entities are keys.
    pub fn handle(&self) -> (r: CompositeTypeWeakRef)
        ensures
            r.internal_data_model == self.internal_data_model,
            r.index == self.index,
    {
        CompositeTypeWeakRef { internal_data_model: self.internal_data_model, index: self.index }
    }

    pub fn name(&self) -> (r: &String)
        ensures
            r == &self.name,
    {
        &self.name
    }

    pub fn fields(&self) -> (r: &Vec<Field>)
        ensures
            r == &self.fields,
    {
        &self.fields
    }

    /// The data model that owns this composite type.
    pub fn internal_data_model(&self) -> (r: InternalDataModelRef)
        ensures
            r == self.internal_data_model,
    {
        self.internal_data_model
    }
}

impl PartialEq for Model {
    fn eq(&self, other: &Model) -> (r: bool)
    {
        self.internal_data_model.id == other.internal_data_model.id && self.index == other.index
    }
}

impl vstd::std_specs::cmp::PartialEqSpecImpl for Model {
    open spec fn obeys_eq_spec() -> bool {
        true
    }

    /// Models are equal when they are the same registration of the same data model.
    open spec fn eq_spec(&self, other: &Model) -> bool {
        self.internal_data_model == other.internal_data_model && self.index == other.index
    }
}

impl PartialEq for CompositeType {
    fn eq(&self, other: &CompositeType) -> (r: bool)
    {
        self.internal_data_model.id == other.internal_data_model.id && self.index == other.index
    }
}

impl vstd::std_specs::cmp::PartialEqSpecImpl for CompositeType {
    open spec fn obeys_eq_spec() -> bool {
        true
    }

    /// Composite types are equal when they are the same registration of the
    /// same data model.
    open spec fn eq_spec(&self, other: &CompositeType) -> bool {
        self.internal_data_model == other.internal_data_model && self.index == other.index
    }
}

/// Every entity of a well-formed data model, and every field it declares,
/// leads back to that same data model.
pub proof fn lemma_entities_know_their_root(dm: InternalDataModel)
    requires
        dm.wf(),
    ensures
        forall|i: int|
            0 <= i < dm.models@.len() ==> (#[trigger] dm.models@[i]).internal_data_model
                == dm.reference_spec(),
        forall|i: int|
            0 <= i < dm.composite_types@.len() ==> (#[trigger] dm.composite_types@[i]).internal_data_model
                == dm.reference_spec(),
        forall|i: int, j: int|
            0 <= i < dm.models@.len() && 0 <= j < dm.models@[i].fields@.len()
                ==> (#[trigger] dm.models@[i].fields@[j]).container.root_spec() == dm.reference_spec(),
        forall|i: int, j: int|
            0 <= i < dm.composite_types@.len() && 0 <= j < dm.composite_types@[i].fields@.len()
                ==> (#[trigger] dm.composite_types@[i].fields@[j]).container.root_spec()
                == dm.reference_spec(),
{
    assert forall|i: int| 0 <= i < dm.models@.len() implies (#[trigger] dm.models@[i]).internal_data_model
        == dm.reference_spec() by {
        assert(dm.model_wf(i));
    }
    assert forall|i: int| 0 <= i < dm.composite_types@.len() implies (
    #[trigger] dm.composite_types@[i]).internal_data_model == dm.reference_spec() by {
        assert(dm.composite_wf(i));
    }
    assert forall|i: int, j: int|
        0 <= i < dm.models@.len() && 0 <= j < dm.models@[i].fields@.len() implies (
    #[trigger] dm.models@[i].fields@[j]).container.root_spec() == dm.reference_spec() by {
        assert(dm.model_wf(i));
        assert(dm.field_wf(dm.models@[i].fields@[j], ParentContainer::Model(dm.model_handle(i))));
    }
    assert forall|i: int, j: int|
        0 <= i < dm.composite_types@.len() && 0 <= j < dm.composite_types@[i].fields@.len() implies (
    #[trigger] dm.composite_types@[i].fields@[j]).container.root_spec() == dm.reference_spec() by {
        assert(dm.composite_wf(i));
        assert(dm.field_wf(
            dm.composite_types@[i].fields@[j],
            ParentContainer::CompositeType(dm.composite_handle(i)),
        ));
    }
}

/// Models of one data model are equal exactly when they are the same
/// registration: two distinct models differ, whatever their fields, and a
/// model looked up twice by one name is equal to itself.
pub proof fn lemma_model_identity(dm: InternalDataModel, i: int, j: int)
    requires
        dm.wf(),
        0 <= i < dm.models@.len(),
        0 <= j < dm.models@.len(),
    ensures
        dm.models@[i].eq_spec(&dm.models@[j]) <==> i == j,
        dm.models@[i].name@ == dm.models@[j].name@ <==> i == j,
{
    assert(dm.model_wf(i));
    assert(dm.model_wf(j));
    if i < j {
        assert(dm.models@[i].name@ != dm.models@[j].name@);
    } else if j < i {
        assert(dm.models@[j].name@ != dm.models@[i].name@);
    }
}

/// Composite types of one data model are equal exactly when they are the
/// same registration, and their names tell them apart.
pub proof fn lemma_composite_type_identity(dm: InternalDataModel, i: int, j: int)
    requires
        dm.wf(),
        0 <= i < dm.composite_types@.len(),
        0 <= j < dm.composite_types@.len(),
    ensures
        dm.composite_types@[i].eq_spec(&dm.composite_types@[j]) <==> i == j,
        dm.composite_types@[i].name@ == dm.composite_types@[j].name@ <==> i == j,
{
    assert(dm.composite_wf(i));
    assert(dm.composite_wf(j));
    if i < j {
        assert(dm.composite_types@[i].name@ != dm.composite_types@[j].name@);
    } else if j < i {
        assert(dm.composite_types@[j].name@ != dm.composite_types@[i].name@);
    }
}

} // verus!
