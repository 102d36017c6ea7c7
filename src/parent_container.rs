use vstd::prelude::*;
use vstd::std_specs::cmp::PartialEqSpec;
use vstd::string::*;
use crate::data_model::{
    CompositeType, CompositeTypeWeakRef, InternalDataModel, InternalDataModelRef, Model,
    ModelWeakRef,
};

verus! {

/// A non-owning handle to the entity that declares a field: either a model or
/// a composite type of one data model.
#[derive(Clone, Copy, Debug, Eq, Hash)]
pub enum ParentContainer {
    Model(ModelWeakRef),
    CompositeType(CompositeTypeWeakRef),
}

impl ParentContainer {
    /// The data model that the referenced entity belongs to.
    pub open spec fn root_spec(self) -> InternalDataModelRef {
        match self {
            ParentContainer::Model(m) => m.internal_data_model,
            ParentContainer::CompositeType(c) => c.internal_data_model,
        }
    }

    /// The handle resolves to a live entity of `dm`.
    pub open spec fn resolves_in(self, dm: InternalDataModel) -> bool {
        match self {
            ParentContainer::Model(m) => m.resolves_in(dm),
            ParentContainer::CompositeType(c) => c.resolves_in(dm),
        }
    }

    /// The data model of the declaring entity, found by resolving the handle
    /// in `dm`; the handle must resolve there.
    pub fn internal_data_model(&self, dm: &InternalDataModel) -> (r: InternalDataModelRef)
        requires
            dm.wf(),
            self.resolves_in(*dm),
        ensures
            r == dm.reference_spec(),
            r == self.root_spec(),
    {
        match self {
            ParentContainer::Model(w) => {
                proof {
                    assert(dm.model_wf(w.index as int));
                }
                dm.models[w.index].internal_data_model()
            },
            ParentContainer::CompositeType(w) => {
                proof {
                    assert(dm.composite_wf(w.index as int));
                }
                dm.composite_types[w.index].internal_data_model()
            },
        }
    }

    /// The declaring model, for a model handle that resolves in `dm`.
    pub fn as_model<'a>(&self, dm: &'a InternalDataModel) -> (r: Option<&'a Model>)
        ensures
            match *self {
                ParentContainer::Model(w) => if w.resolves_in(*dm) {
                    r is Some && *r.unwrap() == dm.models@[w.index as int]
                } else {
                    r is None
                },
                ParentContainer::CompositeType(_) => r is None,
            },
    {
        match self {
            ParentContainer::Model(w) => dm.resolve_model(w),
            ParentContainer::CompositeType(_) => None,
        }
    }

    /// The non-owning model handle, for the model variant.
    pub fn as_model_weak(&self) -> (r: Option<ModelWeakRef>)
        ensures
            match *self {
                ParentContainer::Model(w) => r == Some(w),
                ParentContainer::CompositeType(_) => r is None,
            },
    {
        match self {
            ParentContainer::Model(w) => Some(*w),
            ParentContainer::CompositeType(_) => None,
        }
    }

    /// The declaring composite type, for a composite handle that resolves in `dm`.
    pub fn as_composite<'a>(&self, dm: &'a InternalDataModel) -> (r: Option<&'a CompositeType>)
        ensures
            match *self {
                ParentContainer::CompositeType(w) => if w.resolves_in(*dm) {
                    r is Some && *r.unwrap() == dm.composite_types@[w.index as int]
                } else {
                    r is None
                },
                ParentContainer::Model(_) => r is None,
            },
    {
        match self {
            ParentContainer::Model(_) => None,
            ParentContainer::CompositeType(w) => dm.resolve_composite_type(w),
        }
    }
}

/// The debug text of a string, as `Debug` writes it: quoted and escaped.
pub uninterp spec fn debug_text_of(s: Seq<char>) -> Seq<char>;

/// Relies on `<str as Debug>::fmt`: the quoted, escaped text of `s`, which
/// depends on its characters alone.
#[verifier::external_body]
fn debug_text(s: &str) -> (r: String)
    ensures
        r@ == debug_text_of(s@),
{
    format!("{:?}", s)
}

/// The diagnostic frame around a variant and an already quoted name.
pub open spec fn framed_description(variant: Seq<char>, quoted_name: Seq<char>) -> Seq<char> {
    "ParentContainer { enum_variant: \""@ + variant + "\", name: "@ + quoted_name + " }"@
}

/// The diagnostic text of a container: its variant and the debug text of the
/// name of the entity it refers to.
pub open spec fn description(variant: Seq<char>, name: Seq<char>) -> Seq<char> {
    framed_description(variant, debug_text_of(name))
}

/// Frames a variant and an already quoted name as diagnostic text.
pub fn frame_description(variant: &str, quoted_name: &str) -> (r: String)
    ensures
        r@ == framed_description(variant@, quoted_name@),
{
    proof {
        reveal_strlit("ParentContainer { enum_variant: \"");
        reveal_strlit("\", name: ");
        reveal_strlit(" }");
    }
    let mut out = String::from_str("ParentContainer { enum_variant: \"");
    out.append(variant);
    out.append("\", name: ");
    out.append(quoted_name);
    out.append(" }");
    out
}

impl ParentContainer {
    /// Describes the container for debugging: its variant and the name of the
    /// entity it resolves to in `dm`.
    pub fn describe(&self, dm: &InternalDataModel) -> (r: String)
        requires
            self.resolves_in(*dm),
        ensures
            match *self {
                ParentContainer::Model(w) => r@ == description(
                    "Model"@,
                    dm.models@[w.index as int].name@,
                ),
                ParentContainer::CompositeType(w) => r@ == description(
                    "CompositeType"@,
                    dm.composite_types@[w.index as int].name@,
                ),
            },
    {
        proof {
            reveal_strlit("Model");
            reveal_strlit("CompositeType");
        }
        let (variant, name) = match self {
            ParentContainer::Model(w) => ("Model", dm.models[w.index].name.as_str()),
            ParentContainer::CompositeType(w) => (
                "CompositeType",
                dm.composite_types[w.index].name.as_str(),
            ),
        };
        frame_description(variant, debug_text(name).as_str())
    }
}

impl PartialEq for ParentContainer {
    fn eq(&self, other: &ParentContainer) -> (r: bool)
    {
        match (self, other) {
            (ParentContainer::Model(a), ParentContainer::Model(b)) => a.internal_data_model.id
                == b.internal_data_model.id && a.index == b.index,
            (ParentContainer::CompositeType(a), ParentContainer::CompositeType(b)) => {
                a.internal_data_model.id == b.internal_data_model.id && a.index == b.index
            },
            _ => false,
        }
    }
}

impl vstd::std_specs::cmp::PartialEqSpecImpl for ParentContainer {
    open spec fn obeys_eq_spec() -> bool {
        true
    }

    /// Two handles are equal when they are of the same kind and name the same
    /// registration of the same data model.
    open spec fn eq_spec(&self, other: &ParentContainer) -> bool {
        match (*self, *other) {
            (ParentContainer::Model(a), ParentContainer::Model(b)) => a == b,
            (ParentContainer::CompositeType(a), ParentContainer::CompositeType(b)) => a == b,
            _ => false,
        }
    }
}

impl From<ModelWeakRef> for ParentContainer {
    fn from(model: ModelWeakRef) -> (r: ParentContainer)
        ensures
            r == ParentContainer::Model(model),
    {
        ParentContainer::Model(model)
    }
}

impl vstd::std_specs::convert::FromSpecImpl<ModelWeakRef> for ParentContainer {
    open spec fn obeys_from_spec() -> bool {
        true
    }

    open spec fn from_spec(model: ModelWeakRef) -> ParentContainer {
        ParentContainer::Model(model)
    }
}

impl From<CompositeTypeWeakRef> for ParentContainer {
    fn from(composite: CompositeTypeWeakRef) -> (r: ParentContainer)
        ensures
            r == ParentContainer::CompositeType(composite),
    {
        ParentContainer::CompositeType(composite)
    }
}

impl vstd::std_specs::convert::FromSpecImpl<CompositeTypeWeakRef> for ParentContainer {
    open spec fn obeys_from_spec() -> bool {
        true
    }

    open spec fn from_spec(composite: CompositeTypeWeakRef) -> ParentContainer {
        ParentContainer::CompositeType(composite)
    }
}

/// Two containers that resolve to the same model are equal, and so are two
/// that resolve to the same composite type; a model container never equals a
/// composite type container.
pub proof fn lemma_equal_when_same_entity(dm: InternalDataModel, p: ParentContainer, q: ParentContainer)
    requires
        dm.wf(),
        p.resolves_in(dm),
        q.resolves_in(dm),
    ensures
        (p matches ParentContainer::Model(a) && q matches ParentContainer::Model(b)
            && dm.models@[a.index as int].eq_spec(&dm.models@[b.index as int])) ==> p.eq_spec(&q),
        (p matches ParentContainer::CompositeType(a) && q matches ParentContainer::CompositeType(b)
            && dm.composite_types@[a.index as int].eq_spec(&dm.composite_types@[b.index as int]))
            ==> p.eq_spec(&q),
        (p is Model && q is CompositeType) ==> !p.eq_spec(&q),
        (p is CompositeType && q is Model) ==> !p.eq_spec(&q),
{
    match (p, q) {
        (ParentContainer::Model(a), ParentContainer::Model(b)) => {
            assert(dm.model_wf(a.index as int));
            assert(dm.model_wf(b.index as int));
        },
        (ParentContainer::CompositeType(a), ParentContainer::CompositeType(b)) => {
            assert(dm.composite_wf(a.index as int));
            assert(dm.composite_wf(b.index as int));
        },
        _ => {},
    }
}

/// In a well-formed data model, every field's container resolves to the
/// entity that declares the field, not to the type the field refers to; this
/// holds through self-referential and mutually embedding types.
pub proof fn lemma_container_is_declaring_entity(dm: InternalDataModel)
    requires
        dm.wf(),
    ensures
        forall|i: int, j: int|
            0 <= i < dm.models@.len() && 0 <= j < dm.models@[i].fields@.len() ==> {
                let c = (#[trigger] dm.models@[i].fields@[j]).container;
                c.resolves_in(dm) && c == ParentContainer::Model(dm.model_handle(i))
            },
        forall|i: int, j: int|
            0 <= i < dm.composite_types@.len() && 0 <= j < dm.composite_types@[i].fields@.len() ==> {
                let c = (#[trigger] dm.composite_types@[i].fields@[j]).container;
                c.resolves_in(dm) && c == ParentContainer::CompositeType(dm.composite_handle(i))
            },
{
    assert forall|i: int, j: int|
        0 <= i < dm.models@.len() && 0 <= j < dm.models@[i].fields@.len() implies {
            let c = (#[trigger] dm.models@[i].fields@[j]).container;
            c.resolves_in(dm) && c == ParentContainer::Model(dm.model_handle(i))
        } by {
        assert(dm.model_wf(i));
        assert(dm.field_wf(dm.models@[i].fields@[j], ParentContainer::Model(dm.model_handle(i))));
    }
    assert forall|i: int, j: int|
        0 <= i < dm.composite_types@.len() && 0 <= j < dm.composite_types@[i].fields@.len() implies {
            let c = (#[trigger] dm.composite_types@[i].fields@[j]).container;
            c.resolves_in(dm) && c == ParentContainer::CompositeType(dm.composite_handle(i))
        } by {
        assert(dm.composite_wf(i));
        assert(dm.field_wf(
            dm.composite_types@[i].fields@[j],
            ParentContainer::CompositeType(dm.composite_handle(i)),
        ));
    }
}

/// Containers of two data models with distinct identities never compare
/// equal, and a container of one never resolves in the other.
pub proof fn lemma_distinct_roots_share_no_handles(
    dm1: InternalDataModel,
    dm2: InternalDataModel,
    p: ParentContainer,
    q: ParentContainer,
)
    requires
        dm1.id != dm2.id,
        p.resolves_in(dm1),
        q.resolves_in(dm2),
    ensures
        !p.eq_spec(&q),
        !p.resolves_in(dm2),
        !q.resolves_in(dm1),
{
}

} // verus!
