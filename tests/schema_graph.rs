use prisma_models::construction::{
    BuildError, EntityDescription, FieldDescription, SchemaDescription, TypeDescription,
};
use prisma_models::data_model::{FieldType, InternalDataModel, ModelWeakRef, RootIds};
use prisma_models::parent_container::ParentContainer;
use std::collections::hash_map::DefaultHasher;
use std::hash::{Hash, Hasher};

fn field(name: &str, t: TypeDescription) -> FieldDescription {
    FieldDescription { name: name.to_string(), type_description: t }
}

fn entity(name: &str, fields: Vec<FieldDescription>) -> EntityDescription {
    EntityDescription { name: name.to_string(), fields }
}

fn embed(name: &str) -> TypeDescription {
    TypeDescription::Composite(name.to_string())
}

fn scalar(name: &str) -> TypeDescription {
    TypeDescription::Scalar(name.to_string())
}

fn build(s: &SchemaDescription) -> Result<InternalDataModel, BuildError> {
    InternalDataModel::build(&mut RootIds::new(), s)
}

fn hash_of<T: Hash>(t: &T) -> u64 {
    let mut h = DefaultHasher::new();
    t.hash(&mut h);
    h.finish()
}

fn user_address_schema() -> SchemaDescription {
    SchemaDescription {
        models: vec![entity("User", vec![field("address", embed("Address"))])],
        composite_types: vec![entity("Address", vec![field("nested", embed("Address"))])],
    }
}

#[test]
fn entities_lead_back_to_their_root() {
    let schema = SchemaDescription {
        models: vec![
            entity("User", vec![field("id", scalar("Int")), field("address", embed("Address"))]),
            entity("Post", vec![field("author", TypeDescription::Relation("User".to_string()))]),
        ],
        composite_types: vec![entity("Address", vec![field("street", scalar("String"))])],
    };
    let dm = build(&schema).unwrap();
    for m in dm.models() {
        assert_eq!(m.internal_data_model(), dm.reference());
        for f in m.fields() {
            assert_eq!(f.container.internal_data_model(&dm), dm.reference());
        }
    }
    for c in dm.composite_types() {
        assert_eq!(c.internal_data_model(), dm.reference());
        for f in c.fields() {
            assert_eq!(f.container.internal_data_model(&dm), dm.reference());
        }
    }
}

#[test]
fn containers_of_one_entity_are_equal_and_hash_equal() {
    let schema = SchemaDescription {
        models: vec![entity("User", vec![field("id", scalar("Int")), field("name", scalar("String"))])],
        composite_types: vec![entity("User", vec![field("a", scalar("Int")), field("b", scalar("Int"))])],
    };
    let dm = build(&schema).unwrap();
    let user = dm.find_model("User").unwrap();
    let p = user.fields()[0].container;
    let q = user.fields()[1].container;
    assert!(p == q);
    assert_eq!(hash_of(&p), hash_of(&q));
    let ct = dm.find_composite_type("User").unwrap();
    let r = ct.fields()[0].container;
    let s = ct.fields()[1].container;
    assert!(r == s);
    assert_eq!(hash_of(&r), hash_of(&s));
    // Same name, different kinds: never equal.
    assert!(p != r);
    assert!(r != p);
}

#[test]
fn composite_containers_are_no_models() {
    let dm = build(&user_address_schema()).unwrap();
    let address = dm.find_composite_type("Address").unwrap();
    let c = address.fields()[0].container;
    assert!(c.as_model(&dm).is_none());
    assert!(c.as_model_weak().is_none());
    let w = ParentContainer::from(prisma_models::data_model::CompositeTypeWeakRef {
        internal_data_model: dm.reference(),
        index: 99,
    });
    assert!(w.as_model(&dm).is_none());
}

#[test]
fn self_referential_composite_builds() {
    let schema = SchemaDescription {
        models: vec![],
        composite_types: vec![entity("Address", vec![field("nested", embed("Address"))])],
    };
    let dm = build(&schema).unwrap();
    let address = dm.find_composite_type("Address").unwrap();
    let nested = &address.fields()[0];
    assert_eq!(nested.name, "nested");
    assert!(nested.container.as_model(&dm).is_none());
    assert_eq!(nested.container.internal_data_model(&dm), dm.reference());
    assert!(nested.container.as_composite(&dm).unwrap() == address);
}

#[test]
fn mutual_cycles_resolve() {
    let schema = SchemaDescription {
        models: vec![],
        composite_types: vec![
            entity("A", vec![field("b", embed("B"))]),
            entity("B", vec![field("a", embed("A"))]),
        ],
    };
    let dm = build(&schema).unwrap();
    let a = dm.find_composite_type("A").unwrap();
    let b = dm.find_composite_type("B").unwrap();
    assert!(a.fields()[0].container.as_composite(&dm).unwrap() == a);
    assert!(b.fields()[0].container.as_composite(&dm).unwrap() == b);
    match &a.fields()[0].type_identifier {
        FieldType::Composite(w) => assert_eq!(dm.resolve_composite_type(w).unwrap().name, "B"),
        _ => panic!("field b should embed B"),
    }
    match &b.fields()[0].type_identifier {
        FieldType::Composite(w) => assert_eq!(dm.resolve_composite_type(w).unwrap().name, "A"),
        _ => panic!("field a should embed A"),
    }
}

#[test]
fn models_are_compared_by_identity() {
    let schema = SchemaDescription {
        models: vec![
            entity("Cat", vec![field("id", scalar("Int"))]),
            entity("Dog", vec![field("id", scalar("Int"))]),
        ],
        composite_types: vec![],
    };
    let dm = build(&schema).unwrap();
    let cat = dm.find_model("Cat").unwrap();
    let dog = dm.find_model("Dog").unwrap();
    assert!(cat != dog);
    let cat_again = dm.find_model("Cat").unwrap();
    assert!(cat == cat_again);
    assert_eq!(hash_of(&cat.handle()), hash_of(&cat_again.handle()));
    assert_ne!(cat.handle(), dog.handle());
    assert!(dm.find_model("Bird").is_none());
    assert!(dm.find_composite_type("Cat").is_none());
}

#[test]
fn user_with_embedded_address() {
    let dm = build(&user_address_schema()).unwrap();
    let user = dm.find_model("User").unwrap();
    let container = user.fields()[0].container;
    assert!(container.as_model(&dm).unwrap() == user);
    assert_eq!(container.as_model(&dm).unwrap().name, "User");
    assert_eq!(
        container.as_model_weak(),
        Some(ModelWeakRef { internal_data_model: dm.reference(), index: 0 })
    );
    let address = dm.find_composite_type("Address").unwrap();
    let nested = address.fields()[0].container;
    assert!(nested.as_model(&dm).is_none());
    assert!(nested.as_composite(&dm).unwrap() == address);
    assert!(container.as_composite(&dm).is_none());
}

#[test]
fn duplicate_model_name_is_refused() {
    let schema = SchemaDescription {
        models: vec![entity("User", vec![]), entity("Post", vec![]), entity("User", vec![])],
        composite_types: vec![],
    };
    match build(&schema) {
        Err(BuildError::DuplicateModelName(n)) => assert_eq!(n, "User"),
        other => panic!("unexpected: {:?}", other.map(|_| ())),
    }
}

#[test]
fn duplicate_composite_type_name_is_refused() {
    let schema = SchemaDescription {
        models: vec![entity("User", vec![])],
        composite_types: vec![entity("Address", vec![]), entity("Address", vec![])],
    };
    match build(&schema) {
        Err(BuildError::DuplicateCompositeTypeName(n)) => assert_eq!(n, "Address"),
        other => panic!("unexpected: {:?}", other.map(|_| ())),
    }
}

#[test]
fn unresolved_type_is_refused() {
    let schema = SchemaDescription {
        models: vec![entity("User", vec![field("address", embed("Location"))])],
        composite_types: vec![entity("Address", vec![])],
    };
    match build(&schema) {
        Err(BuildError::UnresolvedType(n)) => assert_eq!(n, "Location"),
        other => panic!("unexpected: {:?}", other.map(|_| ())),
    }
    let relation_to_composite = SchemaDescription {
        models: vec![entity("User", vec![field("home", TypeDescription::Relation("Address".to_string()))])],
        composite_types: vec![entity("Address", vec![])],
    };
    match build(&relation_to_composite) {
        Err(BuildError::UnresolvedType(n)) => assert_eq!(n, "Address"),
        other => panic!("unexpected: {:?}", other.map(|_| ())),
    }
}

#[test]
fn handles_of_another_root_do_not_resolve() {
    let mut ids = RootIds::new();
    let first = InternalDataModel::build(&mut ids, &user_address_schema()).unwrap();
    let second = InternalDataModel::build(&mut ids, &user_address_schema()).unwrap();
    assert_ne!(first.reference(), second.reference());
    let c = first.find_model("User").unwrap().fields()[0].container;
    assert!(c.as_model(&first).is_some());
    assert!(c.as_model(&second).is_none());
    let other = second.find_model("User").unwrap().fields()[0].container;
    assert!(c != other);
}

#[test]
fn empty_schema_builds() {
    let dm = build(&SchemaDescription { models: vec![], composite_types: vec![] }).unwrap();
    assert!(dm.models().is_empty());
    assert!(dm.composite_types().is_empty());
    assert!(dm.find_model("").is_none());
}

#[test]
fn containers_describe_themselves() {
    let dm = build(&user_address_schema()).unwrap();
    let user = dm.find_model("User").unwrap();
    assert_eq!(
        user.fields()[0].container.describe(&dm),
        "ParentContainer { enum_variant: \"Model\", name: \"User\" }"
    );
    let address = dm.find_composite_type("Address").unwrap();
    assert_eq!(
        address.fields()[0].container.describe(&dm),
        "ParentContainer { enum_variant: \"CompositeType\", name: \"Address\" }"
    );
}

#[test]
fn identities_are_handed_out_once() {
    let mut ids = RootIds::new();
    assert_eq!(ids.fresh(), Some(0));
    assert_eq!(ids.fresh(), Some(1));
    let dm = InternalDataModel::build(&mut ids, &user_address_schema()).unwrap();
    assert_eq!(dm.reference().id, 2);
    assert_eq!(ids.fresh(), Some(3));
}

#[test]
fn same_schema_twice_gives_distinct_identities() {
    let mut ids = RootIds::new();
    let d1 = InternalDataModel::build(&mut ids, &user_address_schema()).unwrap();
    let d2 = InternalDataModel::build(&mut ids, &user_address_schema()).unwrap();
    let m1 = d1.find_model("User").unwrap();
    let m2 = d2.find_model("User").unwrap();
    assert_eq!(m1.name, m2.name);
    assert!(m1 != m2);
    let c1 = m1.fields()[0].container;
    let c2 = m2.fields()[0].container;
    assert!(c1 != c2);
    assert_eq!(c1.describe(&d1), c2.describe(&d2));
    assert!(c1.as_model(&d2).is_none());
}

#[test]
fn described_names_are_escaped() {
    let schema = SchemaDescription {
        models: vec![entity("\"", vec![field("id", scalar("Int"))])],
        composite_types: vec![entity("a\\b", vec![field("x", scalar("Int"))])],
    };
    let dm = build(&schema).unwrap();
    let m = &dm.models()[0];
    assert_eq!(
        m.fields()[0].container.describe(&dm),
        "ParentContainer { enum_variant: \"Model\", name: \"\\\"\" }"
    );
    let c = &dm.composite_types()[0];
    assert_eq!(
        c.fields()[0].container.describe(&dm),
        format!("ParentContainer {{ enum_variant: \"CompositeType\", name: {:?} }}", "a\\b")
    );
}

#[test]
fn description_frame() {
    assert_eq!(
        prisma_models::parent_container::frame_description("Model", "\"x\""),
        "ParentContainer { enum_variant: \"Model\", name: \"x\" }"
    );
}
