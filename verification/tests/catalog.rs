use dill_impl::arg::Provider;
use dill_impl::builder::{implement_builder, Builder};
use dill_impl::catalog::{Catalog, CatalogBuilder};
use dill_impl::error::InjectionError;
use dill_impl::instance::{Field, Instance, Value};
use dill_impl::scope::{Handle, Scope};
use dill_impl::syntax::{Path, Visibility};
use dill_impl::ty::{Arguments, TypeExpr, TypeForm};

fn reference(elem: TypeExpr) -> TypeExpr {
    TypeExpr { text: format!("& {}", elem.text), form: TypeForm::Reference(Box::new(elem)) }
}

fn arc_of(inner: TypeExpr) -> TypeExpr {
    TypeExpr {
        text: format!("Arc < {} >", inner.text),
        form: TypeForm::Path {
            qualified: false,
            global: false,
            segments: 1,
            last: "Arc".to_string(),
            arguments: Arguments::AngleBracketed(Some(Box::new(inner))),
        },
    }
}

fn named(text: &str) -> TypeExpr {
    TypeExpr::from_ident(text)
}

fn singleton() -> Path {
    Path { text: "Singleton".to_string(), ident: Some("Singleton".to_string()), last: "Singleton".to_string() }
}

fn transient() -> Path {
    Path::default_scope()
}

fn builder(ty: &str, scope: Path, args: Vec<(&str, TypeExpr)>) -> Builder {
    let args = args.into_iter().map(|(n, t)| (n.to_string(), t)).collect();
    implement_builder(&Visibility::Public, &named(ty), scope, args, true).unwrap()
}

fn catalog(builders: Vec<Builder>) -> Catalog {
    let mut b = CatalogBuilder::new();
    for x in builders {
        b.add_builder(x);
    }
    b.build()
}

fn field(name: &str, value: Value) -> Field {
    Field { name: name.to_string(), value }
}

#[test]
fn an_empty_registry_builds_an_empty_catalog() {
    let b = CatalogBuilder::new();
    assert_eq!(b.len(), 0);
    let cat = b.build();
    assert_eq!(cat.len(), 0);
    assert_eq!(cat.instance_count(), 0);
    assert_eq!(cat.builder(0), None);
    assert_eq!(cat.instance(Handle { index: 0 }), None);
}

#[test]
fn builders_are_kept_in_registration_order() {
    let mut b = CatalogBuilder::new();
    b.add_builder(builder("Logger", transient(), vec![]));
    assert_eq!(b.len(), 1);
    b.add_builder(builder("Service", singleton(), vec![]));
    assert_eq!(b.len(), 2);
    let cat = b.build();
    assert_eq!(cat.len(), 2);
    assert_eq!(cat.builder(0).unwrap().instance_type_name(), "Logger");
    assert_eq!(cat.builder(1).unwrap().instance_type_name(), "Service");
    assert_eq!(cat.builder(2), None);
}

#[test]
fn an_unregistered_type_is_not_found() {
    let mut cat = catalog(vec![]);
    assert_eq!(cat.get("Logger"), Err(InjectionError::NotFound("Logger".to_string())));
    let mut cat = catalog(vec![builder("Service", transient(), vec![])]);
    assert_eq!(cat.get("Logger"), Err(InjectionError::NotFound("Logger".to_string())));
    assert_eq!(cat.instance_count(), 0);
}

#[test]
fn two_builders_for_one_type_are_ambiguous() {
    let mut cat = catalog(vec![
        builder("Logger", transient(), vec![]),
        builder("Service", transient(), vec![]),
        builder("Logger", singleton(), vec![]),
    ]);
    assert_eq!(
        cat.get("Logger"),
        Err(InjectionError::Ambiguous(vec!["Logger".to_string(), "Logger".to_string()]))
    );
    assert_eq!(cat.instance_count(), 0);
    assert_eq!(cat.builder(2).unwrap().scope, Scope::Singleton(None));
    assert!(cat.get("Service").is_ok());
}

#[test]
fn three_builders_for_one_type_are_all_named() {
    let mut cat = catalog(vec![
        builder("Logger", transient(), vec![]),
        builder("Logger", transient(), vec![]),
        builder("Logger", transient(), vec![]),
    ]);
    assert_eq!(cat.get("Logger"), Err(InjectionError::Ambiguous(vec!["Logger".to_string(); 3])));
}

#[test]
fn selecting_names_the_position() {
    let cat = catalog(vec![
        builder("Logger", transient(), vec![]),
        builder("Service", transient(), vec![]),
    ]);
    assert_eq!(cat.select("Service"), Ok(1));
    assert_eq!(cat.select("Logger"), Ok(0));
    assert_eq!(cat.select("Other"), Err(InjectionError::NotFound("Other".to_string())));
}

#[test]
fn a_transient_type_is_built_anew_each_time() {
    let mut cat = catalog(vec![builder("Logger", transient(), vec![])]);
    let a = cat.get("Logger").unwrap();
    let b = cat.get("Logger").unwrap();
    assert_ne!(a, b);
    assert_eq!(cat.instance(a), cat.instance(b));
    assert_eq!(cat.instance(a), Some(&Instance { ty: "Logger".to_string(), fields: vec![] }));
    assert_eq!(cat.instance_count(), 2);
    assert_eq!(cat.builder(0).unwrap().scope, Scope::Transient);
}

#[test]
fn a_singleton_type_is_built_once() {
    let mut cat = catalog(vec![builder("Logger", singleton(), vec![])]);
    let a = cat.get("Logger").unwrap();
    let b = cat.get("Logger").unwrap();
    let c = cat.get("Logger").unwrap();
    assert_eq!(a, b);
    assert_eq!(b, c);
    assert_eq!(cat.instance_count(), 1);
    assert_eq!(cat.builder(0).unwrap().scope, Scope::Singleton(Some(a)));
}

#[test]
fn handles_count_up_from_zero() {
    let mut cat = catalog(vec![builder("Logger", transient(), vec![])]);
    assert_eq!(cat.get("Logger"), Ok(Handle { index: 0 }));
    assert_eq!(cat.get("Logger"), Ok(Handle { index: 1 }));
    assert_eq!(cat.get("Logger"), Ok(Handle { index: 2 }));
}

#[test]
fn a_singleton_service_shares_one_logger() {
    let mut cat = catalog(vec![
        builder("Logger", transient(), vec![]),
        builder("Service", singleton(), vec![("logger", arc_of(named("Logger")))]),
    ]);
    let first = cat.get("Service").unwrap();
    let second = cat.get("Service").unwrap();
    assert_eq!(first, second);
    assert_eq!(cat.instance_count(), 2);
    let service = cat.instance(first).unwrap();
    assert_eq!(service.ty, "Service");
    let logger = match service.field("logger") {
        Some(Value::Shared(h)) => *h,
        other => panic!("unexpected {:?}", other),
    };
    assert_eq!(cat.instance(logger).unwrap().ty, "Logger");
    assert_eq!(cat.instance(second).unwrap().field("logger"), Some(&Value::Shared(logger)));
    let another = cat.get("Logger").unwrap();
    assert_ne!(another, logger);
    assert_eq!(cat.instance(first).unwrap().field("logger"), Some(&Value::Shared(logger)));
}

#[test]
fn a_pinned_config_is_not_asked_of_the_catalog() {
    let service = builder("Service", transient(), vec![("config", named("String"))])
        .with_arg("config", "test")
        .unwrap();
    let mut cat = catalog(vec![service]);
    assert_eq!(cat.select("String"), Err(InjectionError::NotFound("String".to_string())));
    let h = cat.get("Service").unwrap();
    assert_eq!(
        cat.instance(h),
        Some(&Instance {
            ty: "Service".to_string(),
            fields: vec![field("config", Value::Literal("test".to_string()))],
        })
    );
    assert_eq!(cat.instance_count(), 1);
}

#[test]
fn a_pinned_value_is_handed_out_on_every_construction() {
    let service = builder("Service", transient(), vec![("config", named("String"))])
        .with_arg("config", "test")
        .unwrap();
    let mut cat = catalog(vec![service]);
    let a = cat.get("Service").unwrap();
    let b = cat.get("Service").unwrap();
    assert_ne!(a, b);
    assert_eq!(cat.instance(a).unwrap().field("config"), Some(&Value::Literal("test".to_string())));
    assert_eq!(cat.instance(b).unwrap().field("config"), Some(&Value::Literal("test".to_string())));
}

#[test]
fn an_override_keeps_a_registered_type_from_being_built() {
    let service = builder("Service", transient(), vec![("config", named("Config"))])
        .with_arg("config", "test")
        .unwrap();
    let mut cat = catalog(vec![builder("Config", singleton(), vec![]), service]);
    let h = cat.get("Service").unwrap();
    assert_eq!(h, Handle { index: 0 });
    assert_eq!(cat.instance_count(), 1);
    assert_eq!(cat.builder(0).unwrap().scope, Scope::Singleton(None));
}

#[test]
fn without_the_override_the_catalog_is_asked_again() {
    let pinned = builder("Service", transient(), vec![("config", named("String"))])
        .with_arg("config", "test")
        .unwrap();
    let mut cat = catalog(vec![pinned.without_arg("config").unwrap()]);
    assert_eq!(cat.get("Service"), Err(InjectionError::NotFound("String".to_string())));
    assert_eq!(cat.instance_count(), 0);

    let restored = builder("Service", transient(), vec![("config", named("String"))])
        .with_arg("config", "test")
        .unwrap()
        .without_arg("config")
        .unwrap();
    let mut cat = catalog(vec![builder("String", transient(), vec![]), restored]);
    let h = cat.get("Service").unwrap();
    assert_eq!(
        cat.instance(h).unwrap().field("config"),
        Some(&Value::Owned(Handle { index: 0 }))
    );
}

#[test]
fn each_kind_of_argument_receives_its_kind_of_value() {
    let service = builder(
        "Service",
        transient(),
        vec![
            ("audit", reference(named("Logger"))),
            ("logger", arc_of(named("Logger"))),
            ("config", named("Config")),
        ],
    );
    let mut cat = catalog(vec![
        builder("Logger", singleton(), vec![]),
        builder("Config", transient(), vec![]),
        service,
    ]);
    let h = cat.get("Service").unwrap();
    assert_eq!(h, Handle { index: 2 });
    assert_eq!(
        cat.instance(h),
        Some(&Instance {
            ty: "Service".to_string(),
            fields: vec![
                field("audit", Value::Borrowed(Handle { index: 0 })),
                field("logger", Value::Shared(Handle { index: 0 })),
                field("config", Value::Owned(Handle { index: 1 })),
            ],
        })
    );
    assert_eq!(cat.instance(Handle { index: 0 }).unwrap().ty, "Logger");
    assert_eq!(cat.instance(Handle { index: 1 }).unwrap().ty, "Config");
}

#[test]
fn arguments_are_resolved_in_order_and_in_depth() {
    let mut cat = catalog(vec![
        builder("A", transient(), vec![("b", named("B")), ("c", named("C"))]),
        builder("B", transient(), vec![("c", named("C"))]),
        builder("C", transient(), vec![]),
    ]);
    let a = cat.get("A").unwrap();
    assert_eq!(a, Handle { index: 3 });
    let types: Vec<String> =
        (0..4).map(|i| cat.instance(Handle { index: i }).unwrap().ty.clone()).collect();
    assert_eq!(types, vec!["C", "B", "C", "A"]);
    assert_eq!(
        cat.instance(a).unwrap().fields,
        vec![
            field("b", Value::Owned(Handle { index: 1 })),
            field("c", Value::Owned(Handle { index: 2 })),
        ]
    );
    assert_eq!(
        cat.instance(Handle { index: 1 }).unwrap().fields,
        vec![field("c", Value::Owned(Handle { index: 0 }))]
    );
}

#[test]
fn a_missing_dependency_fails_the_whole_construction() {
    let mut cat = catalog(vec![builder(
        "Service",
        singleton(),
        vec![("logger", arc_of(named("Logger")))],
    )]);
    assert_eq!(cat.get("Service"), Err(InjectionError::NotFound("Logger".to_string())));
    assert_eq!(cat.instance_count(), 0);
    assert_eq!(cat.builder(0).unwrap().scope, Scope::Singleton(None));
}

#[test]
fn an_ambiguous_dependency_fails_the_whole_construction() {
    let mut cat = catalog(vec![
        builder("Logger", transient(), vec![]),
        builder("Logger", transient(), vec![]),
        builder("Service", singleton(), vec![("logger", reference(named("Logger")))]),
    ]);
    assert_eq!(
        cat.get("Service"),
        Err(InjectionError::Ambiguous(vec!["Logger".to_string(), "Logger".to_string()]))
    );
    assert_eq!(cat.builder(2).unwrap().scope, Scope::Singleton(None));
}

#[test]
fn a_failure_keeps_what_was_completed_before_it() {
    let mut cat = catalog(vec![
        builder("Logger", singleton(), vec![]),
        builder(
            "Service",
            singleton(),
            vec![("logger", arc_of(named("Logger"))), ("config", named("Config"))],
        ),
    ]);
    assert_eq!(cat.get("Service"), Err(InjectionError::NotFound("Config".to_string())));
    assert_eq!(cat.instance_count(), 1);
    assert_eq!(cat.builder(0).unwrap().scope, Scope::Singleton(Some(Handle { index: 0 })));
    assert_eq!(cat.builder(1).unwrap().scope, Scope::Singleton(None));
    assert_eq!(cat.get("Logger"), Ok(Handle { index: 0 }));
}

#[test]
fn a_failed_construction_is_tried_again_on_the_next_request() {
    let service = builder("Service", singleton(), vec![("config", named("Config"))])
        .with_arg_fn("config", Provider::Failure("disk".to_string()))
        .unwrap();
    let mut cat = catalog(vec![service]);
    assert_eq!(cat.get("Service"), Err(InjectionError::BuildFailure("disk".to_string())));
    assert_eq!(cat.get("Service"), Err(InjectionError::BuildFailure("disk".to_string())));
    assert_eq!(cat.instance_count(), 0);
}

#[test]
fn a_failing_function_is_a_build_failure() {
    let service = builder(
        "Service",
        transient(),
        vec![("logger", arc_of(named("Logger"))), ("config", named("Config"))],
    )
    .with_arg_fn("config", Provider::Failure("no configuration".to_string()))
    .unwrap();
    let mut cat = catalog(vec![builder("Logger", transient(), vec![]), service]);
    assert_eq!(
        cat.get("Service"),
        Err(InjectionError::BuildFailure("no configuration".to_string()))
    );
    assert_eq!(cat.instance_count(), 1);
}

#[test]
fn a_function_may_ask_the_catalog_for_another_type() {
    let service = builder("Service", transient(), vec![("logger", arc_of(named("Logger")))])
        .with_arg_fn("logger", Provider::Lookup("MockLogger".to_string()))
        .unwrap();
    let mut cat = catalog(vec![builder("MockLogger", singleton(), vec![]), service]);
    let h = cat.get("Service").unwrap();
    let mock = cat.get("MockLogger").unwrap();
    assert_eq!(cat.instance(h).unwrap().field("logger"), Some(&Value::Shared(mock)));
    assert_eq!(cat.select("Logger"), Err(InjectionError::NotFound("Logger".to_string())));
}

#[test]
fn a_function_that_asks_for_a_missing_type_fails_with_that_type() {
    let service = builder("Service", transient(), vec![("logger", arc_of(named("Logger")))])
        .with_arg_fn("logger", Provider::Lookup("MockLogger".to_string()))
        .unwrap();
    let mut cat = catalog(vec![builder("Logger", transient(), vec![]), service]);
    assert_eq!(cat.get("Service"), Err(InjectionError::NotFound("MockLogger".to_string())));
    assert_eq!(cat.instance_count(), 0);
}

#[test]
fn an_override_set_by_hand_on_a_reference_is_ignored() {
    let mut service = builder("Service", transient(), vec![("audit", reference(named("Logger")))]);
    service.args[0].substitute = Some(dill_impl::arg::Override::Value("x".to_string()));
    let mut cat = catalog(vec![builder("Logger", transient(), vec![]), service]);
    let h = cat.get("Service").unwrap();
    assert_eq!(
        cat.instance(h).unwrap().field("audit"),
        Some(&Value::Borrowed(Handle { index: 0 }))
    );
}

#[test]
fn a_component_that_needs_itself_is_cyclic() {
    let mut cat = catalog(vec![builder("Node", transient(), vec![("next", arc_of(named("Node")))])]);
    assert_eq!(cat.get("Node"), Err(InjectionError::CyclicDependency("Node".to_string())));
    assert_eq!(cat.instance_count(), 0);
}

#[test]
fn a_cycle_of_two_is_cyclic_through_every_kind_of_argument() {
    for back in [arc_of(named("A")), reference(named("A")), named("A")] {
        let mut cat = catalog(vec![
            builder("A", singleton(), vec![("b", arc_of(named("B")))]),
            builder("B", singleton(), vec![("a", back)]),
        ]);
        assert_eq!(cat.get("A"), Err(InjectionError::CyclicDependency("A".to_string())));
        assert_eq!(cat.get("B"), Err(InjectionError::CyclicDependency("B".to_string())));
        assert_eq!(cat.instance_count(), 0);
        assert_eq!(cat.builder(0).unwrap().scope, Scope::Singleton(None));
        assert_eq!(cat.builder(1).unwrap().scope, Scope::Singleton(None));
    }
}

#[test]
fn a_diamond_is_no_cycle() {
    let mut cat = catalog(vec![
        builder("Top", transient(), vec![("l", named("Left")), ("r", named("Right"))]),
        builder("Left", transient(), vec![("base", arc_of(named("Base")))]),
        builder("Right", transient(), vec![("base", arc_of(named("Base")))]),
        builder("Base", singleton(), vec![]),
    ]);
    let top = cat.get("Top").unwrap();
    assert_eq!(cat.instance_count(), 4);
    let left = match cat.instance(top).unwrap().field("l") {
        Some(Value::Owned(h)) => *h,
        other => panic!("unexpected {:?}", other),
    };
    let right = match cat.instance(top).unwrap().field("r") {
        Some(Value::Owned(h)) => *h,
        other => panic!("unexpected {:?}", other),
    };
    assert_eq!(cat.instance(left).unwrap().field("base"), cat.instance(right).unwrap().field("base"));
}

#[test]
fn a_cycle_broken_by_an_override_can_be_built() {
    let b = builder("B", transient(), vec![("a", named("A"))]).with_arg("a", "stub").unwrap();
    let mut cat = catalog(vec![builder("A", transient(), vec![("b", named("B"))]), b]);
    let a = cat.get("A").unwrap();
    assert_eq!(a, Handle { index: 1 });
    assert_eq!(
        cat.instance(Handle { index: 0 }).unwrap().fields,
        vec![field("a", Value::Literal("stub".to_string()))]
    );
}

#[test]
fn a_populated_singleton_ends_a_cycle_early() {
    let mut a = builder("A", singleton(), vec![("b", arc_of(named("B")))]);
    a.args[0].substitute = Some(dill_impl::arg::Override::Value("first".to_string()));
    let mut cat = catalog(vec![a, builder("B", transient(), vec![("a", arc_of(named("A")))])]);
    let first = cat.get("A").unwrap();
    let b = cat.get("B").unwrap();
    assert_eq!(cat.instance(b).unwrap().field("a"), Some(&Value::Shared(first)));
}

#[test]
fn a_cached_handle_of_another_type_fails_the_downcast() {
    let mut wrong = builder("Service", singleton(), vec![]);
    wrong.scope = Scope::Singleton(Some(Handle { index: 0 }));
    let mut cat = catalog(vec![builder("Logger", transient(), vec![]), wrong]);
    assert_eq!(cat.get("Service"), Err(InjectionError::DowncastFailure("Service".to_string())));
    assert_eq!(cat.get("Logger"), Ok(Handle { index: 0 }));
    assert_eq!(cat.get("Service"), Err(InjectionError::DowncastFailure("Service".to_string())));
}

#[test]
fn a_downcast_checks_the_type_of_the_instance() {
    let mut cat = catalog(vec![builder("Logger", transient(), vec![])]);
    let h = cat.get("Logger").unwrap();
    assert_eq!(cat.downcast(h, "Logger"), Ok(h));
    assert_eq!(
        cat.downcast(h, "Service"),
        Err(InjectionError::DowncastFailure("Service".to_string()))
    );
    assert_eq!(
        cat.downcast(Handle { index: 7 }, "Logger"),
        Err(InjectionError::DowncastFailure("Logger".to_string()))
    );
}

#[test]
fn the_registry_is_frozen() {
    let mut cat = catalog(vec![
        builder("Logger", transient(), vec![]),
        builder("Service", singleton(), vec![("logger", arc_of(named("Logger")))]),
    ]);
    let names = |c: &Catalog| -> Vec<String> {
        (0..c.len()).map(|i| c.builder(i).unwrap().instance_type_id()).collect()
    };
    let before = names(&cat);
    let args_before = cat.builder(1).unwrap().args.clone();
    let _ = cat.get("Service");
    let _ = cat.get("Logger");
    let _ = cat.get("Missing");
    assert_eq!(names(&cat), before);
    assert_eq!(cat.builder(1).unwrap().args, args_before);
    assert_eq!(cat.len(), 2);
}

#[test]
fn fields_are_found_by_name() {
    let x = Instance {
        ty: "Service".to_string(),
        fields: vec![
            field("a", Value::Literal("1".to_string())),
            field("b", Value::Shared(Handle { index: 3 })),
            field("a", Value::Literal("2".to_string())),
        ],
    };
    assert_eq!(x.field("a"), Some(&Value::Literal("1".to_string())));
    assert_eq!(x.field("b"), Some(&Value::Shared(Handle { index: 3 })));
    assert_eq!(x.field("c"), None);
}
