use dill_impl::arg::{Override, Provider};
use dill_impl::builder::{implement_builder, Builder};
use dill_impl::error::OverrideError;
use dill_impl::syntax::{Path, Visibility};
use dill_impl::ty::{Arguments, TypeExpr, TypeForm};

fn reference(elem: TypeExpr) -> TypeExpr {
    TypeExpr { text: format!("& {}", elem.text), form: TypeForm::Reference(Box::new(elem)) }
}

fn arc_of(inner: TypeExpr) -> TypeExpr {
    TypeExpr {
        text: format!("Arc < {} >", inner.text),
        form: TypeForm::Path {
            qualified: false,
            global: false,
            segments: 1,
            last: "Arc".to_string(),
            arguments: Arguments::AngleBracketed(Some(Box::new(inner))),
        },
    }
}

fn service() -> Builder {
    implement_builder(
        &Visibility::Public,
        &TypeExpr::from_ident("Service"),
        Path::default_scope(),
        vec![
            ("audit".to_string(), reference(TypeExpr::from_ident("Logger"))),
            ("logger".to_string(), arc_of(TypeExpr::from_ident("Logger"))),
            ("config".to_string(), TypeExpr::from_ident("String")),
        ],
        true,
    )
    .unwrap()
}

#[test]
fn arguments_are_found_by_name() {
    let b = service();
    assert_eq!(b.find_arg("audit"), Some(0));
    assert_eq!(b.find_arg("logger"), Some(1));
    assert_eq!(b.find_arg("config"), Some(2));
    assert_eq!(b.find_arg("Config"), None);
    assert_eq!(b.find_arg(""), None);
}

#[test]
fn a_value_is_pinned_on_the_argument_named() {
    let b = service().with_arg("config", "test").unwrap();
    assert_eq!(b.args[2].substitute, Some(Override::Value("test".to_string())));
    assert_eq!(b.args[0].substitute, None);
    assert_eq!(b.args[1].substitute, None);
}

#[test]
fn pinning_changes_nothing_else() {
    let before = service();
    let mut after = service().with_arg("config", "test").unwrap();
    after.args[2].substitute = None;
    assert_eq!(after, before);
}

#[test]
fn a_function_is_installed_on_the_argument_named() {
    let b = service().with_arg_fn("logger", Provider::Lookup("MockLogger".to_string())).unwrap();
    assert_eq!(
        b.args[1].substitute,
        Some(Override::Function(Provider::Lookup("MockLogger".to_string())))
    );
    let b = b.with_arg_fn("config", Provider::Failure("no config".to_string())).unwrap();
    assert_eq!(
        b.args[2].substitute,
        Some(Override::Function(Provider::Failure("no config".to_string())))
    );
    assert_eq!(
        b.args[1].substitute,
        Some(Override::Function(Provider::Lookup("MockLogger".to_string())))
    );
}

#[test]
fn a_later_override_replaces_an_earlier_one() {
    let b = service().with_arg("config", "a").unwrap().with_arg("config", "b").unwrap();
    assert_eq!(b.args[2].substitute, Some(Override::Value("b".to_string())));
    let b = b.with_arg_fn("config", Provider::Failure("c".to_string())).unwrap();
    assert_eq!(b.args[2].substitute, Some(Override::Function(Provider::Failure("c".to_string()))));
}

#[test]
fn removing_an_override_restores_the_builder() {
    let b = service().with_arg("config", "test").unwrap().without_arg("config").unwrap();
    assert_eq!(b, service());
}

#[test]
fn removing_where_nothing_is_set_changes_nothing() {
    assert_eq!(service().without_arg("logger").unwrap(), service());
}

#[test]
fn an_unknown_argument_cannot_be_overridden() {
    assert_eq!(service().with_arg("missing", "x"), Err(OverrideError::UnknownArgument));
    assert_eq!(
        service().with_arg_fn("missing", Provider::Failure("x".to_string())),
        Err(OverrideError::UnknownArgument)
    );
    assert_eq!(service().without_arg("missing"), Err(OverrideError::UnknownArgument));
}

#[test]
fn a_reference_cannot_be_overridden() {
    assert_eq!(service().with_arg("audit", "x"), Err(OverrideError::NotOverridable));
    assert_eq!(
        service().with_arg_fn("audit", Provider::Lookup("Logger".to_string())),
        Err(OverrideError::NotOverridable)
    );
    assert_eq!(service().without_arg("audit"), Err(OverrideError::NotOverridable));
}

#[test]
fn of_two_arguments_of_one_name_the_first_is_meant() {
    let b = implement_builder(
        &Visibility::Public,
        &TypeExpr::from_ident("Twice"),
        Path::default_scope(),
        vec![
            ("x".to_string(), TypeExpr::from_ident("A")),
            ("x".to_string(), TypeExpr::from_ident("B")),
        ],
        false,
    )
    .unwrap()
    .with_arg("x", "v")
    .unwrap();
    assert_eq!(b.args[0].substitute, Some(Override::Value("v".to_string())));
    assert_eq!(b.args[1].substitute, None);
}
