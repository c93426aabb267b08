use worker_core::env::{Env, EnvBinding, Fetcher, HostObject, HostValue, ObjectNamespace, StringBinding};
use worker_core::error::Error;

fn env() -> Env {
    Env::new(vec![
        (
            "API_KEY".to_string(),
            HostValue::Object(HostObject::new("String".to_string(), Some("s3cr3t".to_string()))),
        ),
        ("MISSING".to_string(), HostValue::Undefined),
        (
            "DO".to_string(),
            HostValue::Object(HostObject::new("DurableObjectNamespace".to_string(), None)),
        ),
        ("SVC".to_string(), HostValue::Object(HostObject::new("Fetcher".to_string(), None))),
        (
            "API_KEY".to_string(),
            HostValue::Object(HostObject::new("String".to_string(), Some("later".to_string()))),
        ),
    ])
}

#[test]
fn secret_resolves_string() {
    let s = env().secret("API_KEY").unwrap();
    assert_eq!(s.to_string(), "s3cr3t");
    let v = env().var("API_KEY").unwrap();
    assert_eq!(v.to_string(), "s3cr3t");
}

#[test]
fn absent_binding_is_not_found() {
    match env().secret("NOPE") {
        Err(Error::BindingNotFound(n)) => assert_eq!(n, "NOPE"),
        _ => panic!("expected BindingNotFound"),
    }
    assert!(matches!(env().kv("NOPE"), Err(Error::BindingNotFound(_))));
}

#[test]
fn undefined_binding() {
    match env().var("MISSING") {
        Err(Error::BindingUndefined(n)) => assert_eq!(n, "MISSING"),
        _ => panic!("expected BindingUndefined"),
    }
    assert!(matches!(env().kv("MISSING"), Err(Error::BindingUndefined(_))));
}

#[test]
fn mismatched_binding_type() {
    match env().service("DO") {
        Err(Error::BindingTypeMismatch(e, a)) => {
            assert_eq!(e, "Fetcher");
            assert_eq!(a, "DurableObjectNamespace");
        }
        _ => panic!("expected BindingTypeMismatch"),
    }
    assert!(matches!(env().secret("SVC"), Err(Error::BindingTypeMismatch(_, _))));
    assert!(matches!(env().queue("SVC"), Err(Error::BindingTypeMismatch(_, _))));
    assert!(matches!(env().dynamic_dispatcher("SVC"), Err(Error::BindingTypeMismatch(_, _))));
}

#[test]
fn typed_bindings_resolve() {
    assert!(env().durable_object("DO").is_ok());
    assert!(env().service("SVC").is_ok());
    assert!(env().kv("DO").is_ok());
    assert!(env().get_binding::<ObjectNamespace>("DO").is_ok());
    assert!(env().get_binding::<Fetcher>("DO").is_err());
}

#[test]
fn string_binding_without_value_is_empty() {
    let e = Env::new(vec![("V".to_string(), HostValue::Object(HostObject::new("String".to_string(), None)))]);
    assert_eq!(e.var("V").unwrap().to_string(), "");
}

#[test]
fn resolution_is_repeatable() {
    let e = env();
    assert_eq!(e.secret("API_KEY").unwrap().to_string(), "s3cr3t");
    assert_eq!(e.secret("API_KEY").unwrap().to_string(), "s3cr3t");
}

#[test]
fn direct_cast_by_constructor_name() {
    let ok: Result<StringBinding, Error> =
        worker_core::env::get(HostObject::new("String".to_string(), Some("x".to_string())));
    assert_eq!(ok.unwrap().to_string(), "x");
    let bad: Result<StringBinding, Error> = worker_core::env::get(HostObject::new("Number".to_string(), None));
    assert!(matches!(bad, Err(Error::BindingTypeMismatch(_, _))));
    assert_eq!(StringBinding::binding_type_name(), "String");
}
