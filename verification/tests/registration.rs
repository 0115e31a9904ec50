use ext_php_rs::class::ClassBuilder;
use ext_php_rs::constant::{parser, Constant};
use ext_php_rs::errors::BindingError;
use ext_php_rs::function::Callback;
use ext_php_rs::registry::Registry;

fn bytes(s: &str) -> Vec<u8> {
    s.as_bytes().to_vec()
}

#[test]
fn constant_before_startup_accepted() {
    let mut reg = Registry::new();
    let r = reg.declare_constant(Constant { name: "A".to_string(), value: "1".to_string() });
    assert!(r.is_ok());
    assert_eq!(reg.constants.len(), 1);
}

#[test]
fn constant_after_startup_rejected() {
    let mut reg = Registry::new();
    reg.declare_startup(Callback { id: 1 }).unwrap();
    let r = reg.declare_constant(Constant { name: "A".to_string(), value: "1".to_string() });
    match r {
        Err(BindingError::OrderingViolation(m)) => {
            assert_eq!(m, "constants must precede startup");
        },
        other => panic!("expected an ordering violation, got {:?}", other),
    }
    assert!(reg.constants.is_empty());
}

#[test]
fn scenario_c_constant_startup_constant() {
    let mut reg = Registry::new();
    reg.declare_constant(Constant { name: "A".to_string(), value: "1".to_string() }).unwrap();
    reg.declare_startup(Callback { id: 1 }).unwrap();
    let r = reg.declare_constant(Constant { name: "B".to_string(), value: "2".to_string() });
    assert!(matches!(r, Err(BindingError::OrderingViolation(_))));
    assert_eq!(reg.constants.len(), 1);
    assert_eq!(reg.constants[0].name, "A");
}

#[test]
fn class_after_startup_rejected() {
    let mut reg = Registry::new();
    reg.declare_startup(Callback { id: 1 }).unwrap();
    let c = ClassBuilder::new(bytes("C")).build().unwrap();
    let r = reg.declare_class(c);
    assert!(matches!(r, Err(BindingError::OrderingViolation(_))));
}

#[test]
fn consume_hands_out_declarations_once() {
    let mut reg = Registry::new();
    reg.declare_constant(Constant { name: "A".to_string(), value: "1".to_string() }).unwrap();
    let c = ClassBuilder::new(bytes("C")).build().unwrap();
    reg.declare_class(c).unwrap();
    reg.declare_startup(Callback { id: 7 }).unwrap();
    let parts = reg.consume().unwrap();
    assert_eq!(parts.constants.len(), 1);
    assert_eq!(parts.classes.len(), 1);
    assert_eq!(parts.startup, Some(Callback { id: 7 }));
    assert_eq!(reg.consume().unwrap_err(), BindingError::AlreadyBuilt);
    assert_eq!(
        reg.declare_constant(Constant { name: "Z".to_string(), value: "0".to_string() })
            .unwrap_err(),
        BindingError::AlreadyBuilt
    );
    assert_eq!(reg.declare_startup(Callback { id: 8 }).unwrap_err(), BindingError::AlreadyBuilt);
}

#[test]
fn parser_records_declared_const() {
    let mut reg = Registry::new();
    let item: syn::ItemConst = syn::parse_str("const GREETING: i32 = 123;").unwrap();
    let tokens = parser(&mut reg, &item).unwrap();
    assert_eq!(reg.constants.len(), 1);
    assert_eq!(reg.constants[0].name, "GREETING");
    assert_eq!(reg.constants[0].value, "123");
    let text = tokens.to_string();
    assert!(text.contains("GREETING"));
    assert!(text.contains("123"));
}

#[test]
fn parser_rejects_const_after_startup() {
    let mut reg = Registry::new();
    reg.declare_startup(Callback { id: 1 }).unwrap();
    let item: syn::ItemConst = syn::parse_str("const A: i32 = 1;").unwrap();
    let r = parser(&mut reg, &item);
    match r {
        Err(BindingError::OrderingViolation(m)) => {
            assert_eq!(m, "constants must precede startup");
        },
        other => panic!("expected an ordering violation, got {:?}", other),
    }
    assert!(reg.constants.is_empty());
}

#[test]
fn val_tokens_literal() {
    let c = Constant { name: "N".to_string(), value: "42".to_string() };
    assert_eq!(c.val_tokens().to_string(), "42");
    let s = Constant { name: "S".to_string(), value: "\"hi\"".to_string() };
    assert_eq!(s.val_tokens().to_string(), "\"hi\"");
}

#[test]
fn val_tokens_ident() {
    let c = Constant { name: "N".to_string(), value: "some_value".to_string() };
    assert_eq!(c.val_tokens().to_string(), "some_value");
}

#[test]
fn val_tokens_fallback() {
    let c = Constant { name: "N".to_string(), value: "1 + 2".to_string() };
    let text = c.val_tokens().to_string();
    assert!(text.contains("Default"));
    assert!(text.contains("default"));
}
