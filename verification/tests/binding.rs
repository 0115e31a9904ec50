use ext_php_rs::args::{bind_args, ArgDescriptor, DefaultValue};
use ext_php_rs::convert::{Kind, NativeValue, TypeSpec};
use ext_php_rs::errors::{BindError, BindingError, ConversionError};
use ext_php_rs::function::{Callback, FunctionBuilder, FunctionDescriptor, Visibility};
use ext_php_rs::value::ValueCell;

fn bytes(s: &str) -> Vec<u8> {
    s.as_bytes().to_vec()
}

fn two_arg_fn() -> FunctionDescriptor {
    FunctionBuilder::new(bytes("g"), Callback { id: 2 })
        .arg(ArgDescriptor::required(bytes("b"), TypeSpec::Prim(Kind::Str)))
        .unwrap()
        .arg(ArgDescriptor::optional(
            bytes("c"),
            TypeSpec::Prim(Kind::Str),
            DefaultValue::Str(bytes("x")),
        ))
        .unwrap()
        .build()
}

#[test]
fn arity_bounds_from_declarations() {
    let g = two_arg_fn();
    assert_eq!(g.min, 1);
    assert_eq!(g.max, 2);
}

#[test]
fn arity_error_below_min() {
    let g = two_arg_fn();
    let r = bind_args(&g, vec![]);
    assert_eq!(r, Err(BindError::Arity { got: 0, min: 1, max: 2 }));
}

#[test]
fn arity_error_above_max() {
    let g = two_arg_fn();
    let r = bind_args(
        &g,
        vec![
            ValueCell::Str(bytes("a")),
            ValueCell::Str(bytes("b")),
            ValueCell::Str(bytes("c")),
        ],
    );
    assert_eq!(r, Err(BindError::Arity { got: 3, min: 1, max: 2 }));
}

#[test]
fn min_count_succeeds_with_valid_types() {
    let g = two_arg_fn();
    let r = bind_args(&g, vec![ValueCell::Str(bytes("hello"))]);
    assert_eq!(r, Ok(vec![NativeValue::Str(bytes("hello")), NativeValue::Str(bytes("x"))]));
}

#[test]
fn scenario_a_optional_binds_default() {
    // module with f(a: Int) and g(b: String, c: String = "x"); calling g
    // with one argument binds c to "x"
    let f = FunctionBuilder::new(bytes("f"), Callback { id: 1 })
        .arg(ArgDescriptor::required(bytes("a"), TypeSpec::Prim(Kind::Int)))
        .unwrap()
        .build();
    assert_eq!(f.min, 1);
    assert_eq!(f.max, 1);
    let g = two_arg_fn();
    let bound = bind_args(&g, vec![ValueCell::Str(bytes("hi"))]).unwrap();
    assert_eq!(bound[1], NativeValue::Str(bytes("x")));

    let mut module = ext_php_rs::module::ModuleBuilder::new(bytes("ext"), bytes("0.1.0"))
        .function(ext_php_rs::function::FunctionEntry::from_descriptor(&f).unwrap())
        .unwrap()
        .function(ext_php_rs::function::FunctionEntry::from_descriptor(&g).unwrap())
        .unwrap();
    let entry = module.build().unwrap();
    assert_eq!(entry.functions.len(), 3);
    assert_eq!(entry.functions[0].name, b"f\0".to_vec());
    assert_eq!(entry.functions[0].num_args, 1);
    assert_eq!(entry.functions[1].name, b"g\0".to_vec());
    assert_eq!(entry.functions[1].num_args, 2);
    let last = entry.functions.last().unwrap();
    assert!(last.name.is_empty() && last.handler.is_none());
}

#[test]
fn write_back_into_return_slot() {
    let mut slot = ValueCell::Null;
    ext_php_rs::convert::write_result(&mut slot, NativeValue::Int(7));
    assert_eq!(slot, ValueCell::Int(7));
    ext_php_rs::convert::write_result(&mut slot, NativeValue::Null);
    assert_eq!(slot, ValueCell::Null);
}

#[test]
fn provided_optional_overrides_default() {
    let g = two_arg_fn();
    let r = bind_args(&g, vec![ValueCell::Str(bytes("hi")), ValueCell::Str(bytes("there"))]);
    assert_eq!(r, Ok(vec![NativeValue::Str(bytes("hi")), NativeValue::Str(bytes("there"))]));
}

#[test]
fn argument_error_carries_name_and_reason() {
    let g = two_arg_fn();
    let r = bind_args(&g, vec![ValueCell::Int(3)]);
    assert_eq!(
        r,
        Err(BindError::Argument { name: bytes("b"), reason: ConversionError::TypeMismatch })
    );
}

#[test]
fn required_after_optional_rejected() {
    let b = FunctionBuilder::new(bytes("h"), Callback { id: 5 })
        .arg(ArgDescriptor::optional(
            bytes("o"),
            TypeSpec::Prim(Kind::Int),
            DefaultValue::Int(1),
        ))
        .unwrap();
    let r = b.arg(ArgDescriptor::required(bytes("r"), TypeSpec::Prim(Kind::Int)));
    match r {
        Err(BindingError::OrderingViolation(m)) => {
            assert_eq!(m, "required arguments must precede optional ones");
        },
        other => panic!("expected an ordering violation, got {:?}", other),
    }
}

#[test]
fn duplicate_argument_name_rejected() {
    let b = FunctionBuilder::new(bytes("h"), Callback { id: 5 })
        .arg(ArgDescriptor::required(bytes("a"), TypeSpec::Prim(Kind::Int)))
        .unwrap();
    let r = b.arg(ArgDescriptor::required(bytes("a"), TypeSpec::Prim(Kind::Str)));
    assert_eq!(r.unwrap_err(), BindingError::InvalidName);
}

#[test]
fn nullable_argument_accepts_null() {
    let f = FunctionBuilder::new(bytes("n"), Callback { id: 9 })
        .arg(ArgDescriptor::required(bytes("a"), TypeSpec::Nullable(Kind::Int)))
        .unwrap()
        .build();
    let r = bind_args(&f, vec![ValueCell::Null]);
    assert_eq!(r, Ok(vec![NativeValue::Null]));
}

#[test]
fn builder_defaults_public_non_static() {
    let f = FunctionBuilder::new(bytes("p"), Callback { id: 3 }).build();
    assert_eq!(f.visibility, Visibility::Public);
    assert!(!f.is_static);
    assert_eq!(f.min, 0);
    assert_eq!(f.max, 0);
}
