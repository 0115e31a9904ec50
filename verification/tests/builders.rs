use ext_php_rs::allocator::{PhpAllocator, RequestArena};
use ext_php_rs::class::ClassBuilder;
use ext_php_rs::errors::BindingError;
use ext_php_rs::function::{
    Callback, FunctionBuilder, FunctionEntry, Visibility, ACC_PROTECTED, ACC_PUBLIC, ACC_STATIC,
};
use ext_php_rs::module::{ModuleBuilder, ZEND_MODULE_API_NO};
use ext_php_rs::value::ValueCell;

fn bytes(s: &str) -> Vec<u8> {
    s.as_bytes().to_vec()
}

fn sample_entry(name: &str, id: u64) -> FunctionEntry {
    let f = FunctionBuilder::new(bytes(name), Callback { id }).build();
    FunctionEntry::from_descriptor(&f).unwrap()
}

#[test]
fn sentinel_is_all_zero() {
    let e = FunctionEntry::end();
    assert!(e.name.is_empty());
    assert!(e.handler.is_none());
    assert_eq!(e.num_args, 0);
    assert_eq!(e.flags, 0);
}

#[test]
fn entry_from_descriptor() {
    let f = FunctionBuilder::new(bytes("hello"), Callback { id: 8 })
        .visibility(Visibility::Protected)
        .static_flag(true)
        .build();
    let e = FunctionEntry::from_descriptor(&f).unwrap();
    assert_eq!(e.name, b"hello\0".to_vec());
    assert_eq!(e.handler, Some(Callback { id: 8 }));
    assert_eq!(e.num_args, 0);
    assert_eq!(e.flags, ACC_PROTECTED | ACC_STATIC);
}

#[test]
fn entry_rejects_embedded_terminator() {
    let f = FunctionBuilder::new(b"he\0llo".to_vec(), Callback { id: 8 }).build();
    assert_eq!(FunctionEntry::from_descriptor(&f), Err(BindingError::InvalidName));
}

#[test]
fn table_terminated_with_zero_functions() {
    let mut b = ModuleBuilder::new(bytes("ext"), bytes("0.1.0"));
    let m = b.build().unwrap();
    assert_eq!(m.functions.len(), 1);
    let last = m.functions.last().unwrap();
    assert!(last.name.is_empty() && last.handler.is_none() && last.num_args == 0 && last.flags == 0);
}

#[test]
fn table_terminated_with_one_function() {
    let mut b = ModuleBuilder::new(bytes("ext"), bytes("0.1.0"))
        .function(sample_entry("f", 1))
        .unwrap();
    let m = b.build().unwrap();
    assert_eq!(m.functions.len(), 2);
    assert_eq!(m.functions[0].name, b"f\0".to_vec());
    let last = m.functions.last().unwrap();
    assert!(last.name.is_empty() && last.handler.is_none() && last.num_args == 0 && last.flags == 0);
}

#[test]
fn table_terminated_with_many_functions() {
    let mut b = ModuleBuilder::new(bytes("ext"), bytes("0.1.0"));
    for (i, name) in ["f1", "f2", "f3", "f4"].iter().enumerate() {
        b = b.function(sample_entry(name, i as u64 + 1)).unwrap();
    }
    let m = b.build().unwrap();
    assert_eq!(m.functions.len(), 5);
    let last = m.functions.last().unwrap();
    assert!(last.name.is_empty() && last.handler.is_none() && last.num_args == 0 && last.flags == 0);
}

#[test]
fn build_twice_fails_already_built() {
    let mut b = ModuleBuilder::new(bytes("ext"), bytes("0.1.0"));
    let first = b.build();
    assert!(first.is_ok());
    let second = b.build();
    assert_eq!(second.unwrap_err(), BindingError::AlreadyBuilt);
}

#[test]
fn add_function_after_build_fails() {
    let mut b = ModuleBuilder::new(bytes("ext"), bytes("0.1.0"));
    b.build().unwrap();
    let r = b.function(sample_entry("late", 9));
    assert_eq!(r.unwrap_err(), BindingError::AlreadyBuilt);
}

#[test]
fn module_strings_get_host_form() {
    let mut b = ModuleBuilder::new(bytes("ext"), bytes("0.1.0"))
        .startup_function(Callback { id: 10 })
        .request_shutdown_function(Callback { id: 11 });
    let m = b.build().unwrap();
    assert_eq!(m.name, b"ext\0".to_vec());
    assert_eq!(m.version, b"0.1.0\0".to_vec());
    assert_eq!(m.zend_api, ZEND_MODULE_API_NO);
    assert_eq!(m.module_startup_func, Some(Callback { id: 10 }));
    assert_eq!(m.module_shutdown_func, None);
    assert_eq!(m.request_startup_func, None);
    assert_eq!(m.request_shutdown_func, Some(Callback { id: 11 }));
    assert_eq!(m.ini_entry, 0);
    assert_eq!(m.deps, 0);
}

#[test]
fn module_name_with_embedded_terminator_rejected() {
    let mut b = ModuleBuilder::new(b"ex\0t".to_vec(), bytes("0.1.0"));
    assert_eq!(b.build().unwrap_err(), BindingError::InvalidName);
    // the builder is left unchanged, so a later build still reports the
    // same invalid name rather than AlreadyBuilt
    assert_eq!(b.build().unwrap_err(), BindingError::InvalidName);
}

#[test]
fn module_version_with_embedded_terminator_rejected() {
    let mut b = ModuleBuilder::new(bytes("ext"), b"0.\01".to_vec());
    assert_eq!(b.build().unwrap_err(), BindingError::InvalidName);
}

#[test]
fn into_raw_hands_entry_over() {
    let mut b = ModuleBuilder::new(bytes("ext"), bytes("0.1.0"));
    let m = b.build().unwrap();
    let handle = m.into_raw();
    assert_eq!(handle.value.name, b"ext\0".to_vec());
}

#[test]
fn ext_php_rs_startup_is_callable() {
    ext_php_rs::module::ext_php_rs_startup();
}

#[test]
fn scenario_b_class_with_methods_and_constant() {
    let m1 = FunctionBuilder::new(bytes("m1"), Callback { id: 1 }).build();
    let m2 = FunctionBuilder::new(bytes("m2"), Callback { id: 2 }).build();
    let c = ClassBuilder::new(bytes("TestClass"))
        .method(m1, Visibility::Public)
        .method(m2, Visibility::Protected)
        .constant(bytes("LIMIT"), ValueCell::Int(100))
        .build()
        .unwrap();
    assert_eq!(c.name, bytes("TestClass"));
    assert_eq!(c.methods.len(), 2);
    assert_eq!(c.methods[0].name, bytes("m1"));
    assert_eq!(c.methods[0].visibility, Visibility::Public);
    assert_eq!(c.methods[1].name, bytes("m2"));
    assert_eq!(c.methods[1].visibility, Visibility::Protected);
    assert_eq!(c.constants.len(), 1);
    assert_eq!(c.constants[0].name, bytes("LIMIT"));
    assert_eq!(c.constants[0].value, ValueCell::Int(100));
    assert!(c.parent.is_none());
    assert!(c.interfaces.is_empty());
    assert!(c.properties.is_empty());
    assert!(c.object_override.is_none());
}

#[test]
fn class_builder_records_hierarchy() {
    let c = ClassBuilder::new(bytes("Impl"))
        .extends(bytes("Base"))
        .implements(bytes("Countable"))
        .object_override(Callback { id: 40 })
        .property(bytes("count"), ValueCell::Int(0))
        .build()
        .unwrap();
    assert_eq!(c.parent, Some(bytes("Base")));
    assert_eq!(c.interfaces, vec![bytes("Countable")]);
    assert_eq!(c.object_override, Some(Callback { id: 40 }));
    assert_eq!(c.properties.len(), 1);
    assert_eq!(c.properties[0].name, bytes("count"));
}

#[test]
fn class_name_with_embedded_terminator_rejected() {
    let r = ClassBuilder::new(b"Bad\0Name".to_vec()).build();
    assert_eq!(r.unwrap_err(), BindingError::InvalidName);
}

#[test]
fn method_flag_constants() {
    let f = FunctionBuilder::new(bytes("m"), Callback { id: 1 }).build();
    let e = FunctionEntry::from_descriptor(&f).unwrap();
    assert_eq!(e.flags, ACC_PUBLIC);
}

#[test]
fn allocator_marker() {
    let _ = PhpAllocator::new();
    let _ = PhpAllocator::default();
}

#[test]
fn arena_tracks_live_blocks() {
    let mut arena = RequestArena::new();
    let a = arena.allocate(16).unwrap();
    let b = arena.allocate(32).unwrap();
    assert_ne!(a, b);
    assert_eq!(arena.live_count(), 2);
    assert!(arena.deallocate(a));
    assert_eq!(arena.live_count(), 1);
    assert!(!arena.deallocate(a));
    assert!(arena.deallocate(b));
    assert_eq!(arena.live_count(), 0);
}
