use wasm_host::registry::{ModuleRegistry, Namespace};
use wasm_host::text::same_text;
use wasmtime::{Config, Engine};

fn engine() -> Engine {
    let mut config = Config::new();
    config.memory_reservation(0).memory_guard_size(0).memory_reservation_for_growth(0);
    Engine::new(&config).unwrap()
}

#[test]
fn same_text_compares_character_by_character() {
    assert!(same_text("", ""));
    assert!(same_text("add", "add"));
    assert!(!same_text("add", "adds"));
    assert!(!same_text("add", "Add"));
    assert!(!same_text("", " "));
}

#[test]
fn each_namespace_is_recognized_by_its_name() {
    assert_eq!(Namespace::recognize("wasi_snapshot_preview1"), Some(Namespace::Preview1));
    assert_eq!(Namespace::recognize("wasi_unstable"), Some(Namespace::Unstable));
    assert_eq!(Namespace::recognize("calculator"), Some(Namespace::Calculator));
    assert_eq!(Namespace::recognize(Namespace::Preview1.text()), Some(Namespace::Preview1));
    assert_eq!(Namespace::recognize(Namespace::Unstable.text()), Some(Namespace::Unstable));
    assert_eq!(Namespace::recognize(Namespace::Calculator.text()), Some(Namespace::Calculator));
}

#[test]
fn other_names_are_not_recognized() {
    assert_eq!(Namespace::recognize(""), None);
    assert_eq!(Namespace::recognize("env"), None);
    assert_eq!(Namespace::recognize("wasi"), None);
    assert_eq!(Namespace::recognize("wasi_unstable "), None);
    assert_eq!(Namespace::recognize("Calculator"), None);
    assert_eq!(Namespace::recognize("wasi_snapshot_preview2"), None);
}

#[test]
fn the_registry_is_built_on_the_standard_streams() {
    assert!(ModuleRegistry::new(&engine()).is_ok());
}

#[test]
fn lookup_finds_a_function_of_each_system_interface() {
    let mut registry = ModuleRegistry::new(&engine()).unwrap();
    for symbol in ["fd_write", "fd_read", "proc_exit", "args_get", "clock_time_get"].iter() {
        let current = registry.lookup("wasi_snapshot_preview1", symbol);
        assert!(current.is_some(), "{}", symbol);
        assert!(current.unwrap().into_func().is_some(), "{}", symbol);
        let earlier = registry.lookup("wasi_unstable", symbol);
        assert!(earlier.is_some(), "{}", symbol);
        assert!(earlier.unwrap().into_func().is_some(), "{}", symbol);
    }
}

#[test]
fn lookup_finds_the_same_function_again() {
    let mut registry = ModuleRegistry::new(&engine()).unwrap();
    assert!(registry.lookup("wasi_unstable", "fd_write").is_some());
    assert!(registry.lookup("wasi_unstable", "no_such_call").is_none());
    assert!(registry.lookup("wasi_unstable", "fd_write").is_some());
}

#[test]
fn lookup_finds_no_unknown_symbol() {
    let mut registry = ModuleRegistry::new(&engine()).unwrap();
    assert!(registry.lookup("wasi_snapshot_preview1", "no_such_call").is_none());
    assert!(registry.lookup("wasi_unstable", "no_such_call").is_none());
    assert!(registry.lookup("wasi_unstable", "").is_none());
    assert!(registry.lookup("wasi_unstable", "wasi_unstable").is_none());
    assert!(registry.lookup("wasi_unstable", "Fd_write").is_none());
}

#[test]
fn lookup_finds_nothing_outside_the_system_interfaces() {
    let mut registry = ModuleRegistry::new(&engine()).unwrap();
    assert!(registry.lookup("calculator", "add").is_none());
    assert!(registry.lookup("env", "fd_write").is_none());
    assert!(registry.lookup("", "fd_write").is_none());
    assert!(registry.lookup("wasi_unstable ", "fd_write").is_none());
}
