use caddysnake::host::Host;
use caddysnake::module::{AttrError, Module};

#[test]
fn load_succeeds() {
    let mut host = Host::new(311);
    let outcome = host.load(String::from("caddysnake"));
    assert!(outcome.is_ok());
    assert!(host.is_loaded());
}

#[test]
fn load_succeeds_for_many_versions() {
    let versions: Vec<u32> = vec![0, 1, 27, 38, 311, 312, u32::MAX];
    for v in versions {
        let mut host = Host::new(v);
        assert!(host.load(String::from("caddysnake")).is_ok());
        assert_eq!(host.version(), v);
    }
}

#[test]
fn loaded_module_has_no_user_defined_functions() {
    let mut host = Host::new(311);
    host.load(String::from("caddysnake")).unwrap();
    let module = host.module().unwrap();
    assert_eq!(module.attr_count(), 0);
    assert_eq!(module.name().as_str(), "caddysnake");
    assert!(!module.has_attr(&String::from("run")));
}

#[test]
fn undefined_attribute_lookup_is_not_found() {
    let mut host = Host::new(311);
    host.load(String::from("caddysnake")).unwrap();
    let module = host.module().unwrap();
    assert_eq!(module.lookup_attr(&String::from("run")), Err(AttrError::NotFound));
    assert_eq!(module.lookup_attr(&String::from("main")), Err(AttrError::NotFound));
    assert_eq!(module.lookup_attr(&String::from("")), Err(AttrError::NotFound));
}

#[test]
fn reload_cycles_are_idempotent() {
    let mut host = Host::new(311);

    let first = host.load(String::from("caddysnake"));
    assert!(first.is_ok());
    let first_name = host.module().unwrap().name().clone();
    let first_count = host.module().unwrap().attr_count();

    for _ in 0..3 {
        host.unload();
        assert!(!host.is_loaded());
        let again = host.load(String::from("caddysnake"));
        assert!(again.is_ok());
        assert_eq!(host.module().unwrap().name(), &first_name);
        assert_eq!(host.module().unwrap().attr_count(), first_count);
        assert_eq!(host.version(), 311);
    }
}

#[test]
fn fresh_host_is_not_loaded() {
    let host = Host::new(311);
    assert!(!host.is_loaded());
    assert!(host.module().is_none());
}

#[test]
fn unload_empties_the_slot() {
    let mut host = Host::new(311);
    host.load(String::from("caddysnake")).unwrap();
    host.unload();
    assert!(!host.is_loaded());
    assert!(host.module().is_none());
    assert_eq!(host.version(), 311);
}

#[test]
fn init_succeeds_and_changes_nothing() {
    let mut module = Module::new(String::from("caddysnake"));
    let outcome = module.init();
    assert!(outcome.is_ok());
    assert_eq!(module.name().as_str(), "caddysnake");
    assert_eq!(module.attr_count(), 0);
}

#[test]
fn init_succeeds_twice() {
    let mut module = Module::new(String::from("caddysnake"));
    assert!(module.init().is_ok());
    assert!(module.init().is_ok());
    assert_eq!(module.attr_count(), 0);
}
