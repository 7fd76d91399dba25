use wasm_shim::engine::{entry_module_name, env_entries, env_entry};

#[test]
fn module_name_defaults_to_main() {
    assert_eq!(entry_module_name(None), "main");
    assert_eq!(entry_module_name(Some("app".to_string())), "app");
}

#[test]
fn env_entries_are_key_equals_value() {
    assert_eq!(env_entry("PATH", "/bin"), "PATH=/bin");
    let vars = vec![("A".to_string(), "1".to_string()), ("B".to_string(), "".to_string())];
    assert_eq!(env_entries(&vars), vec!["A=1".to_string(), "B=".to_string()]);
}
