use martin_config::config::ConfigBuilder;
use martin_config::error::ConfigError;
use martin_config::loader::{builder_from_yaml, config_from_yaml};

fn wrong_type(contents: &str) -> String {
    match builder_from_yaml(contents) {
        Err(ConfigError::WrongType(k)) => k,
        other => panic!("expected a wrong-type error, got {:?}", other),
    }
}

#[test]
fn file_with_only_connection_string() {
    let loaded = config_from_yaml("connection_string: \"postgres://x\"\n").unwrap();
    let direct = ConfigBuilder::new("postgres://x".to_string()).finalize();
    assert_eq!(loaded, direct);
    assert_eq!(loaded.connection_string, "postgres://x");
    assert_eq!(loaded.pool_size, 20);
    assert_eq!(loaded.table_sources, None);
}

#[test]
fn builder_from_file_with_only_connection_string() {
    let b = builder_from_yaml("connection_string: \"postgres://x\"").unwrap();
    assert_eq!(b, ConfigBuilder::new("postgres://x".to_string()));
}

#[test]
fn missing_connection_string_is_a_parse_error() {
    let e = config_from_yaml("pool_size: 5\nwatch: true\n").unwrap_err();
    assert!(e.is_parse());
    assert_eq!(e, ConfigError::MissingField("connection_string".to_string()));
    assert_eq!(e.message(), "connection_string");
}

#[test]
fn empty_file_lacks_connection_string() {
    let e = config_from_yaml("").unwrap_err();
    assert!(e.is_parse());
    assert_eq!(e, ConfigError::MissingField("connection_string".to_string()));
}

#[test]
fn malformed_yaml_is_a_syntax_error() {
    let e = config_from_yaml("connection_string: [unclosed\n").unwrap_err();
    assert!(e.is_parse());
    match e {
        ConfigError::Syntax(m) => assert!(!m.is_empty()),
        other => panic!("expected a syntax error, got {:?}", other),
    }
}

#[test]
fn all_keys_are_read() {
    let text = "connection_string: postgres://u@h/db\n\
                watch: true\n\
                pool_size: 7\n\
                keep_alive: 10\n\
                worker_processes: 3\n\
                listen_addresses: \"localhost:4000\"\n\
                table_sources:\n  public.points: {}\n\
                function_sources: {}\n\
                unknown_key: 1\n";
    let c = config_from_yaml(text).unwrap();
    assert!(c.watch);
    assert_eq!(c.pool_size, 7);
    assert_eq!(c.keep_alive, 10);
    assert_eq!(c.worker_processes, 3);
    assert_eq!(c.listen_addresses, "localhost:4000");
    assert_eq!(c.connection_string, "postgres://u@h/db");
    let tables = c.table_sources.unwrap();
    assert!(tables.get("public.points").is_some());
    assert_eq!(c.function_sources, Some(serde_yaml::Value::Mapping(serde_yaml::Mapping::new())));
}

#[test]
fn null_values_count_as_absent() {
    let c = config_from_yaml("connection_string: x\nwatch: ~\npool_size: null\ntable_sources: ~\n")
        .unwrap();
    assert!(!c.watch);
    assert_eq!(c.pool_size, 20);
    assert_eq!(c.table_sources, None);
}

#[test]
fn wrong_types_are_refused() {
    assert_eq!(wrong_type("connection_string: 5"), "connection_string");
    assert_eq!(wrong_type("connection_string: ~"), "connection_string");
    assert_eq!(wrong_type("connection_string: x\nwatch: 3"), "watch");
    assert_eq!(wrong_type("connection_string: x\npool_size: abc"), "pool_size");
    assert_eq!(wrong_type("connection_string: x\npool_size: 4294967296"), "pool_size");
    assert_eq!(wrong_type("connection_string: x\npool_size: -1"), "pool_size");
    assert_eq!(wrong_type("connection_string: x\nkeep_alive: 1.5"), "keep_alive");
    assert_eq!(wrong_type("connection_string: x\nworker_processes: true"), "worker_processes");
    assert_eq!(wrong_type("connection_string: x\nlisten_addresses: [a]"), "listen_addresses");
    assert_eq!(wrong_type("connection_string: x\ntable_sources: [a]"), "table_sources");
    assert_eq!(wrong_type("connection_string: x\nfunction_sources: 1"), "function_sources");
}

#[test]
fn first_offending_key_is_reported() {
    assert_eq!(wrong_type("watch: 1\npool_size: x\nconnection_string: x"), "watch");
    let e = builder_from_yaml("watch: 1").unwrap_err();
    assert_eq!(e, ConfigError::MissingField("connection_string".to_string()));
}

#[test]
fn largest_pool_size_is_accepted() {
    let c = config_from_yaml("connection_string: x\npool_size: 4294967295").unwrap();
    assert_eq!(c.pool_size, u32::MAX);
}
