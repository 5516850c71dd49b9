use martin_config::config::ConfigBuilder;

#[test]
fn defaults_fill_every_absent_setting() {
    let c = ConfigBuilder::new("postgres://x".to_string()).finalize_with(6);
    assert!(!c.watch);
    assert_eq!(c.pool_size, 20);
    assert_eq!(c.keep_alive, 75);
    assert_eq!(c.worker_processes, 6);
    assert_eq!(c.listen_addresses, "0.0.0.0:3000");
    assert_eq!(c.connection_string, "postgres://x");
    assert_eq!(c.table_sources, None);
    assert_eq!(c.function_sources, None);
}

#[test]
fn worker_default_is_the_host_unit_count() {
    let c = ConfigBuilder::new("postgres://x".to_string()).finalize();
    assert_eq!(c.worker_processes, num_cpus::get());
    assert!(c.worker_processes >= 1);
    assert_eq!(c.pool_size, 20);
}

#[test]
fn only_pool_size_overridden() {
    let mut b = ConfigBuilder::new("postgres://x".to_string());
    b.pool_size = Some(5);
    let c = b.finalize_with(3);
    assert_eq!(c.pool_size, 5);
    assert!(!c.watch);
    assert_eq!(c.keep_alive, 75);
    assert_eq!(c.worker_processes, 3);
    assert_eq!(c.listen_addresses, "0.0.0.0:3000");
}

#[test]
fn every_override_wins() {
    let mut b = ConfigBuilder::new("postgres://y".to_string());
    b.watch = Some(true);
    b.pool_size = Some(1);
    b.keep_alive = Some(0);
    b.worker_processes = Some(9);
    b.listen_addresses = Some("127.0.0.1:8080".to_string());
    b.table_sources = Some(serde_yaml::Value::Mapping(serde_yaml::Mapping::new()));
    let c = b.finalize();
    assert!(c.watch);
    assert_eq!(c.pool_size, 1);
    assert_eq!(c.keep_alive, 0);
    assert_eq!(c.worker_processes, 9);
    assert_eq!(c.listen_addresses, "127.0.0.1:8080");
    assert_eq!(c.connection_string, "postgres://y");
    assert_eq!(c.table_sources, Some(serde_yaml::Value::Mapping(serde_yaml::Mapping::new())));
    assert_eq!(c.function_sources, None);
}

#[test]
fn explicit_defaults_are_kept() {
    let mut b = ConfigBuilder::new(String::new());
    b.watch = Some(false);
    b.pool_size = Some(20);
    let c = b.finalize_with(2);
    assert!(!c.watch);
    assert_eq!(c.pool_size, 20);
    assert_eq!(c.connection_string, "");
}
