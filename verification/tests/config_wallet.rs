use task_crud::config::{Config, ConfigError};
use task_crud::wallet::Wallet;

#[test]
fn test_config_reads_all_four_values() {
    let text = "app:\n  port: 8080\n  workers: 4\nredis:\n  host: 127.0.0.1\n  port: 6379\n";
    let config = Config::new(text).unwrap();
    assert_eq!(config.get_app_port(), 8080);
    assert_eq!(config.get_app_workers(), 4);
    assert_eq!(config.get_redis_host(), "127.0.0.1");
    assert_eq!(config.get_redis_port(), 6379);
}

#[test]
fn test_config_rejects_missing_entry() {
    let text = "app:\n  port: 8080\nredis:\n  host: 127.0.0.1\n  port: 6379\n";
    assert_eq!(Config::new(text), Err(ConfigError::Malformed));
}

#[test]
fn test_config_rejects_ill_typed_entry() {
    let text = "app:\n  port: not_a_number\n  workers: 4\nredis:\n  host: 127.0.0.1\n  port: 6379\n";
    assert_eq!(Config::new(text), Err(ConfigError::Malformed));
}

#[test]
fn test_config_rejects_non_yaml() {
    assert_eq!(Config::new(": : :"), Err(ConfigError::Malformed));
}

#[test]
fn test_wallet_getters() {
    let wallet = Wallet::new("carol".to_owned(), 250, "EUR".to_owned());
    assert_eq!(wallet.get_owner(), "carol".to_owned());
    assert_eq!(wallet.get_balance(), 250);
    assert_eq!(wallet.get_currency(), "EUR".to_owned());
}
