use lobby_companion::config::{app_ready, finish_set_config, get_config, set_config, Config};
use lobby_companion::connection::{ConnectionState, GatewayEndpointInfo, LifecycleEvent};
use lobby_companion::error::CommandError;

fn config(provider: &str) -> Config {
    Config { multi_provider: provider.to_string() }
}

#[test]
fn get_config_returns_the_current_value() {
    let cfg = config("opgg");
    assert_eq!(get_config(&cfg), config("opgg"));
    assert_eq!(cfg, config("opgg"));
}

#[test]
fn set_config_replaces_the_value_and_returns_it_for_persisting() {
    let mut cfg = config("opgg");
    let to_persist = set_config(&mut cfg, config("ugg"));
    assert_eq!(cfg, config("ugg"));
    assert_eq!(to_persist, config("ugg"));
    assert_eq!(get_config(&cfg), config("ugg"));
}

#[test]
fn last_write_wins() {
    let mut cfg = config("opgg");
    set_config(&mut cfg, config("ugg"));
    set_config(&mut cfg, config("deeplol"));
    set_config(&mut cfg, config(""));
    assert_eq!(get_config(&cfg), config(""));
}

#[test]
fn failed_write_is_a_persistence_error() {
    assert_eq!(finish_set_config(false), Err(CommandError::PersistenceError));
}

#[test]
fn successful_write_is_ok() {
    assert_eq!(finish_set_config(true), Ok(()));
}

#[test]
fn clone_of_a_config_is_equal() {
    let cfg = config("opgg");
    assert_eq!(cfg.clone(), cfg);
}

#[test]
fn app_ready_reports_status_and_config() {
    let mut lcu = ConnectionState::new();
    let cfg = config("opgg");
    assert_eq!(app_ready(&lcu, &cfg), (false, config("opgg")));
    lcu.on_lifecycle_event(LifecycleEvent::Connected(GatewayEndpointInfo {
        port: "1".to_string(),
        auth_token: "t".to_string(),
    }));
    assert_eq!(app_ready(&lcu, &cfg), (true, config("opgg")));
}
