use lobby_companion::connection::{ConnectionState, GatewayEndpointInfo, LifecycleEvent};
use lobby_companion::dodge::{dodge, enable_dodge, finish_enable_dodge, DodgeWatch};
use lobby_companion::error::CommandError;
use lobby_companion::gateway::{GatewayCall, GatewayReply};
use lobby_companion::session::ChampSelectSession;

fn connected() -> ConnectionState {
    let mut lcu = ConnectionState::new();
    lcu.on_lifecycle_event(LifecycleEvent::Connected(GatewayEndpointInfo {
        port: "50000".to_string(),
        auth_token: "app-secret".to_string(),
    }));
    lcu
}

fn session(game_id: u64) -> GatewayReply<ChampSelectSession> {
    GatewayReply::Parsed(ChampSelectSession { game_id })
}

#[test]
fn watch_starts_disarmed() {
    assert_eq!(DodgeWatch::new(), DodgeWatch { armed_game_id: None });
}

#[test]
fn toggle_of_a_disarmed_watch_asks_for_the_session() {
    let lcu = connected();
    let mut watch = DodgeWatch::new();
    let step = enable_dodge(&lcu, &mut watch);
    assert_eq!(step, Ok(Some(GatewayCall::ChampSelectSession)));
    assert_eq!(watch, DodgeWatch { armed_game_id: None });
}

#[test]
fn toggle_arms_for_the_game_of_the_session() {
    let lcu = connected();
    let mut watch = DodgeWatch::new();
    assert_eq!(enable_dodge(&lcu, &mut watch), Ok(Some(GatewayCall::ChampSelectSession)));
    assert_eq!(finish_enable_dodge(&mut watch, session(6_123_456_789)), Ok(()));
    assert_eq!(watch, DodgeWatch { armed_game_id: Some(6_123_456_789) });
}

#[test]
fn toggle_of_an_armed_watch_disarms_without_a_request() {
    let lcu = connected();
    let mut watch = DodgeWatch { armed_game_id: Some(42) };
    assert_eq!(enable_dodge(&lcu, &mut watch), Ok(None));
    assert_eq!(watch, DodgeWatch { armed_game_id: None });
}

#[test]
fn toggling_twice_returns_to_disarmed_and_never_leaves() {
    let lcu = connected();
    let mut watch = DodgeWatch::new();
    let mut calls = Vec::new();

    if let Some(call) = enable_dodge(&lcu, &mut watch).unwrap() {
        calls.push(call);
        finish_enable_dodge(&mut watch, session(7)).unwrap();
    }
    assert_eq!(watch, DodgeWatch { armed_game_id: Some(7) });

    if let Some(call) = enable_dodge(&lcu, &mut watch).unwrap() {
        calls.push(call);
        finish_enable_dodge(&mut watch, session(8)).unwrap();
    }
    assert_eq!(watch, DodgeWatch { armed_game_id: None });
    assert_eq!(calls, vec![GatewayCall::ChampSelectSession]);
    assert!(!calls.contains(&GatewayCall::QuitChampSelect));
}

#[test]
fn toggle_without_connection_fails_and_changes_nothing() {
    let lcu = ConnectionState::new();
    let mut disarmed = DodgeWatch::new();
    assert_eq!(enable_dodge(&lcu, &mut disarmed), Err(CommandError::GatewayUnavailable));
    assert_eq!(disarmed, DodgeWatch { armed_game_id: None });

    let mut armed = DodgeWatch { armed_game_id: Some(9) };
    assert_eq!(enable_dodge(&lcu, &mut armed), Err(CommandError::GatewayUnavailable));
    assert_eq!(armed, DodgeWatch { armed_game_id: Some(9) });
}

#[test]
fn failed_session_request_leaves_the_watch_disarmed() {
    let lcu = connected();
    let mut watch = DodgeWatch::new();
    assert_eq!(enable_dodge(&lcu, &mut watch), Ok(Some(GatewayCall::ChampSelectSession)));
    assert_eq!(
        finish_enable_dodge(&mut watch, GatewayReply::Unreachable),
        Err(CommandError::TransportError)
    );
    assert_eq!(watch, DodgeWatch { armed_game_id: None });
}

#[test]
fn malformed_session_leaves_the_watch_disarmed() {
    let lcu = connected();
    let mut watch = DodgeWatch::new();
    assert_eq!(enable_dodge(&lcu, &mut watch), Ok(Some(GatewayCall::ChampSelectSession)));
    assert_eq!(
        finish_enable_dodge(&mut watch, GatewayReply::Malformed),
        Err(CommandError::ParseError)
    );
    assert_eq!(watch, DodgeWatch { armed_game_id: None });
}

#[test]
fn failed_toggle_then_good_toggle_ends_armed() {
    let lcu = connected();
    let mut watch = DodgeWatch::new();
    enable_dodge(&lcu, &mut watch).unwrap();
    assert!(finish_enable_dodge(&mut watch, GatewayReply::Unreachable).is_err());
    enable_dodge(&lcu, &mut watch).unwrap();
    assert_eq!(finish_enable_dodge(&mut watch, session(11)), Ok(()));
    assert_eq!(watch, DodgeWatch { armed_game_id: Some(11) });
}

#[test]
fn finishing_on_a_watch_armed_meanwhile_disarms_it() {
    let mut watch = DodgeWatch { armed_game_id: Some(5) };
    assert_eq!(finish_enable_dodge(&mut watch, session(6)), Ok(()));
    assert_eq!(watch, DodgeWatch { armed_game_id: None });
}

#[test]
fn failed_session_request_leaves_an_armed_watch_armed() {
    let mut watch = DodgeWatch { armed_game_id: Some(5) };
    assert_eq!(
        finish_enable_dodge(&mut watch, GatewayReply::Unreachable),
        Err(CommandError::TransportError)
    );
    assert_eq!(watch, DodgeWatch { armed_game_id: Some(5) });
}

#[test]
fn two_interleaved_toggles_end_disarmed() {
    let lcu = connected();
    let mut watch = DodgeWatch::new();
    assert_eq!(enable_dodge(&lcu, &mut watch), Ok(Some(GatewayCall::ChampSelectSession)));
    assert_eq!(enable_dodge(&lcu, &mut watch), Ok(Some(GatewayCall::ChampSelectSession)));
    assert_eq!(finish_enable_dodge(&mut watch, session(3)), Ok(()));
    assert_eq!(watch, DodgeWatch { armed_game_id: Some(3) });
    assert_eq!(finish_enable_dodge(&mut watch, session(3)), Ok(()));
    assert_eq!(watch, DodgeWatch { armed_game_id: None });
}

#[test]
fn watch_is_armed_for_its_game_only() {
    let watch = DodgeWatch { armed_game_id: Some(77) };
    assert!(watch.is_armed_for(77));
    assert!(!watch.is_armed_for(78));
    assert!(!watch.is_armed_for(0));
    assert!(!DodgeWatch::new().is_armed_for(77));
    assert!(!DodgeWatch::new().is_armed_for(0));
    assert!(DodgeWatch { armed_game_id: Some(u64::MAX) }.is_armed_for(u64::MAX));
}

#[test]
fn manual_leave_is_the_quit_request_whatever_the_watch() {
    let lcu = connected();
    assert_eq!(dodge(&lcu), Ok(GatewayCall::QuitChampSelect));
    assert_eq!(dodge(&lcu), Ok(GatewayCall::QuitChampSelect));
}

#[test]
fn manual_leave_without_connection_is_unavailable() {
    let lcu = ConnectionState::new();
    assert_eq!(dodge(&lcu), Err(CommandError::GatewayUnavailable));
}
