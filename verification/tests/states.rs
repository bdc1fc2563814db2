use gamecore::states::{poll_loading, GameState};

#[test]
fn loading_becomes_playing_when_assets_are_ready() {
    assert_eq!(poll_loading(GameState::Loading, true), GameState::Playing);
}

#[test]
fn loading_stays_loading_until_assets_are_ready() {
    assert_eq!(poll_loading(GameState::Loading, false), GameState::Loading);
}

#[test]
fn other_states_ignore_the_readiness_signal() {
    assert_eq!(poll_loading(GameState::Playing, true), GameState::Playing);
    assert_eq!(poll_loading(GameState::Playing, false), GameState::Playing);
    assert_eq!(poll_loading(GameState::GameOver, true), GameState::GameOver);
    assert_eq!(poll_loading(GameState::GameOver, false), GameState::GameOver);
}
