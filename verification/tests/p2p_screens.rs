use junowen::cloudwatch::{collect_row, collect_rows, log_group_name, poll_query, QueryPoll};
use junowen::lobby::Lobby;
use junowen::menu::LobbyScene;
use junowen::menu_controller::{InputValue, CHARGE, DOWN, SHOT};
use junowen::p2p::{
    CopyState, GuestCommand, HostCommand, PureP2pGuest, PureP2pHost, SignalingState, SOUND_ACCEPTED, SOUND_INVALID,
};

const NONE: InputValue = InputValue(0);

fn keys() -> [u8; 256] {
    [0u8; 256]
}

fn signaling(connected: bool, answer_ready: bool, error: bool) -> SignalingState {
    SignalingState { connected, answer_ready, error }
}

#[test]
fn guest_pastes_the_host_code_then_offers_to_copy_the_answer() {
    let mut g = PureP2pGuest::new();
    let p = g.begin_frame(signaling(false, false, false));
    assert!(!p.reset && !p.copy_answer);
    let (step, command) = g.on_input_menu(InputValue(SHOT), NONE, &keys(), &keys());
    assert_eq!(command, GuestCommand::ReadOffer);
    assert!(step.scene.is_none());
    assert_eq!(g.offer_pasted(None), SOUND_INVALID);
    assert!(g.offer().is_none());
    assert_eq!(g.offer_pasted(Some("code".to_string())), SOUND_ACCEPTED);
    assert_eq!(g.offer().unwrap(), "code");
    assert_eq!(g.menu().menu().items().len(), 0);
    // the empty menu ignores a decision
    let (_, command) = g.on_input_menu(InputValue(SHOT), NONE, &keys(), &keys());
    assert_eq!(command, GuestCommand::Nothing);
    assert!(!g.menu().moves_down_while_empty(InputValue(SHOT), NONE));
    assert!(g.menu().moves_down_while_empty(InputValue(DOWN), NONE));
    let p = g.begin_frame(signaling(false, true, false));
    assert!(p.copy_answer);
    let (_, command) = g.on_input_menu(InputValue(SHOT), NONE, &keys(), &keys());
    assert_eq!(command, GuestCommand::CopyAnswerAgain);
    let p = g.begin_frame(signaling(false, true, false));
    assert!(!p.copy_answer);
    let p = g.begin_frame(signaling(true, false, false));
    assert!(p.reset);
    assert!(g.offer().is_none());
}

#[test]
fn guest_error_empties_the_menu_and_cancel_goes_back() {
    let mut g = PureP2pGuest::new();
    g.begin_frame(signaling(false, false, true));
    assert_eq!(g.menu().menu().items().len(), 0);
    g.on_input_menu(InputValue(CHARGE), NONE, &keys(), &keys());
    let mut back = None;
    for _ in 0..21 {
        let (step, command) = g.on_input_menu(NONE, NONE, &keys(), &keys());
        if step.scene.is_some() {
            back = step.scene;
            assert_eq!(command, GuestCommand::Reset);
        }
    }
    assert!(matches!(back, Some(LobbyScene::Root)));
    assert_eq!(g.menu().menu().items().len(), 1);
}

#[test]
fn host_copies_its_code_once_generated() {
    let mut h = PureP2pHost::new();
    assert_eq!(h.menu().menu().cursor(), 2);
    let p = h.begin_frame(false, false);
    assert!(!p.copy_offer);
    let p = h.begin_frame(false, true);
    assert!(p.copy_offer);
    assert_eq!(h.copy_state(), CopyState::Copied);
    let p = h.begin_frame(false, true);
    assert!(!p.copy_offer);
    let (_, command) = h.on_input_menu(false, InputValue(SHOT), NONE, &keys(), &keys());
    assert_eq!(command, HostCommand::ReadAnswer);
    h.answer_pasted("answer".to_string());
    assert_eq!(h.answer().unwrap(), "answer");
    assert_eq!(h.menu().menu().items().len(), 0);
    h.on_input_menu(false, InputValue(CHARGE), NONE, &keys(), &keys());
    let mut reset = false;
    for _ in 0..21 {
        let (step, command) = h.on_input_menu(false, NONE, NONE, &keys(), &keys());
        if step.scene.is_some() {
            reset = command == HostCommand::Reset;
        }
    }
    assert!(reset);
    assert!(h.answer().is_none());
}

#[test]
fn host_leaving_without_an_answer_keeps_the_code() {
    let mut h = PureP2pHost::new();
    h.on_input_menu(false, InputValue(CHARGE), NONE, &keys(), &keys());
    let mut left = false;
    for _ in 0..21 {
        let (step, command) = h.on_input_menu(false, NONE, NONE, &keys(), &keys());
        if step.scene.is_some() {
            left = true;
            assert_eq!(command, HostCommand::Nothing);
        }
    }
    assert!(left);
    assert_eq!(h.copy_state(), CopyState::AlreadyCopied);
}

#[test]
fn lobby_remembers_the_screen_and_the_buttons() {
    let mut lobby = Lobby::new();
    let (scene, prev) = lobby.begin_frame();
    assert!(matches!(scene, LobbyScene::Root));
    assert_eq!(prev, InputValue(u32::MAX));
    lobby.end_frame(None, InputValue(SHOT));
    let (_, prev) = lobby.begin_frame();
    assert_eq!(prev, InputValue(SHOT));
    lobby.end_frame(Some(LobbyScene::PureP2pGuest), InputValue(SHOT));
    let (scene, prev) = lobby.begin_frame();
    assert!(matches!(scene, LobbyScene::PureP2pGuest));
    assert!(matches!(lobby.prev_scene(), LobbyScene::PureP2pGuest));
    assert_eq!(prev, InputValue(u32::MAX));
    lobby.reset_depth();
    let (scene, _) = lobby.begin_frame();
    assert!(matches!(scene, LobbyScene::Root));
}

#[test]
fn query_polls_until_complete() {
    assert_eq!(log_group_name("fn"), "/aws/lambda/fn");
    let (s, p) = poll_query(Some("Complete".to_string()), false);
    assert_eq!(s, "Complete");
    assert!(matches!(p, QueryPoll::Complete));
    assert!(matches!(poll_query(Some("Failed".to_string()), false).1, QueryPoll::Ended));
    assert!(matches!(poll_query(Some("Timeout".to_string()), false).1, QueryPoll::Ended));
    assert!(matches!(poll_query(Some("Running".to_string()), false).1, QueryPoll::Wait));
    assert!(matches!(poll_query(Some("Running".to_string()), true).1, QueryPoll::TimedOut));
    let (s, p) = poll_query(None, false);
    assert_eq!(s, "Unknown");
    assert!(matches!(p, QueryPoll::Wait));
}

#[test]
fn result_fields_become_rows() {
    let row = collect_row(vec![
        (Some("a".to_string()), Some("1".to_string())),
        (None, Some("x".to_string())),
        (Some("b".to_string()), None),
        (Some("a".to_string()), Some("2".to_string())),
    ]);
    assert_eq!(row.get("a"), Some("2".to_string()));
    assert_eq!(row.get("b"), Some(String::new()));
    assert_eq!(row.get("x"), None);
    assert!(collect_rows(None).is_empty());
    assert_eq!(collect_rows(Some(vec![vec![], vec![]])).len(), 2);
}
