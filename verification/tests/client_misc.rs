use junowen::cui::{
    check_version_message, pipe_next, pipe_start, IpcMessageToCui, PipeAction, PipeEvent, PipeMessage, PipeOp, PipeState,
    VersionCheckError,
};
use junowen::helper::{inputed_number, menu_item_color, pushed_f1};
use junowen::lang::{language_candidates_of, primary_language_of, to_lang_source, LangSource};
use junowen::menu_controller::{InputValue, DOWN, UP};
use junowen::settings::{to_ini_file_path_log_dir_path_log_file_name, Features, SettingsRepo};
use junowen::title_menu::{direction, TitleMenuFrame, TitleMenuModifier};
use junowen::waiting_for_match::{after_signaling_attempt, SignalingAttempt, WaitingInRoom};
use junowen::waiting_for_spectator::{spectator_ready, GameScreen, SpectatorPhase, SpectatorStep, WaitingForPureP2pSpectator};

#[test]
fn item_colors() {
    assert_eq!(menu_item_color(9, false, false), 0x40ffffff);
    assert_eq!(menu_item_color(7, false, true), 0xff808080);
    assert_eq!(menu_item_color(9, true, true), 0xff000000);
    assert_eq!(menu_item_color(7, true, true), 0xffffff80);
    assert_eq!(menu_item_color(9, true, false), 0xff404040);
    assert_eq!(menu_item_color(7, true, false), 0xff808060);
}

#[test]
fn only_japanese_ships() {
    assert_eq!(to_lang_source("ja"), Some(LangSource::Ja));
    assert_eq!(to_lang_source("ja-JP"), None);
    assert_eq!(to_lang_source("en"), None);
}

#[test]
fn language_tags_are_tried_then_their_primary_language() {
    assert_eq!(primary_language_of("ja-JP"), "ja");
    assert_eq!(primary_language_of("en"), "en");
    assert_eq!(primary_language_of("-x"), "");
    let tags = vec!["ja-JP".to_string(), "en".to_string()];
    assert_eq!(language_candidates_of(&tags), vec!["ja-JP", "ja", "en", "en"]);
}

#[test]
fn direction_counts_a_press_or_a_repeat() {
    assert!(direction(InputValue(UP), InputValue(0), UP, 0));
    assert!(!direction(InputValue(UP), InputValue(UP), UP, 3));
    assert!(direction(InputValue(UP), InputValue(UP), UP, 25));
    assert!(!direction(InputValue(0), InputValue(0), UP, 25));
}

fn title_frame(cursor: u32, decide: bool, up: bool, down: bool) -> TitleMenuFrame {
    TitleMenuFrame { num_disabled: 0, cursor, decide, up, down }
}

#[test]
fn title_menu_selects_junowen_below_the_online_item() {
    let mut m = TitleMenuModifier::new();
    let c = m.on_input_menu(title_frame(2, false, false, true));
    assert_eq!(c.set_cursor, Some(1));
    assert!(m.selected_junowen());
    let c = m.on_input_menu(title_frame(2, true, false, false));
    assert!(c.press_shot);
    assert_eq!(c.set_cursor, Some(1));
    assert!(m.start_lobby(true));
    // back on the title menu, the cursor returns to the item
    let c = m.on_input_menu(title_frame(0, false, false, false));
    assert_eq!(c.set_cursor, Some(2));
    let c = m.on_input_menu(title_frame(2, false, true, false));
    assert_eq!(c.set_cursor, Some(3));
    assert!(!m.selected_junowen());
    let c = m.on_input_menu(TitleMenuFrame { num_disabled: 1, cursor: 3, decide: false, up: true, down: false });
    assert_eq!(c.set_cursor, None);
    assert!(!m.selected_junowen());
    m.on_input_menu(title_frame(3, false, true, false));
    assert!(m.selected_junowen());
    m.on_input_menu(title_frame(7, false, false, false));
    assert!(!m.selected_junowen());
    assert!(!m.start_lobby(true));
}

#[test]
fn spectator_host_starts_on_a_push_and_polls_the_answer() {
    let mut w = WaitingForPureP2pSpectator::standby();
    assert_eq!(w.update_inner(false, Some(GameScreen::DifficultySelect), 0, 0), SpectatorStep::Nothing);
    assert!(w.ready());
    assert_eq!(w.update_inner(true, Some(GameScreen::DifficultySelect), 0, 0), SpectatorStep::TryStartSignaling);
    assert_eq!(w.signaling_started(), 0x07);
    assert!(!w.ready());
    assert_eq!(w.phase(), SpectatorPhase::SignalingCodeRecved);
    assert_eq!(w.update_inner(true, None, 0, 0), SpectatorStep::PollAnswer);
    assert_eq!(w.answer_sent(), 0x57);
    assert_eq!(w.update_inner(true, None, 0, 0), SpectatorStep::Nothing);
    assert_eq!(w.signaling_not_started(), (SpectatorStep::Nothing, 0x10));
    w.failed(true);
    assert_eq!(w.phase(), SpectatorPhase::Standby);
}

#[test]
fn module_version_must_match() {
    let v = IpcMessageToCui::Version("1.0.0".to_string());
    assert!(check_version_message(&v, "1.0.0").is_ok());
    assert_eq!(check_version_message(&v, "1.0.1"), Err(VersionCheckError::VersionMismatch));
    assert_eq!(check_version_message(&IpcMessageToCui::Connected, "1.0.0"), Err(VersionCheckError::UnexpectedMessage));
}

#[test]
fn settings_read_defaults_and_write_back() {
    let repo = SettingsRepo::new("settings.toml".to_string());
    assert_eq!(repo.path(), "settings.toml");
    let r = repo.lan_address("");
    assert_eq!(r.value, "127.0.0.1:19000");
    let text = r.write.unwrap();
    let again = repo.lan_address(&text);
    assert_eq!(again.value, "127.0.0.1:19000");
    assert!(again.write.is_none());
    let r = repo.lan_offline("lan_offline = false\n");
    assert!(!r.value);
    assert!(r.write.is_none());
    let r = repo.lan_offline("not toml [");
    assert!(r.value);
    assert!(r.write.is_some());
    let w = repo.set_shared_room_name("lan_offline = true\n", "room".to_string());
    assert_eq!(repo.shared_room_name(&w.text, "game".to_string()).value, "room");
    let r = repo.reserved_room_name("", "game".to_string());
    assert_eq!(r.value, "game");
    assert!(r.write.is_some());
    assert_eq!(repo.read_string("a = \"b\"", "a"), Some("b".to_string()));
    assert_eq!(repo.read_bool("a = \"b\"", "a"), None);
}

#[test]
fn features_are_read_by_name() {
    let repo = SettingsRepo::new("s".to_string());
    assert_eq!(repo.features("features = [\"show-settings\", \"other\", 3]"), vec![Features::ShowSettings]);
    assert_eq!(repo.features("features = \"show-settings\""), vec![]);
    assert_eq!(repo.features(""), vec![]);
}

#[test]
fn digit_keys_read_as_numbers() {
    let mut keys = [0u8; 256];
    assert_eq!(inputed_number(&keys), None);
    keys[b'7' as usize] = 0x80;
    assert_eq!(inputed_number(&keys), Some(7));
    keys[b'3' as usize] = 0x81;
    assert_eq!(inputed_number(&keys), Some(3));
    keys[b'0' as usize] = 0x01;
    assert_eq!(inputed_number(&keys), Some(3));
}

#[test]
fn f1_is_read_from_its_high_bit() {
    let mut keys = [0u8; 256];
    assert!(!pushed_f1(&keys));
    keys[0x70] = 0x7f;
    assert!(!pushed_f1(&keys));
    keys[0x70] = 0x80;
    assert!(pushed_f1(&keys));
}

#[test]
fn settings_and_log_paths_sit_in_the_module_directory() {
    let (ini, dir, log) = to_ini_file_path_log_dir_path_log_file_name("C:/Users/u/AppData/Roaming", "th19_junowen");
    assert_eq!(dir, "C:/Users/u/AppData/Roaming/ShanghaiAlice/th19/modules");
    assert_eq!(ini, "C:/Users/u/AppData/Roaming/ShanghaiAlice/th19/modules/th19_junowen.ini");
    assert_eq!(log, "th19_junowen.log");
}

#[test]
fn signaling_retries_until_connected_or_aborted() {
    assert_eq!(after_signaling_attempt(true, false), SignalingAttempt::Connected);
    assert_eq!(after_signaling_attempt(true, true), SignalingAttempt::Connected);
    assert_eq!(after_signaling_attempt(false, true), SignalingAttempt::Canceled);
    assert_eq!(after_signaling_attempt(false, false), SignalingAttempt::RetryAfter(3));
}

#[test]
fn waiting_in_a_room_collects_errors_until_the_session_comes() {
    let mut w = WaitingInRoom::new("room".to_string());
    assert_eq!(w.room_name(), "room");
    w.recv(None);
    w.recv(Some("timeout".to_string()));
    w.recv(Some("refused".to_string()));
    assert_eq!(w.errors(), &vec!["timeout".to_string(), "refused".to_string()]);
    let w = match w.try_into_session::<u32>(None) {
        Err(w) => w,
        Ok(_) => panic!("no session was handed over"),
    };
    assert_eq!(w.errors().len(), 2);
    assert!(matches!(w.try_into_session(Some(7u32)), Ok(7)));
}

#[test]
fn spectators_may_join_at_difficulty_select_before_cards() {
    assert!(spectator_ready(Some(GameScreen::DifficultySelect), 0, 0));
    assert!(!spectator_ready(Some(GameScreen::DifficultySelect), 1, 0));
    assert!(!spectator_ready(Some(GameScreen::DifficultySelect), 0, 2));
    assert!(!spectator_ready(Some(GameScreen::Other), 0, 0));
    assert!(!spectator_ready(None, 0, 0));
}

#[test]
fn connecting_waits_for_the_game_then_checks_the_version() {
    let (s, a) = pipe_start();
    assert_eq!(a, PipeAction { message: None, op: PipeOp::OpenPipe });
    let (s, a) = pipe_next(s, PipeEvent::OpenFailed);
    assert_eq!(a.op, PipeOp::InjectDll);
    let (s, a) = pipe_next(s, PipeEvent::ProcessNotFound);
    assert_eq!(a, PipeAction { message: Some(PipeMessage::WaitingForProcess), op: PipeOp::Pause });
    let (s, a) = pipe_next(s, PipeEvent::Waited);
    assert_eq!(a.op, PipeOp::InjectDll);
    let (s, a) = pipe_next(s, PipeEvent::ProcessNotFound);
    assert_eq!(a, PipeAction { message: None, op: PipeOp::Pause });
    let (s, _) = pipe_next(s, PipeEvent::Waited);
    let (s, a) = pipe_next(s, PipeEvent::Injected);
    assert_eq!(a.op, PipeOp::OpenPipe);
    let (s, a) = pipe_next(s, PipeEvent::OpenFailed);
    assert_eq!(a.op, PipeOp::Pause);
    let (s, a) = pipe_next(s, PipeEvent::Waited);
    assert_eq!(a.op, PipeOp::OpenPipe);
    let (s, a) = pipe_next(s, PipeEvent::Opened);
    assert_eq!(a, PipeAction { message: Some(PipeMessage::Loaded), op: PipeOp::CheckVersion });
    let (s, a) = pipe_next(s, PipeEvent::Version(Ok(())));
    assert_eq!(a.op, PipeOp::Finish(true));
    assert_eq!(s, PipeState::Finished);
}

#[test]
fn connecting_gives_up_without_the_module_or_on_a_version_mismatch() {
    let (s, a) = pipe_next(PipeState::Start, PipeEvent::Opened);
    assert_eq!(a.message, Some(PipeMessage::AlreadyLoaded));
    let (_, a) = pipe_next(s, PipeEvent::Version(Err(VersionCheckError::VersionMismatch)));
    assert_eq!(a, PipeAction { message: Some(PipeMessage::CommunicationFailed), op: PipeOp::Finish(false) });
    let (_, a) = pipe_next(PipeState::Injecting { announced: true }, PipeEvent::DllNotFound);
    assert_eq!(a, PipeAction { message: Some(PipeMessage::DllNotFound), op: PipeOp::Finish(false) });
}
