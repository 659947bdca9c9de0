use junowen::common_menu::{CommonMenu, OnMenuInputResult};
use junowen::components::{MenuChild, MenuDefine, MenuItem as DefineItem};
use junowen::lobby::Root;
use junowen::menu::{LobbyScene, Menu, MenuItem, SOUND_CANCEL, SOUND_DECIDE, SOUND_SELECT};
use junowen::menu_controller::{
    InputValue, MenuController, MenuControllerInputResult, MenuControllerUpdateDecideResult, DOWN, SHOT, CHARGE, UP,
};
use junowen::room::{RoomCommand, RoomWaiting, ReservedRoom, SharedRoom};
use junowen::text_input::{TextInput, TextInputState};

const NONE: InputValue = InputValue(0);

fn no_keys() -> [u8; 256] {
    [0u8; 256]
}

fn ascii_table() -> [u8; 256] {
    let mut t = [0u8; 256];
    for c in b'A'..=b'Z' {
        t[c as usize] = c.to_ascii_lowercase();
    }
    t[0x0d] = 0x0d;
    t[0x1b] = 0x1b;
    t[0x08] = 0x08;
    t
}

fn frame(menu: &mut CommonMenu, current: InputValue, prev: InputValue) -> (OnMenuInputResult, Option<u32>) {
    menu.on_input_menu(current, prev, &no_keys(), &ascii_table())
}

fn two_item_menu() -> CommonMenu {
    let sub = Menu::new("Sub", None, vec![MenuItem::plain("Inner", 5, true)], 0);
    let items = vec![MenuItem::plain("First", 1, true), MenuItem::sub_menu("More", None, sub)];
    CommonMenu::new(false, 100, Menu::new("Root", Some(9), items, 0))
}

#[test]
fn controller_moves_and_repeats() {
    let mut c = MenuController::new();
    assert!(matches!(c.input(InputValue(DOWN), NONE, true, true), MenuControllerInputResult::Down));
    // held: no move until the repeat starts
    for _ in 0..24 {
        assert!(matches!(c.input(InputValue(DOWN), InputValue(DOWN), true, true), MenuControllerInputResult::Nothing));
    }
    assert!(matches!(c.input(InputValue(DOWN), InputValue(DOWN), true, true), MenuControllerInputResult::Down));
    assert!(matches!(c.input(InputValue(UP), NONE, true, true), MenuControllerInputResult::Up));
}

#[test]
fn controller_delays_decisions_by_twenty_frames() {
    let mut c = MenuController::new();
    assert!(matches!(c.input(InputValue(SHOT), NONE, false, false), MenuControllerInputResult::Decide));
    for _ in 0..19 {
        assert!(matches!(c.update_decide(), MenuControllerUpdateDecideResult::Wait));
    }
    assert!(matches!(c.update_decide(), MenuControllerUpdateDecideResult::Decide));
    assert!(matches!(c.update_decide(), MenuControllerUpdateDecideResult::Idle));
    c.force_cancel();
    for _ in 0..19 {
        assert!(matches!(c.update_decide(), MenuControllerUpdateDecideResult::Wait));
    }
    assert!(matches!(c.update_decide(), MenuControllerUpdateDecideResult::Cancel));
}

#[test]
fn menu_cursor_moves_with_sounds() {
    let mut m = Menu::new("T", None, vec![MenuItem::plain("a", 0, true), MenuItem::plain("b", 1, false)], 0);
    let (a, s) = m.input(MenuControllerInputResult::Up, false, true);
    assert!(a.is_none() && s.is_none());
    let (a, s) = m.input(MenuControllerInputResult::Down, false, true);
    assert!(a.is_none());
    assert_eq!(s, Some(SOUND_SELECT));
    assert_eq!(m.cursor(), 1);
    let (a, s) = m.input(MenuControllerInputResult::Down, false, true);
    assert!(a.is_none() && s.is_none());
    let (a, s) = m.input(MenuControllerInputResult::Decide, false, false);
    let a = a.unwrap();
    assert_eq!(a.id(), 1);
    assert!(!a.play_sound());
    assert!(s.is_none());
}

#[test]
fn bury_undoes_dig() {
    let sub = Menu::new("Sub", None, vec![MenuItem::plain("Inner", 5, true)], 0);
    let items = vec![MenuItem::plain("First", 1, true), MenuItem::sub_menu("More", None, sub)];
    let mut m = Menu::new("Root", None, items, 1);
    assert!(m.dig().is_none());
    assert!(m.decided());
    assert!(m.bury());
    assert!(!m.decided());
    assert_eq!(m.cursor(), 1);
    assert!(!m.bury());
}

#[test]
fn dig_reports_a_screen_item() {
    let items = vec![MenuItem::sub_scene("Host", LobbyScene::PureP2pHost)];
    let mut m = Menu::new("Root", None, items, 0);
    assert!(matches!(m.dig(), Some(LobbyScene::PureP2pHost)));
    assert!(!m.decided());
}

#[test]
fn plain_item_decides_at_once() {
    let mut menu = two_item_menu();
    let (r, s) = frame(&mut menu, InputValue(SHOT), NONE);
    match r {
        OnMenuInputResult::Action(a) => assert_eq!(a.id(), 1),
        _ => panic!("expected the action"),
    }
    assert_eq!(s, Some(SOUND_DECIDE));
}

#[test]
fn sub_menu_opens_after_the_delay_and_closes_on_cancel() {
    let mut menu = two_item_menu();
    let (_, s) = frame(&mut menu, InputValue(DOWN), NONE);
    assert_eq!(s, Some(SOUND_SELECT));
    let (r, _) = frame(&mut menu, InputValue(SHOT), NONE);
    assert!(matches!(r, OnMenuInputResult::Nothing));
    for _ in 0..20 {
        let (r, _) = frame(&mut menu, NONE, NONE);
        assert!(matches!(r, OnMenuInputResult::Nothing));
    }
    assert!(menu.menu().decided());
    // the sub-menu's plain item decides at once
    let (r, _) = frame(&mut menu, InputValue(SHOT), NONE);
    match r {
        OnMenuInputResult::Action(a) => assert_eq!(a.id(), 5),
        _ => panic!("expected the inner action"),
    }
    // cancel closes the sub-menu after the delay
    let (_, s) = frame(&mut menu, InputValue(CHARGE), NONE);
    assert_eq!(s, Some(SOUND_CANCEL));
    for _ in 0..21 {
        frame(&mut menu, NONE, NONE);
    }
    assert!(!menu.menu().decided());
    assert_eq!(menu.menu().cursor(), 1);
}

#[test]
fn cancel_at_the_root_leaves_the_menu() {
    let mut menu = two_item_menu();
    frame(&mut menu, InputValue(CHARGE), NONE);
    let mut left = false;
    for _ in 0..21 {
        if let (OnMenuInputResult::Cancel, _) = frame(&mut menu, NONE, NONE) {
            left = true;
        }
    }
    assert!(left);
}

#[test]
fn text_input_types_and_decides() {
    let mut t = TextInput::new(7, "Name");
    let mut keys = no_keys();
    assert!(matches!(t.on_input_menu(&keys, &ascii_table()), junowen::text_input::OnMenuInputResult::Nothing));
    keys[b'A' as usize] = 0x80;
    t.on_input_menu(&keys, &ascii_table());
    keys[b'A' as usize] = 0;
    keys[b'B' as usize] = 0x80;
    t.on_input_menu(&keys, &ascii_table());
    assert_eq!(t.value(), "ab");
    keys[b'B' as usize] = 0;
    keys[0x08] = 0x80;
    t.on_input_menu(&keys, &ascii_table());
    assert_eq!(t.value(), "a");
    keys[0x08] = 0;
    keys[0x0d] = 0x80;
    match t.on_input_menu(&keys, &ascii_table()) {
        junowen::text_input::OnMenuInputResult::Decide(id, v) => {
            assert_eq!(id, 7);
            assert_eq!(v, "a");
        },
        _ => panic!("expected a decision"),
    }
}

#[test]
fn held_key_repeats_after_thirty_frames() {
    let mut s = TextInputState::new(&no_keys());
    let mut keys = no_keys();
    keys[65] = 0x80;
    assert_eq!(s.tick(&keys), vec![65u8]);
    let mut repeats = 0;
    for _ in 0..40 {
        repeats += s.tick(&keys).len();
    }
    assert_eq!(repeats, 10);
}

#[test]
fn root_screen_leads_to_host_or_guest() {
    let mut root = Root::new();
    let step = root.on_input_menu(InputValue(SHOT), NONE, &no_keys(), &ascii_table());
    assert!(step.scene.is_none());
    let mut scene = None;
    for _ in 0..21 {
        let step = root.on_input_menu(NONE, NONE, &no_keys(), &ascii_table());
        if step.scene.is_some() {
            scene = step.scene;
        }
    }
    assert!(matches!(scene, Some(LobbyScene::PureP2pHost)));
    let step = root.on_input_menu(InputValue(CHARGE), NONE, &no_keys(), &ascii_table());
    assert!(step.press_start);
    assert!(matches!(step.scene, Some(LobbyScene::Root)));
}

#[test]
fn shared_room_enters_and_leaves() {
    let mut room = SharedRoom::new();
    assert!(room.needs_room_name());
    let step = room.on_input_menu(Some("myroom".to_string()), false, InputValue(SHOT), NONE, &no_keys(), &ascii_table());
    match step.command {
        RoomCommand::WaitForOpponent(name) => assert_eq!(name, "myroom"),
        _ => panic!("expected to wait"),
    }
    assert!(!room.needs_room_name());
    let step = room.on_input_menu(None, true, InputValue(SHOT), NONE, &no_keys(), &ascii_table());
    assert!(matches!(step.command, RoomCommand::StopWaiting));
}

#[test]
fn reserved_room_waits_as_player_and_leaves() {
    let mut room = ReservedRoom::new();
    assert!(room.needs_room_name());
    let step = room.on_input_menu("r1".to_string(), RoomWaiting::Idle, InputValue(SHOT), NONE, &no_keys(), &ascii_table());
    match step.command {
        RoomCommand::WaitForOpponent(name) => assert_eq!(name, "r1"),
        _ => panic!("expected to wait"),
    }
    let step = room.on_input_menu(String::new(), RoomWaiting::InRoom, InputValue(SHOT), NONE, &no_keys(), &ascii_table());
    assert!(matches!(step.command, RoomCommand::StopWaiting));
    let step = room.on_input_menu(String::new(), RoomWaiting::Elsewhere, NONE, NONE, &no_keys(), &ascii_table());
    assert!(step.stop_other_waiting);
}

#[test]
fn menu_definition_digs_and_buries() {
    let sub = MenuDefine::new(0, vec![DefineItem::simple_action("x", 3, true)]);
    let items = vec![
        DefineItem::simple_action("a", 1, true),
        DefineItem::new("b", None, Some(MenuChild::SubMenu(sub))),
        DefineItem::simple_sub_scene("c", LobbyScene::PureP2pGuest),
    ];
    let mut d = MenuDefine::new(2, items);
    assert!(matches!(d.dig(), Some(LobbyScene::PureP2pGuest)));
    let (a, s) = d.input(MenuControllerInputResult::Up, false, true);
    assert!(a.is_none());
    assert_eq!(s, Some(SOUND_SELECT));
    assert!(d.dig().is_none());
    assert!(d.decided());
    assert!(d.bury());
    assert!(!d.decided());
    let (a, _) = d.input(MenuControllerInputResult::Up, false, true);
    assert!(a.is_none());
    let (a, _) = d.input(MenuControllerInputResult::Decide, false, true);
    assert_eq!(a.unwrap().id(), 1);
}

#[test]
fn held_up_moves_at_the_press_then_every_nine_frames_after_twenty_five() {
    let mut c = MenuController::new();
    let mut moved = vec![];
    for k in 1..=50u32 {
        let prev = if k == 1 { NONE } else { InputValue(UP) };
        if matches!(c.input(InputValue(UP), prev, true, true), MenuControllerInputResult::Up) {
            moved.push(k);
        }
    }
    assert_eq!(moved, vec![1, 26, 35, 44]);
}
