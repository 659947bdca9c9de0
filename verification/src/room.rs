use vstd::prelude::*;
use crate::common_menu::{
    frame_step, lemma_decide_keeps_root_items, lemma_frame_keeps_root_items, with_selected_text, CommonMenu, CommonMenuView, MenuResultView,
    OnMenuInputResult,
};
use crate::menu::{lemma_flat_menu_wf, Action, with_enabled, with_label, LobbyScene, Menu, MenuItem, MenuItemView, MenuView};
use crate::menu_controller::InputValue;
use crate::text_input::TextInputView;

verus! {

/// What a room screen asks of the code that owns the connection.
pub enum RoomCommand {
    /// Nothing.
    Nothing,
    /// Start waiting for an opponent in the room of that name.
    WaitForOpponent(String),
    /// Start waiting, as the host of a spectated match, in the room of that
    /// name.
    WaitForSpectatorHost(String),
    /// Stop waiting.
    StopWaiting,
    /// Store the new room name in the settings.
    SaveRoomName(String),
}

/// `RoomCommand` as values.
pub enum RoomCommandView {
    Nothing,
    WaitForOpponent(Seq<char>),
    WaitForSpectatorHost(Seq<char>),
    StopWaiting,
    SaveRoomName(Seq<char>),
}

/// The value of a command.
pub open spec fn command_view(c: RoomCommand) -> RoomCommandView {
    match c {
        RoomCommand::Nothing => RoomCommandView::Nothing,
        RoomCommand::WaitForOpponent(n) => RoomCommandView::WaitForOpponent(n@),
        RoomCommand::WaitForSpectatorHost(n) => RoomCommandView::WaitForSpectatorHost(n@),
        RoomCommand::StopWaiting => RoomCommandView::StopWaiting,
        RoomCommand::SaveRoomName(n) => RoomCommandView::SaveRoomName(n@),
    }
}

/// What a frame of a room screen decided: the screen to go to, if any,
/// what to do with the connection, and the sound to play.
pub struct RoomStep {
    pub scene: Option<LobbyScene>,
    pub command: RoomCommand,
    pub sound: Option<u32>,
}

/// The root menu with the label of item `i` replaced.
pub open spec fn relabeled(m: CommonMenuView, i: int, label: Seq<char>) -> CommonMenuView {
    CommonMenuView { menu: MenuView { items: m.menu.items.update(i, with_label(m.menu.items[i], label)), ..m.menu }, ..m }
}

/// The root menu with item `i` enabled or disabled.
pub open spec fn enabled_at(m: CommonMenuView, i: int, enabled: bool) -> CommonMenuView {
    CommonMenuView {
        menu: MenuView { items: m.menu.items.update(i, with_enabled(m.menu.items[i], enabled)), ..m.menu },
        ..m
    }
}

/// The text of the selected text input of the root menu replaced.
pub open spec fn text_set(m: CommonMenuView, value: Seq<char>) -> CommonMenuView {
    CommonMenuView { menu: with_selected_text(m.menu, value), ..m }
}

// The shared room.

/// The menu of the shared room: enter the room, or change its name.
pub fn make_menu() -> (r: CommonMenu)
    ensures
        r.wf(),
        r@.menu.items.len() == 2,
        r@.decide_count == 0,
        r@.menu.items[0] == (MenuItemView::Plain {
            label: "Enter the Room"@,
            enabled: true,
            decided_action: 0,
            play_sound: true,
        }),
        r@.menu.items[1] is TextInput,
        r@.menu.items[1]->TextInput_decided_action == 11,
        r@.menu.items[1]->TextInput_text_input.changed_action == 12,
{
    let items = vec![
        MenuItem::plain("Enter the Room", 0, true),
        MenuItem::text_input("Change Room Name", 11, 12, "Room name"),
    ];
    let menu = Menu::new("Shared Room", None, items, 0);
    proof {
        lemma_flat_menu_wf(menu@);
    }
    CommonMenu::new(false, 240 + 56, menu)
}

/// The shared room screen.
pub struct SharedRoom {
    menu: CommonMenu,
    enter: bool,
    room_name: Option<String>,
}

/// `SharedRoom` as values.
pub struct SharedRoomView {
    pub menu: CommonMenuView,
    pub enter: bool,
    pub room_name: Option<Seq<char>>,
}

impl View for SharedRoom {
    type V = SharedRoomView;

    closed spec fn view(&self) -> SharedRoomView {
        SharedRoomView {
            menu: self.menu@,
            enter: self.enter,
            room_name: match self.room_name {
                Some(n) => Some(n@),
                None => None,
            },
        }
    }
}

/// The menu offers to enter the room.
pub open spec fn shared_enter_menu(m: CommonMenuView) -> CommonMenuView {
    enabled_at(relabeled(m, 0, "Enter the Room"@), 1, true)
}

/// The menu offers to leave the room (and the name cannot change).
pub open spec fn shared_leave_menu(m: CommonMenuView) -> CommonMenuView {
    enabled_at(relabeled(m, 0, "Leave the Room"@), 1, false)
}

/// A frame of the shared room: the screen after it and what it decided.
/// `stored_room_name` is the name in the settings (read when the screen
/// has none yet); `waiting` tells whether a wait for an opponent is on.
pub open spec fn shared_room_step(
    v: SharedRoomView,
    stored_room_name: Option<Seq<char>>,
    waiting: bool,
    current: InputValue,
    prev: InputValue,
    keys: Seq<u8>,
    ascii_table: Seq<u8>,
) -> (SharedRoomView, Option<LobbyScene>, RoomCommandView, Option<u32>) {
    let name = if v.room_name is Some { v.room_name } else { stored_room_name };
    let (m1, enter) = if waiting != v.enter {
        if waiting { (shared_leave_menu(v.menu), true) } else { (shared_enter_menu(v.menu), false) }
    } else {
        (v.menu, v.enter)
    };
    let (m2, result, sound) = frame_step(m1, current, prev, keys, ascii_table);
    let same = SharedRoomView { menu: m2, enter, room_name: name };
    match result {
        MenuResultView::Nothing => (same, None, RoomCommandView::Nothing, sound),
        MenuResultView::Cancel => (same, Some(LobbyScene::Root), RoomCommandView::Nothing, sound),
        MenuResultView::SubScene(_) => (same, None, RoomCommandView::Nothing, sound),
        MenuResultView::Action(a) => if a.id == 0 {
            if !waiting {
                (
                    SharedRoomView { menu: shared_leave_menu(m2), enter: true, room_name: name },
                    None,
                    RoomCommandView::WaitForOpponent(name.unwrap()),
                    sound,
                )
            } else {
                (
                    SharedRoomView { menu: shared_enter_menu(m2), enter: false, room_name: name },
                    None,
                    RoomCommandView::StopWaiting,
                    sound,
                )
            }
        } else if a.id == 11 {
            (SharedRoomView { menu: text_set(m2, name.unwrap()), ..same }, None, RoomCommandView::Nothing, sound)
        } else if a.id == 12 && a.value is Some {
            (
                SharedRoomView { room_name: a.value, ..same },
                None,
                RoomCommandView::SaveRoomName(a.value.unwrap()),
                sound,
            )
        } else {
            (same, None, RoomCommandView::Nothing, sound)
        },
    }
}

impl SharedRoom {
    /// The screen is in order: its menu is, and it has its two items.
    pub closed spec fn wf(&self) -> bool {
        self.menu.wf() && self.menu@.menu.items.len() == 2
    }

    /// A shared room screen that has not read the room name yet.
    pub fn new() -> (r: SharedRoom)
        ensures
            r.wf(),
            r@.room_name is None,
            !r@.enter,
    {
        SharedRoom { menu: make_menu(), enter: false, room_name: None }
    }

    /// Whether the screen still needs the room name from the settings.
    pub fn needs_room_name(&self) -> (r: bool)
        ensures
            r == (self@.room_name is None),
    {
        self.room_name.is_none()
    }

    fn change_menu_to_enter(&mut self)
        requires
            old(self).wf(),
        ensures
            final(self).wf(),
            final(self)@ == (SharedRoomView { menu: shared_enter_menu(old(self)@.menu), enter: false, ..old(self)@ }),
    {
        self.enter = false;
        self.menu.set_item_label(0, "Enter the Room");
        self.menu.set_item_enabled(1, true);
    }

    fn change_menu_to_leave(&mut self)
        requires
            old(self).wf(),
        ensures
            final(self).wf(),
            final(self)@ == (SharedRoomView { menu: shared_leave_menu(old(self)@.menu), enter: true, ..old(self)@ }),
    {
        self.enter = true;
        self.menu.set_item_label(0, "Leave the Room");
        self.menu.set_item_enabled(1, false);
    }

    /// A frame of the screen (see `shared_room_step`). The caller reads
    /// the stored room name when `needs_room_name`.
    pub fn on_input_menu(
        &mut self,
        stored_room_name: Option<String>,
        waiting: bool,
        current_input: InputValue,
        prev_input: InputValue,
        keys: &[u8; 256],
        ascii_table: &[u8; 256],
    ) -> (r: RoomStep)
        requires
            old(self).wf(),
            old(self)@.room_name is None ==> stored_room_name is Some,
        ensures
            final(self).wf(),
            shared_room_step(
                old(self)@,
                match stored_room_name {
                    Some(n) => Some(n@),
                    None => None,
                },
                waiting,
                current_input,
                prev_input,
                keys@,
                ascii_table@,
            ) == (final(self)@, r.scene, command_view(r.command), r.sound),
    {
        if self.room_name.is_none() {
            self.room_name = stored_room_name;
        }
        if waiting != self.enter {
            if waiting {
                self.change_menu_to_leave();
            } else {
                self.change_menu_to_enter();
            }
        }
        let ghost m1 = self.menu@;
        proof {
            lemma_frame_keeps_root_items(m1, current_input, prev_input, keys@, ascii_table@);
            lemma_decide_keeps_root_items(m1);
        }
        let (result, sound) = self.menu.on_input_menu(current_input, prev_input, keys, ascii_table);
        assert(self.menu@ == frame_step(m1, current_input, prev_input, keys@, ascii_table@).0);
        assert(self.menu@.menu.items.len() == 2);
        let step = match result {
            OnMenuInputResult::Nothing => RoomStep { scene: None, command: RoomCommand::Nothing, sound },
            OnMenuInputResult::Cancel => RoomStep { scene: Some(LobbyScene::Root), command: RoomCommand::Nothing, sound },
            OnMenuInputResult::SubScene(_) => RoomStep { scene: None, command: RoomCommand::Nothing, sound },
            OnMenuInputResult::Action(action) => self.apply_action(action, waiting, sound),
        };
        step
    }

    /// What the screen does with a chosen action.
    fn apply_action(&mut self, action: Action, waiting: bool, sound: Option<u32>) -> (r: RoomStep)
        requires
            old(self).wf(),
            old(self)@.room_name is Some,
        ensures
            final(self).wf(),
            ({
                let v = old(self)@;
                let name = v.room_name;
                let a = action@;
                let (after, command) = if a.id == 0 {
                    if !waiting {
                        (
                            SharedRoomView { menu: shared_leave_menu(v.menu), enter: true, ..v },
                            RoomCommandView::WaitForOpponent(name.unwrap()),
                        )
                    } else {
                        (SharedRoomView { menu: shared_enter_menu(v.menu), enter: false, ..v }, RoomCommandView::StopWaiting)
                    }
                } else if a.id == 11 {
                    (SharedRoomView { menu: text_set(v.menu, name.unwrap()), ..v }, RoomCommandView::Nothing)
                } else if a.id == 12 && a.value is Some {
                    (SharedRoomView { room_name: a.value, ..v }, RoomCommandView::SaveRoomName(a.value.unwrap()))
                } else {
                    (v, RoomCommandView::Nothing)
                };
                &&& final(self)@ == after
                &&& command_view(r.command) == command
                &&& r.scene is None
                &&& r.sound == sound
            }),
    {
        let id = action.id();
        if id == 0 {
            if !waiting {
                let name = self.room_name_clone();
                self.change_menu_to_leave();
                RoomStep { scene: None, command: RoomCommand::WaitForOpponent(name), sound }
            } else {
                self.change_menu_to_enter();
                RoomStep { scene: None, command: RoomCommand::StopWaiting, sound }
            }
        } else if id == 11 {
            let name = self.room_name_clone();
            self.menu.set_selected_text_value(name);
            RoomStep { scene: None, command: RoomCommand::Nothing, sound }
        } else if id == 12 {
            match action.value() {
                Some(v) => {
                    let new_name = v.to_owned();
                    self.room_name = Some(new_name.clone());
                    RoomStep { scene: None, command: RoomCommand::SaveRoomName(new_name), sound }
                },
                None => RoomStep { scene: None, command: RoomCommand::Nothing, sound },
            }
        } else {
            RoomStep { scene: None, command: RoomCommand::Nothing, sound }
        }
    }

    fn room_name_clone(&self) -> (r: String)
        requires
            self@.room_name is Some,
        ensures
            r@ == self@.room_name.unwrap(),
    {
        match &self.room_name {
            Some(n) => n.clone(),
            None => String::new(),
        }
    }
}

// The reserved room.

/// Whether the code that owns the connection is waiting, and where.
#[derive(Clone, Copy, Debug, PartialEq, Eq, Structural)]
pub enum RoomWaiting {
    /// Not waiting.
    Idle,
    /// Waiting in this room (for an opponent, or as a spectated host).
    InRoom,
    /// Waiting for something else.
    Elsewhere,
}

/// The menu of a reserved room one can enter.
pub open spec fn reserved_enter_menu(room_name: Seq<char>) -> CommonMenuView {
    CommonMenuView {
        menu: MenuView {
            title: "Reserved Room"@,
            canceled_action: None,
            items: seq![
                MenuItemView::Plain { label: "Enter as a Player"@, enabled: true, decided_action: 0, play_sound: true },
                MenuItemView::Plain { label: "Enter as a Spectator"@, enabled: true, decided_action: 3, play_sound: true },
                MenuItemView::TextInput {
                    label: "Change Room Name"@,
                    enabled: true,
                    decided_action: 2,
                    text_input: TextInputView { changed_action: 4, name: "Room name"@, value: room_name, state: None },
                },
            ],
            cursor: 0,
            decided: false,
        },
        instant_exit: false,
        base_height: 296,
        decide_count: 0,
        repeat_up: 0,
        repeat_down: 0,
    }
}

/// The menu of a reserved room one waits in.
pub open spec fn reserved_leave_menu() -> CommonMenuView {
    CommonMenuView {
        menu: MenuView {
            title: "Reserved Room"@,
            canceled_action: None,
            items: seq![MenuItemView::Plain { label: "Leave"@, enabled: true, decided_action: 1, play_sound: true }],
            cursor: 0,
            decided: false,
        },
        instant_exit: false,
        base_height: 296,
        decide_count: 0,
        repeat_up: 0,
        repeat_down: 0,
    }
}

/// The menu to enter a reserved room (its id is 1): enter as a player or as
/// a spectator, or change the name (whose text starts as `room_name`).
fn make_enter_menu(room_name: String) -> (r: (u8, CommonMenu))
    ensures
        r.0 == 1,
        r.1.wf(),
        r.1@ == reserved_enter_menu(room_name@),
{
    let mut text_item = MenuItem::text_input("Change Room Name", 2, 4, "Room name");
    text_item.set_text_value(room_name);
    let items = vec![
        MenuItem::plain("Enter as a Player", 0, true),
        MenuItem::plain("Enter as a Spectator", 3, true),
        text_item,
    ];
    let menu = Menu::new("Reserved Room", None, items, 0);
    proof {
        lemma_flat_menu_wf(menu@);
        assert(menu@.items =~= reserved_enter_menu(room_name@).menu.items);
    }
    (1, CommonMenu::new(false, 240 + 56, menu))
}

/// The menu to leave a reserved room (its id is 2).
fn make_leave_menu() -> (r: (u8, CommonMenu))
    ensures
        r.0 == 2,
        r.1.wf(),
        r.1@ == reserved_leave_menu(),
{
    let items = vec![MenuItem::plain("Leave", 1, true)];
    let menu = Menu::new("Reserved Room", None, items, 0);
    proof {
        lemma_flat_menu_wf(menu@);
        assert(menu@.items =~= reserved_leave_menu().menu.items);
    }
    (2, CommonMenu::new(false, 240 + 56, menu))
}

/// The reserved room screen. Its menu is made on the first frame, once the
/// room name is known (menu id 0 until then, then 1 to enter, 2 to leave).
pub struct ReservedRoom {
    menu_id: u8,
    menu: CommonMenu,
    room_name: String,
}

/// `ReservedRoom` as values.
pub struct ReservedRoomView {
    pub menu_id: u8,
    pub menu: CommonMenuView,
    pub room_name: Seq<char>,
}

impl View for ReservedRoom {
    type V = ReservedRoomView;

    closed spec fn view(&self) -> ReservedRoomView {
        ReservedRoomView { menu_id: self.menu_id, menu: self.menu@, room_name: self.room_name@ }
    }
}

/// What a frame of a reserved room decided.
pub struct ReservedRoomStep {
    /// The screen to go to, if any.
    pub scene: Option<LobbyScene>,
    /// Stop the wait that is not in this room, first.
    pub stop_other_waiting: bool,
    /// What to do with the connection then.
    pub command: RoomCommand,
    /// The sound to play.
    pub sound: Option<u32>,
}

/// A frame of the reserved room: the screen after it, the screen to go to,
/// whether to stop a wait elsewhere first, the command and the sound.
pub open spec fn reserved_room_step(
    v: ReservedRoomView,
    stored_room_name: Seq<char>,
    waiting: RoomWaiting,
    current: InputValue,
    prev: InputValue,
    keys: Seq<u8>,
    ascii_table: Seq<u8>,
) -> (ReservedRoomView, Option<LobbyScene>, bool, RoomCommandView, Option<u32>) {
    let v0 = if v.menu_id == 0 {
        ReservedRoomView { menu_id: 1, menu: reserved_enter_menu(stored_room_name), room_name: stored_room_name }
    } else {
        v
    };
    let stop_other = waiting == RoomWaiting::Elsewhere;
    let in_room = waiting == RoomWaiting::InRoom;
    let (m, result, sound) = frame_step(v0.menu, current, prev, keys, ascii_table);
    let v1 = ReservedRoomView { menu: m, ..v0 };
    let entering = ReservedRoomView { menu_id: 1, menu: reserved_enter_menu(v1.room_name), ..v1 };
    let leaving = ReservedRoomView { menu_id: 2, menu: reserved_leave_menu(), ..v1 };
    match result {
        MenuResultView::Nothing => (
            if !in_room {
                if v1.menu_id != 1 { entering } else { v1 }
            } else {
                if v1.menu_id != 2 { leaving } else { v1 }
            },
            None,
            stop_other,
            RoomCommandView::Nothing,
            sound,
        ),
        MenuResultView::Cancel => (entering, Some(LobbyScene::Root), stop_other, RoomCommandView::StopWaiting, sound),
        MenuResultView::SubScene(_) => (v1, None, stop_other, RoomCommandView::Nothing, sound),
        MenuResultView::Action(a) => if a.id == 0 {
            (leaving, None, stop_other, RoomCommandView::WaitForOpponent(v1.room_name), sound)
        } else if a.id == 1 {
            (entering, None, stop_other, RoomCommandView::StopWaiting, sound)
        } else if a.id == 2 {
            let v2 = ReservedRoomView { menu: text_set(v1.menu, v1.room_name), ..v1 };
            (
                if !in_room {
                    if v2.menu_id != 1 { entering } else { v2 }
                } else {
                    if v2.menu_id != 2 { leaving } else { v2 }
                },
                None,
                stop_other,
                RoomCommandView::Nothing,
                sound,
            )
        } else if a.id == 3 {
            (leaving, None, stop_other, RoomCommandView::WaitForSpectatorHost(v1.room_name), sound)
        } else if a.id == 4 && a.value is Some {
            (
                ReservedRoomView { room_name: a.value.unwrap(), ..v1 },
                None,
                stop_other,
                RoomCommandView::SaveRoomName(a.value.unwrap()),
                sound,
            )
        } else {
            (v1, None, stop_other, RoomCommandView::Nothing, sound)
        },
    }
}

impl ReservedRoom {
    /// Once made, the menu is in order.
    pub closed spec fn wf(&self) -> bool {
        self.menu_id != 0 ==> self.menu.wf() && self.menu@.menu.items.len() > 0
    }

    /// A reserved room screen that has not made its menu yet.
    pub fn new() -> (r: ReservedRoom)
        ensures
            r.wf(),
            r@.menu_id == 0,
            r@.room_name == Seq::<char>::empty(),
            r@.menu.menu.items.len() == 0,
    {
        ReservedRoom {
            menu_id: 0,
            menu: CommonMenu::new(false, 0, Menu::new("", None, Vec::new(), 0)),
            room_name: String::new(),
        }
    }

    /// Whether the screen still needs the room name from the settings.
    pub fn needs_room_name(&self) -> (r: bool)
        ensures
            r == (self@.menu_id == 0),
    {
        self.menu_id == 0
    }

    /// A frame of the screen (see `reserved_room_step`). The caller reads
    /// the stored room name when `needs_room_name`; it is not used after.
    pub fn on_input_menu(
        &mut self,
        stored_room_name: String,
        waiting: RoomWaiting,
        current_input: InputValue,
        prev_input: InputValue,
        keys: &[u8; 256],
        ascii_table: &[u8; 256],
    ) -> (r: ReservedRoomStep)
        requires
            old(self).wf(),
        ensures
            final(self).wf(),
            reserved_room_step(old(self)@, stored_room_name@, waiting, current_input, prev_input, keys@, ascii_table@)
                == (final(self)@, r.scene, r.stop_other_waiting, command_view(r.command), r.sound),
    {
        if self.menu_id == 0 {
            self.room_name = stored_room_name;
            let (id, menu) = make_enter_menu(self.room_name.clone());
            self.menu_id = id;
            self.menu = menu;
        }
        let stop_other_waiting = waiting == RoomWaiting::Elsewhere;
        let in_room = waiting == RoomWaiting::InRoom;
        let ghost m1 = self.menu@;
        proof {
            lemma_frame_keeps_root_items(m1, current_input, prev_input, keys@, ascii_table@);
            lemma_decide_keeps_root_items(m1);
        }
        let (result, sound) = self.menu.on_input_menu(current_input, prev_input, keys, ascii_table);
        match result {
            OnMenuInputResult::Nothing => {
                if !in_room {
                    if self.menu_id != 1 {
                        self.enter_menu();
                    }
                } else {
                    if self.menu_id != 2 {
                        self.leave_menu();
                    }
                }
                ReservedRoomStep { scene: None, stop_other_waiting, command: RoomCommand::Nothing, sound }
            },
            OnMenuInputResult::Cancel => {
                self.enter_menu();
                ReservedRoomStep {
                    scene: Some(LobbyScene::Root),
                    stop_other_waiting,
                    command: RoomCommand::StopWaiting,
                    sound,
                }
            },
            OnMenuInputResult::SubScene(_) => ReservedRoomStep {
                scene: None,
                stop_other_waiting,
                command: RoomCommand::Nothing,
                sound,
            },
            OnMenuInputResult::Action(action) => {
                let opens_text = action.id() == 2;
                let command = self.apply_action(action);
                if opens_text {
                    if !in_room {
                        if self.menu_id != 1 {
                            self.enter_menu();
                        }
                    } else {
                        if self.menu_id != 2 {
                            self.leave_menu();
                        }
                    }
                }
                ReservedRoomStep { scene: None, stop_other_waiting, command, sound }
            },
        }
    }

    fn enter_menu(&mut self)
        ensures
            final(self).wf(),
            final(self)@ == (ReservedRoomView { menu_id: 1, menu: reserved_enter_menu(old(self)@.room_name), ..old(self)@ }),
    {
        let (id, menu) = make_enter_menu(self.room_name.clone());
        self.menu_id = id;
        self.menu = menu;
    }

    fn leave_menu(&mut self)
        ensures
            final(self).wf(),
            final(self)@ == (ReservedRoomView { menu_id: 2, menu: reserved_leave_menu(), ..old(self)@ }),
    {
        let (id, menu) = make_leave_menu();
        self.menu_id = id;
        self.menu = menu;
    }

    /// What the screen does with a chosen action; returns the command.
    fn apply_action(&mut self, action: Action) -> (r: RoomCommand)
        requires
            old(self).wf(),
            old(self)@.menu_id != 0,
        ensures
            final(self).wf(),
            ({
                let v1 = old(self)@;
                let a = action@;
                let entering = ReservedRoomView { menu_id: 1, menu: reserved_enter_menu(v1.room_name), ..v1 };
                let leaving = ReservedRoomView { menu_id: 2, menu: reserved_leave_menu(), ..v1 };
                let (after, command) = if a.id == 0 {
                    (leaving, RoomCommandView::WaitForOpponent(v1.room_name))
                } else if a.id == 1 {
                    (entering, RoomCommandView::StopWaiting)
                } else if a.id == 2 {
                    (ReservedRoomView { menu: text_set(v1.menu, v1.room_name), ..v1 }, RoomCommandView::Nothing)
                } else if a.id == 3 {
                    (leaving, RoomCommandView::WaitForSpectatorHost(v1.room_name))
                } else if a.id == 4 && a.value is Some {
                    (ReservedRoomView { room_name: a.value.unwrap(), ..v1 }, RoomCommandView::SaveRoomName(a.value.unwrap()))
                } else {
                    (v1, RoomCommandView::Nothing)
                };
                final(self)@ == after && command_view(r) == command
            }),
    {
        let id = action.id();
        if id == 0 {
            let name = self.room_name.clone();
            self.leave_menu();
            RoomCommand::WaitForOpponent(name)
        } else if id == 1 {
            self.enter_menu();
            RoomCommand::StopWaiting
        } else if id == 2 {
            let name = self.room_name.clone();
            self.menu.set_selected_text_value(name);
            RoomCommand::Nothing
        } else if id == 3 {
            let name = self.room_name.clone();
            self.leave_menu();
            RoomCommand::WaitForSpectatorHost(name)
        } else if id == 4 {
            match action.value() {
                Some(v) => {
                    let new_name = v.to_owned();
                    self.room_name = new_name.clone();
                    RoomCommand::SaveRoomName(new_name)
                },
                None => RoomCommand::Nothing,
            }
        } else {
            RoomCommand::Nothing
        }
    }
}

/// Where the owner of the connection waits after a frame of the reserved
/// room: a wait elsewhere is stopped first, then the frame's command starts
/// or stops the wait in this room.
pub open spec fn waiting_after(waiting: RoomWaiting, command: RoomCommandView) -> RoomWaiting {
    match command {
        RoomCommandView::WaitForOpponent(_) => RoomWaiting::InRoom,
        RoomCommandView::WaitForSpectatorHost(_) => RoomWaiting::InRoom,
        RoomCommandView::StopWaiting => RoomWaiting::Idle,
        _ => if waiting == RoomWaiting::Elsewhere { RoomWaiting::Idle } else { waiting },
    }
}

/// The reserved room shows the menu to leave exactly while it is waited in.
pub open spec fn reserved_menu_matches(v: ReservedRoomView, waiting: RoomWaiting) -> bool {
    (v.menu_id == 1 || v.menu_id == 2) && (v.menu_id == 2 <==> waiting == RoomWaiting::InRoom)
}

/// Law: after every frame of the reserved room, its menu is the one to
/// enter (1) or to leave (2), and it is the one to leave exactly while the
/// room is waited in; this holds from the first frame on.
pub proof fn law_reserved_menu_follows_waiting(
    v: ReservedRoomView,
    stored_room_name: Seq<char>,
    waiting: RoomWaiting,
    current: InputValue,
    prev: InputValue,
    keys: Seq<u8>,
    ascii_table: Seq<u8>,
)
    requires
        v.menu_id == 0 || reserved_menu_matches(v, waiting),
    ensures
        ({
            let (v2, _, _, command, _) = reserved_room_step(v, stored_room_name, waiting, current, prev, keys, ascii_table);
            reserved_menu_matches(v2, waiting_after(waiting, command))
        }),
{
}

} // verus!
