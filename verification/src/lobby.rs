use vstd::prelude::*;
use crate::common_menu::{frame_step, lemma_decide_keeps_root_items, lemma_frame_keeps_root_items, CommonMenu, CommonMenuView, MenuResultView, OnMenuInputResult};
use crate::menu::{lemma_flat_menu_wf, LobbyScene, Menu, MenuItem, MenuItemView, MenuView};
use crate::menu_controller::InputValue;

verus! {

/// The root menu of the lobby: connect as host or as guest.
pub open spec fn root_menu() -> CommonMenuView {
    CommonMenuView {
        menu: MenuView {
            title: "Ju.N.Owen"@,
            canceled_action: None,
            items: seq![
                MenuItemView::SubScene { label: "Connect as Host"@, enabled: true, sub_scene: LobbyScene::PureP2pHost },
                MenuItemView::SubScene { label: "Connect as Guest"@, enabled: true, sub_scene: LobbyScene::PureP2pGuest },
            ],
            cursor: 0,
            decided: false,
        },
        instant_exit: true,
        base_height: 240,
        decide_count: 0,
        repeat_up: 0,
        repeat_down: 0,
    }
}

/// The first screen of the lobby.
pub struct Root {
    common_menu: CommonMenu,
}

impl View for Root {
    type V = CommonMenuView;

    closed spec fn view(&self) -> CommonMenuView {
        self.common_menu@
    }
}

/// What a frame of the root screen decided: the screen to go to, if any;
/// whether to press start in the game's menu (to leave the lobby); the
/// sound to play.
pub struct RootStep {
    pub scene: Option<LobbyScene>,
    pub press_start: bool,
    pub sound: Option<u32>,
}

impl Root {
    /// Its menu is in order.
    pub closed spec fn wf(&self) -> bool {
        self.common_menu.wf() && self.common_menu@.menu.items.len() == 2
    }

    /// The root screen, with nothing selected yet.
    pub fn new() -> (r: Root)
        ensures
            r.wf(),
            r@ == root_menu(),
    {
        let items = vec![
            MenuItem::sub_scene("Connect as Host", LobbyScene::PureP2pHost),
            MenuItem::sub_scene("Connect as Guest", LobbyScene::PureP2pGuest),
        ];
        let menu = Menu::new("Ju.N.Owen", None, items, 0);
        proof {
            lemma_flat_menu_wf(menu@);
            assert(menu@.items =~= root_menu().menu.items);
        }
        Root { common_menu: CommonMenu::new(true, 240, menu) }
    }

    /// A frame of the root screen: a screen item leads to its screen;
    /// leaving goes back to the game's menu (start is pressed there).
    pub fn on_input_menu(
        &mut self,
        current_input: InputValue,
        prev_input: InputValue,
        keys: &[u8; 256],
        ascii_table: &[u8; 256],
    ) -> (r: RootStep)
        requires
            old(self).wf(),
        ensures
            final(self).wf(),
            ({
                let (m, result, sound) = frame_step(old(self)@, current_input, prev_input, keys@, ascii_table@);
                &&& final(self)@ == m
                &&& r.sound == sound
                &&& r.scene == match result {
                    MenuResultView::Cancel => Some(LobbyScene::Root),
                    MenuResultView::SubScene(s) => Some(s),
                    _ => None,
                }
                &&& r.press_start == (result is Cancel)
            }),
    {
        let ghost v = self.common_menu@;
        proof {
            lemma_decide_keeps_root_items(v);
            lemma_frame_keeps_root_items(v, current_input, prev_input, keys@, ascii_table@);
        }
        let (result, sound) = self.common_menu.on_input_menu(current_input, prev_input, keys, ascii_table);
        match result {
            OnMenuInputResult::Nothing => RootStep { scene: None, press_start: false, sound },
            OnMenuInputResult::Cancel => RootStep { scene: Some(LobbyScene::Root), press_start: true, sound },
            OnMenuInputResult::SubScene(scene) => RootStep { scene: Some(scene), press_start: false, sound },
            OnMenuInputResult::Action(_) => RootStep { scene: None, press_start: false, sound },
        }
    }
}

/// Which screen of the lobby runs, the screen drawn (the one that ran in
/// the last frame) and the buttons of the last frame. The screens
/// themselves belong to the caller.
pub struct Lobby {
    scene: LobbyScene,
    prev_scene: LobbyScene,
    prev_input: InputValue,
}

/// `Lobby` as values.
pub struct LobbyView {
    pub scene: LobbyScene,
    pub prev_scene: LobbyScene,
    pub prev_input: InputValue,
}

impl View for Lobby {
    type V = LobbyView;

    closed spec fn view(&self) -> LobbyView {
        LobbyView { scene: self.scene, prev_scene: self.prev_scene, prev_input: self.prev_input }
    }
}

impl Lobby {
    /// The lobby at its root, with every button counted as held (so that
    /// the press that opened it does not count again).
    pub fn new() -> (r: Lobby)
        ensures
            r@ == (LobbyView { scene: LobbyScene::Root, prev_scene: LobbyScene::Root, prev_input: InputValue(u32::MAX) }),
    {
        Lobby { scene: LobbyScene::Root, prev_scene: LobbyScene::Root, prev_input: InputValue::full() }
    }

    /// Back to the root, every button counted as held.
    pub fn reset_depth(&mut self)
        ensures
            final(self)@ == (LobbyView { scene: LobbyScene::Root, prev_input: InputValue(u32::MAX), ..old(self)@ }),
    {
        self.scene = LobbyScene::Root;
        self.prev_input = InputValue::full();
    }

    /// The screen drawn this frame.
    pub fn prev_scene(&self) -> (r: LobbyScene)
        ensures
            r == self@.prev_scene,
    {
        self.prev_scene
    }

    /// The start of a frame: the screen that runs now is the one drawn;
    /// returns it and the buttons of the last frame.
    pub fn begin_frame(&mut self) -> (r: (LobbyScene, InputValue))
        ensures
            final(self)@ == (LobbyView { prev_scene: old(self)@.scene, ..old(self)@ }),
            r == (old(self)@.scene, old(self)@.prev_input),
    {
        self.prev_scene = self.scene;
        (self.scene, self.prev_input)
    }

    /// The end of a frame: a screen asked for goes on, with every button
    /// counted as held; otherwise this frame's buttons are remembered.
    pub fn end_frame(&mut self, next: Option<LobbyScene>, current_input: InputValue)
        ensures
            final(self)@ == match next {
                Some(s) => LobbyView { scene: s, prev_input: InputValue(u32::MAX), ..old(self)@ },
                None => LobbyView { prev_input: current_input, ..old(self)@ },
            },
    {
        match next {
            Some(s) => {
                self.scene = s;
                self.prev_input = InputValue::full();
            },
            None => {
                self.prev_input = current_input;
            },
        }
    }
}

} // verus!
