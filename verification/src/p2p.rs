use vstd::prelude::*;
use crate::common_menu::{
    down_on_empty, frame_step, root_ok, CommonMenu, CommonMenuView, MenuResultView, OnMenuInputResult,
};
use crate::menu::{lemma_flat_menu_wf, LobbyScene, Menu, MenuItem, MenuItemView, MenuView};
use crate::menu_controller::InputValue;

verus! {

/// The sound of a refused paste.
pub const SOUND_INVALID: u32 = 0x10;
/// The sound of an accepted paste.
pub const SOUND_ACCEPTED: u32 = 0x07;

/// A menu with one plain item that decides without its own sound.
pub open spec fn one_item_menu(title: Seq<char>, base_height: u32, label: Seq<char>, id: u8, play_sound: bool) -> CommonMenuView {
    CommonMenuView {
        menu: MenuView {
            title,
            canceled_action: None,
            items: seq![MenuItemView::Plain { label, enabled: true, decided_action: id, play_sound }],
            cursor: 0,
            decided: false,
        },
        instant_exit: false,
        base_height,
        decide_count: 0,
        repeat_up: 0,
        repeat_down: 0,
    }
}

/// A menu without items (only leaving works).
pub open spec fn empty_menu(title: Seq<char>, base_height: u32) -> CommonMenuView {
    CommonMenuView {
        menu: MenuView { title, canceled_action: None, items: Seq::empty(), cursor: 0, decided: false },
        instant_exit: false,
        base_height,
        decide_count: 0,
        repeat_up: 0,
        repeat_down: 0,
    }
}

fn make_one_item_menu(title: &'static str, base_height: u32, label: &'static str, id: u8, play_sound: bool) -> (r: CommonMenu)
    ensures
        r.wf(),
        r@ == one_item_menu(title@, base_height, label@, id, play_sound),
{
    let menu = Menu::new(title, None, vec![MenuItem::plain(label, id, play_sound)], 0);
    proof {
        lemma_flat_menu_wf(menu@);
        assert(menu@.items =~= one_item_menu(title@, base_height, label@, id, play_sound).menu.items);
    }
    CommonMenu::new(false, base_height, menu)
}

fn make_empty_menu(title: &'static str, base_height: u32) -> (r: CommonMenu)
    ensures
        r.wf(),
        r@ == empty_menu(title@, base_height),
{
    let menu = Menu::new(title, None, Vec::new(), 0);
    assert(menu@.items =~= Seq::<MenuItemView>::empty());
    CommonMenu::new(false, base_height, menu)
}

// The guest.

/// The title of the guest's screen.
pub const GUEST_TITLE: &'static str = "Connect as a Guest";

/// What the signaling of the guest reports at the start of a frame.
#[derive(Clone, Copy, Debug)]
pub struct SignalingState {
    /// The peers are connected.
    pub connected: bool,
    /// The answer (the code to give back) is there.
    pub answer_ready: bool,
    /// The signaling failed.
    pub error: bool,
}

/// The guest's screen of a connection over copied codes: paste the host's
/// code, then copy the answer back. The signaling and the clipboard belong
/// to the caller.
pub struct PureP2pGuest {
    menu: CommonMenu,
    offer: Option<String>,
    answer_generated: bool,
    error_received: bool,
}

/// `PureP2pGuest` as values.
pub struct GuestView {
    pub menu: CommonMenuView,
    pub offer: Option<Seq<char>>,
    pub answer_generated: bool,
    pub error_received: bool,
}

impl View for PureP2pGuest {
    type V = GuestView;

    closed spec fn view(&self) -> GuestView {
        GuestView {
            menu: self.menu@,
            offer: match self.offer {
                Some(o) => Some(o@),
                None => None,
            },
            answer_generated: self.answer_generated,
            error_received: self.error_received,
        }
    }
}

/// A fresh guest screen: paste the host's code.
pub open spec fn fresh_guest() -> GuestView {
    GuestView {
        menu: one_item_menu(GUEST_TITLE@, 840, "Press SHOT to Paste"@, 0, false),
        offer: None,
        answer_generated: false,
        error_received: false,
    }
}

/// The start of a frame of the guest's screen: a connection starts over
/// (the caller makes new signaling); a new answer is copied and offered
/// again; a new error empties the menu. Returns whether to start over and
/// whether to copy the answer.
pub open spec fn guest_prelude(v: GuestView, s: SignalingState) -> (GuestView, bool, bool) {
    if s.connected {
        (fresh_guest(), true, false)
    } else {
        let (v1, copy) = if !v.answer_generated && s.answer_ready {
            (
                GuestView {
                    answer_generated: true,
                    menu: one_item_menu(GUEST_TITLE@, 840, "Press SHOT to Copy again"@, 1, true),
                    ..v
                },
                true,
            )
        } else {
            (v, false)
        };
        let v2 = if !v1.error_received && s.error {
            GuestView { error_received: true, menu: empty_menu(GUEST_TITLE@, 0), ..v1 }
        } else {
            v1
        };
        (v2, false, copy)
    }
}

/// What the guest's screen asks of the caller after its menu.
#[derive(Clone, Copy, Debug, PartialEq, Eq, Structural)]
pub enum GuestCommand {
    Nothing,
    /// Start over (new signaling).
    Reset,
    /// Read the host's code from the clipboard and hand it to
    /// `offer_pasted`.
    ReadOffer,
    /// Copy the answer to the clipboard again.
    CopyAnswerAgain,
}

/// The menu part of a frame: leaving starts over and goes back to the
/// root; action 0 reads the host's code; action 1 copies the answer again
/// (and the menu then counts as having shown an error).
pub open spec fn guest_menu_step(v: GuestView, result: MenuResultView) -> (GuestView, Option<LobbyScene>, GuestCommand) {
    match result {
        MenuResultView::Cancel => (fresh_guest(), Some(LobbyScene::Root), GuestCommand::Reset),
        MenuResultView::Action(a) => if a.id == 0 {
            (v, None, GuestCommand::ReadOffer)
        } else if a.id == 1 {
            (GuestView { error_received: true, ..v }, None, GuestCommand::CopyAnswerAgain)
        } else {
            (v, None, GuestCommand::Nothing)
        },
        _ => (v, None, GuestCommand::Nothing),
    }
}

/// What the prelude of a frame asks of the caller.
#[derive(Clone, Copy, Debug)]
pub struct GuestPrelude {
    /// Start over (new signaling, new session channel).
    pub reset: bool,
    /// Copy the fresh answer to the clipboard.
    pub copy_answer: bool,
}

/// What the menu part of a frame decided.
#[derive(Clone, Copy, Debug)]
pub struct P2pStep {
    pub scene: Option<LobbyScene>,
    pub sound: Option<u32>,
}

impl PureP2pGuest {
    /// The menu is in order (possibly empty).
    pub closed spec fn wf(&self) -> bool {
        self.menu.wf()
    }

    pub fn new() -> (r: PureP2pGuest)
        ensures
            r.wf(),
            r@ == fresh_guest(),
    {
        PureP2pGuest {
            menu: make_one_item_menu(GUEST_TITLE, 840, "Press SHOT to Paste", 0, false),
            offer: None,
            answer_generated: false,
            error_received: false,
        }
    }

    /// The menu on screen.
    pub fn menu(&self) -> (r: &CommonMenu)
        ensures
            r@ == self@.menu,
            self.wf() ==> r.wf(),
    {
        &self.menu
    }

    /// The host's code, once pasted.
    pub fn offer(&self) -> (r: Option<&String>)
        ensures
            match r {
                Some(o) => self@.offer == Some(o@),
                None => self@.offer is None,
            },
    {
        self.offer.as_ref()
    }

    /// The start of a frame (see `guest_prelude`).
    pub fn begin_frame(&mut self, signaling: SignalingState) -> (r: GuestPrelude)
        requires
            old(self).wf(),
        ensures
            final(self).wf(),
            guest_prelude(old(self)@, signaling) == (final(self)@, r.reset, r.copy_answer),
    {
        if signaling.connected {
            *self = PureP2pGuest::new();
            return GuestPrelude { reset: true, copy_answer: false };
        }
        let mut copy_answer = false;
        if !self.answer_generated && signaling.answer_ready {
            self.answer_generated = true;
            copy_answer = true;
            self.menu = make_one_item_menu(GUEST_TITLE, 840, "Press SHOT to Copy again", 1, true);
        }
        if !self.error_received && signaling.error {
            self.error_received = true;
            self.menu = make_empty_menu(GUEST_TITLE, 0);
        }
        GuestPrelude { reset: false, copy_answer }
    }

    /// The menu part of a frame (see `guest_menu_step`): the buttons of
    /// this frame and the last, the keyboard and its ASCII table. Returns
    /// the screen to go to, the sound, and what to do.
    pub fn on_input_menu(
        &mut self,
        current_input: InputValue,
        prev_input: InputValue,
        keys: &[u8; 256],
        ascii_table: &[u8; 256],
    ) -> (r: (P2pStep, GuestCommand))
        requires
            old(self).wf(),
            !down_on_empty(old(self)@.menu, current_input, prev_input),
        ensures
            final(self).wf(),
            ({
                let (m, result, sound) = frame_step(old(self)@.menu, current_input, prev_input, keys@, ascii_table@);
                let (v, scene, command) = guest_menu_step(GuestView { menu: m, ..old(self)@ }, result);
                &&& final(self)@ == v
                &&& r.0.scene == scene
                &&& r.0.sound == sound
                &&& r.1 == command
            }),
    {
        let (result, sound) = self.menu.on_input_menu(current_input, prev_input, keys, ascii_table);
        match result {
            OnMenuInputResult::Cancel => {
                *self = PureP2pGuest::new();
                (P2pStep { scene: Some(LobbyScene::Root), sound }, GuestCommand::Reset)
            },
            OnMenuInputResult::Action(action) => {
                let id = action.id();
                if id == 0 {
                    (P2pStep { scene: None, sound }, GuestCommand::ReadOffer)
                } else if id == 1 {
                    self.error_received = true;
                    (P2pStep { scene: None, sound }, GuestCommand::CopyAnswerAgain)
                } else {
                    (P2pStep { scene: None, sound }, GuestCommand::Nothing)
                }
            },
            _ => (P2pStep { scene: None, sound }, GuestCommand::Nothing),
        }
    }

    /// The host's code read from the clipboard, if it is one: accepted, it
    /// is kept, the menu empties and the caller asks for the answer with it
    /// (and hands over the session channel); refused, nothing changes.
    /// Returns the sound to play.
    pub fn offer_pasted(&mut self, code: Option<String>) -> (r: u32)
        requires
            old(self).wf(),
        ensures
            final(self).wf(),
            match code {
                Some(c) => r == SOUND_ACCEPTED && final(self)@ == (GuestView {
                    offer: Some(c@),
                    menu: empty_menu(GUEST_TITLE@, 0),
                    ..old(self)@
                }),
                None => r == SOUND_INVALID && final(self)@ == old(self)@,
            },
    {
        match code {
            Some(c) => {
                self.offer = Some(c);
                self.menu = make_empty_menu(GUEST_TITLE, 0);
                SOUND_ACCEPTED
            },
            None => SOUND_INVALID,
        }
    }
}

// The host.

/// The title of the host's screen.
pub const HOST_TITLE: &'static str = "Ju.N.Owen";

/// Whether the host's code was copied: not yet (it is copied once it is
/// generated), copied, or left alone after leaving the screen.
#[derive(Clone, Copy, Debug, PartialEq, Eq, Structural)]
pub enum CopyState {
    RequireGenerate,
    Copied,
    AlreadyCopied,
}

/// The host's menu: generate a new code, copy it, paste the guest's.
pub open spec fn host_menu() -> CommonMenuView {
    CommonMenuView {
        menu: MenuView {
            title: HOST_TITLE@,
            canceled_action: None,
            items: seq![
                MenuItemView::Plain { label: "Regenerate"@, enabled: true, decided_action: 0, play_sound: true },
                MenuItemView::Plain { label: "Copy your code"@, enabled: true, decided_action: 1, play_sound: true },
                MenuItemView::Plain { label: "Paste guest's code"@, enabled: true, decided_action: 2, play_sound: true },
            ],
            cursor: 2,
            decided: false,
        },
        instant_exit: false,
        base_height: 720,
        decide_count: 0,
        repeat_up: 0,
        repeat_down: 0,
    }
}

/// The host's screen of a connection over copied codes.
pub struct PureP2pHost {
    menu: CommonMenu,
    answer: Option<String>,
    copy_state: CopyState,
}

/// `PureP2pHost` as values.
pub struct HostView {
    pub menu: CommonMenuView,
    pub answer: Option<Seq<char>>,
    pub copy_state: CopyState,
}

impl View for PureP2pHost {
    type V = HostView;

    closed spec fn view(&self) -> HostView {
        HostView {
            menu: self.menu@,
            answer: match self.answer {
                Some(a) => Some(a@),
                None => None,
            },
            copy_state: self.copy_state,
        }
    }
}

/// A fresh host screen.
pub open spec fn fresh_host() -> HostView {
    HostView { menu: host_menu(), answer: None, copy_state: CopyState::RequireGenerate }
}

/// What the host's screen asks of the caller.
#[derive(Clone, Copy, Debug, PartialEq, Eq, Structural)]
pub enum HostCommand {
    Nothing,
    /// Start over (new signaling).
    Reset,
    /// Copy the host's code to the clipboard.
    CopyOffer,
    /// Read the guest's code from the clipboard and hand it to
    /// `answer_pasted`.
    ReadAnswer,
}

/// The start of a frame: a connection starts over; a code not yet copied
/// is copied as soon as it is generated. Returns whether to start over and
/// whether to copy the code.
pub open spec fn host_prelude(v: HostView, connected: bool, offer_ready: bool) -> (HostView, bool, bool) {
    let (v1, reset) = if connected { (fresh_host(), true) } else { (v, false) };
    if v1.copy_state == CopyState::RequireGenerate && offer_ready {
        (HostView { copy_state: CopyState::Copied, ..v1 }, reset, true)
    } else {
        (v1, reset, false)
    }
}

/// The menu part of a frame: leaving stops copying and, once a guest's
/// code was pasted or the signaling failed, starts over; action 0 starts
/// over, 1 copies the code, 2 reads the guest's code.
pub open spec fn host_menu_step(v: HostView, result: MenuResultView, failed: bool) -> (HostView, Option<LobbyScene>, HostCommand) {
    match result {
        MenuResultView::Cancel => {
            let v1 = HostView { copy_state: CopyState::AlreadyCopied, ..v };
            if v1.answer is Some || failed {
                (fresh_host(), Some(LobbyScene::Root), HostCommand::Reset)
            } else {
                (v1, Some(LobbyScene::Root), HostCommand::Nothing)
            }
        },
        MenuResultView::SubScene(s) => (v, Some(s), HostCommand::Nothing),
        MenuResultView::Action(a) => if a.id == 0 {
            (fresh_host(), None, HostCommand::Reset)
        } else if a.id == 1 {
            (HostView { copy_state: CopyState::Copied, ..v }, None, HostCommand::CopyOffer)
        } else if a.id == 2 {
            (v, None, HostCommand::ReadAnswer)
        } else {
            (v, None, HostCommand::Nothing)
        },
        MenuResultView::Nothing => (v, None, HostCommand::Nothing),
    }
}

/// What the prelude of a host's frame asks of the caller.
#[derive(Clone, Copy, Debug)]
pub struct HostPrelude {
    pub reset: bool,
    pub copy_offer: bool,
}

fn make_host_menu() -> (r: CommonMenu)
    ensures
        r.wf(),
        r@ == host_menu(),
{
    let items = vec![
        MenuItem::plain("Regenerate", 0, true),
        MenuItem::plain("Copy your code", 1, true),
        MenuItem::plain("Paste guest's code", 2, true),
    ];
    let menu = Menu::new(HOST_TITLE, None, items, 2);
    proof {
        lemma_flat_menu_wf(menu@);
        assert(menu@.items =~= host_menu().menu.items);
    }
    CommonMenu::new(false, 720, menu)
}

impl PureP2pHost {
    pub closed spec fn wf(&self) -> bool {
        self.menu.wf()
    }

    pub fn new() -> (r: PureP2pHost)
        ensures
            r.wf(),
            r@ == fresh_host(),
    {
        PureP2pHost { menu: make_host_menu(), answer: None, copy_state: CopyState::RequireGenerate }
    }

    /// The menu on screen.
    pub fn menu(&self) -> (r: &CommonMenu)
        ensures
            r@ == self@.menu,
            self.wf() ==> r.wf(),
    {
        &self.menu
    }

    pub fn copy_state(&self) -> (r: CopyState)
        ensures
            r == self@.copy_state,
    {
        self.copy_state
    }

    /// The guest's code, once pasted.
    pub fn answer(&self) -> (r: Option<&String>)
        ensures
            match r {
                Some(a) => self@.answer == Some(a@),
                None => self@.answer is None,
            },
    {
        self.answer.as_ref()
    }

    /// The start of a frame (see `host_prelude`).
    pub fn begin_frame(&mut self, connected: bool, offer_ready: bool) -> (r: HostPrelude)
        requires
            old(self).wf(),
        ensures
            final(self).wf(),
            host_prelude(old(self)@, connected, offer_ready) == (final(self)@, r.reset, r.copy_offer),
    {
        let reset = connected;
        if connected {
            *self = PureP2pHost::new();
        }
        if self.copy_state == CopyState::RequireGenerate && offer_ready {
            self.copy_state = CopyState::Copied;
            return HostPrelude { reset, copy_offer: true };
        }
        HostPrelude { reset, copy_offer: false }
    }

    /// The menu part of a frame (see `host_menu_step`); `failed` tells
    /// whether the signaling failed.
    pub fn on_input_menu(
        &mut self,
        failed: bool,
        current_input: InputValue,
        prev_input: InputValue,
        keys: &[u8; 256],
        ascii_table: &[u8; 256],
    ) -> (r: (P2pStep, HostCommand))
        requires
            old(self).wf(),
            !down_on_empty(old(self)@.menu, current_input, prev_input),
        ensures
            final(self).wf(),
            ({
                let (m, result, sound) = frame_step(old(self)@.menu, current_input, prev_input, keys@, ascii_table@);
                let (v, scene, command) = host_menu_step(HostView { menu: m, ..old(self)@ }, result, failed);
                &&& final(self)@ == v
                &&& r.0.scene == scene
                &&& r.0.sound == sound
                &&& r.1 == command
            }),
    {
        let (result, sound) = self.menu.on_input_menu(current_input, prev_input, keys, ascii_table);
        match result {
            OnMenuInputResult::Nothing => (P2pStep { scene: None, sound }, HostCommand::Nothing),
            OnMenuInputResult::Cancel => {
                self.copy_state = CopyState::AlreadyCopied;
                if self.answer.is_some() || failed {
                    *self = PureP2pHost::new();
                    (P2pStep { scene: Some(LobbyScene::Root), sound }, HostCommand::Reset)
                } else {
                    (P2pStep { scene: Some(LobbyScene::Root), sound }, HostCommand::Nothing)
                }
            },
            OnMenuInputResult::SubScene(scene) => (P2pStep { scene: Some(scene), sound }, HostCommand::Nothing),
            OnMenuInputResult::Action(action) => {
                let id = action.id();
                if id == 0 {
                    *self = PureP2pHost::new();
                    (P2pStep { scene: None, sound }, HostCommand::Reset)
                } else if id == 1 {
                    self.copy_state = CopyState::Copied;
                    (P2pStep { scene: None, sound }, HostCommand::CopyOffer)
                } else if id == 2 {
                    (P2pStep { scene: None, sound }, HostCommand::ReadAnswer)
                } else {
                    (P2pStep { scene: None, sound }, HostCommand::Nothing)
                }
            },
        }
    }

    /// The guest's code read from the clipboard: it is kept and the menu
    /// empties (the caller hands it to the signaling).
    pub fn answer_pasted(&mut self, code: String)
        requires
            old(self).wf(),
        ensures
            final(self).wf(),
            final(self)@ == (HostView { answer: Some(code@), menu: empty_menu(HOST_TITLE@, 720), ..old(self)@ }),
    {
        self.answer = Some(code);
        self.menu = make_empty_menu(HOST_TITLE, 720);
    }
}

} // verus!
