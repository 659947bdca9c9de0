use vstd::prelude::*;
use crate::menu_controller::{InputValue, REPEAT_START_FRAMES};

verus! {

/// Whether a direction counts this frame on the game's title menu: its
/// button is down, and it just went down or has been held until it repeats
/// (`repeat_count` is the game's hold count for that direction).
pub open spec fn direction_spec(current: InputValue, prev: InputValue, flag: u32, repeat_count: u32) -> bool {
    current.0 & flag != 0 && (prev.0 & flag == 0 || repeat_count == REPEAT_START_FRAMES)
}

/// Whether a direction counts this frame (see `direction_spec`).
pub fn direction(current: InputValue, prev: InputValue, flag: u32, repeat_count: u32) -> (r: bool)
    ensures
        r == direction_spec(current, prev, flag, repeat_count),
{
    current.0 & flag != 0 && (prev.0 & flag == 0 || repeat_count == REPEAT_START_FRAMES)
}

/// The title screen's cursor positions the modifier cares about.
pub const CURSOR_VS_MODE: u32 = 1;
/// The online item, under which the Ju.N.Owen item is drawn.
pub const CURSOR_ONLINE_VS_MODE: u32 = 2;
/// The item after the online one.
pub const CURSOR_AFTER_ONLINE: u32 = 3;
/// The item that leaves the game.
pub const CURSOR_EXIT: u32 = 7;

/// Adds a Ju.N.Owen item to the game's title menu: it sits under the
/// online item, which the cursor skips over to reach it.
pub struct TitleMenuModifier {
    first_time: bool,
    selected_junowen: bool,
}

/// `TitleMenuModifier` as values.
pub struct TitleMenuModifierView {
    pub first_time: bool,
    pub selected_junowen: bool,
}

impl View for TitleMenuModifier {
    type V = TitleMenuModifierView;

    closed spec fn view(&self) -> TitleMenuModifierView {
        TitleMenuModifierView { first_time: self.first_time, selected_junowen: self.selected_junowen }
    }
}

/// What the title menu shows and what the player did this frame.
#[derive(Clone, Copy, Debug)]
pub struct TitleMenuFrame {
    /// Disabled items (the menu is being animated when there are some).
    pub num_disabled: u32,
    /// Where the game's cursor is.
    pub cursor: u32,
    /// A decide button went down.
    pub decide: bool,
    /// Up counts this frame (see `direction`).
    pub up: bool,
    /// Down counts this frame.
    pub down: bool,
}

/// What the modifier does to the game's title menu this frame.
#[derive(Clone, Copy, Debug)]
pub struct TitleMenuChange {
    /// Where to put the game's cursor, if anywhere.
    pub set_cursor: Option<u32>,
    /// Replace the frame's buttons by a shot (to decide on the item under
    /// the cursor).
    pub press_shot: bool,
}

/// A frame of the title menu: the modifier after it, where the cursor goes
/// and whether a shot is pressed. The Ju.N.Owen item is chosen by going
/// down from the online item (the game's cursor goes back up to it, so
/// that the game's own item is not shown as selected); deciding on it
/// decides on the versus item instead, which opens the lobby.
pub open spec fn title_menu_step(v: TitleMenuModifierView, f: TitleMenuFrame) -> (TitleMenuModifierView, Option<u32>, bool) {
    if f.num_disabled > 0 {
        (v, None, false)
    } else {
        let (v1, c1, cursor) = if v.first_time {
            if v.selected_junowen {
                (TitleMenuModifierView { first_time: false, ..v }, Some(CURSOR_ONLINE_VS_MODE), CURSOR_ONLINE_VS_MODE)
            } else {
                (TitleMenuModifierView { first_time: false, ..v }, None, f.cursor)
            }
        } else {
            (v, None, f.cursor)
        };
        if cursor == CURSOR_ONLINE_VS_MODE && !v1.selected_junowen {
            if f.down {
                (TitleMenuModifierView { selected_junowen: true, ..v1 }, Some(CURSOR_VS_MODE), false)
            } else {
                (v1, c1, false)
            }
        } else if cursor == CURSOR_ONLINE_VS_MODE {
            if f.decide {
                (v1, Some(CURSOR_VS_MODE), true)
            } else if f.up {
                (TitleMenuModifierView { selected_junowen: false, ..v1 }, Some(CURSOR_AFTER_ONLINE), false)
            } else if f.down {
                (TitleMenuModifierView { selected_junowen: false, ..v1 }, c1, false)
            } else {
                (v1, c1, false)
            }
        } else if cursor == CURSOR_AFTER_ONLINE {
            if f.up {
                (TitleMenuModifierView { selected_junowen: true, ..v1 }, c1, false)
            } else {
                (v1, c1, false)
            }
        } else if cursor == CURSOR_EXIT {
            (TitleMenuModifierView { selected_junowen: false, ..v1 }, c1, false)
        } else {
            (v1, c1, false)
        }
    }
}

impl TitleMenuModifier {
    /// A modifier that has not shown the title menu yet, with the Ju.N.Owen
    /// item not selected.
    pub fn new() -> (r: TitleMenuModifier)
        ensures
            r@ == (TitleMenuModifierView { first_time: true, selected_junowen: false }),
    {
        TitleMenuModifier { first_time: true, selected_junowen: false }
    }

    /// Whether the Ju.N.Owen item is selected.
    pub fn selected_junowen(&self) -> (r: bool)
        ensures
            r == self@.selected_junowen,
    {
        self.selected_junowen
    }

    /// Whether to open the lobby: the game went on to its player matchup
    /// screen while the Ju.N.Owen item was selected. The next title menu
    /// then starts again with that item.
    pub fn start_lobby(&mut self, at_player_matchup_select: bool) -> (r: bool)
        ensures
            r == (at_player_matchup_select && old(self)@.selected_junowen),
            final(self)@ == if r {
                TitleMenuModifierView { first_time: true, ..old(self)@ }
            } else {
                old(self)@
            },
    {
        if at_player_matchup_select && self.selected_junowen {
            self.first_time = true;
            true
        } else {
            false
        }
    }

    /// A frame of the title menu (see `title_menu_step`).
    pub fn on_input_menu(&mut self, frame: TitleMenuFrame) -> (r: TitleMenuChange)
        ensures
            title_menu_step(old(self)@, frame) == (final(self)@, r.set_cursor, r.press_shot),
    {
        if frame.num_disabled > 0 {
            return TitleMenuChange { set_cursor: None, press_shot: false };
        }
        let mut set_cursor: Option<u32> = None;
        let mut cursor = frame.cursor;
        if self.first_time {
            self.first_time = false;
            if self.selected_junowen {
                set_cursor = Some(CURSOR_ONLINE_VS_MODE);
                cursor = CURSOR_ONLINE_VS_MODE;
            }
        }
        let mut press_shot = false;
        if cursor == CURSOR_ONLINE_VS_MODE && !self.selected_junowen {
            if frame.down {
                self.selected_junowen = true;
                set_cursor = Some(CURSOR_VS_MODE);
            }
        } else if cursor == CURSOR_ONLINE_VS_MODE {
            if frame.decide {
                press_shot = true;
                set_cursor = Some(CURSOR_VS_MODE);
            } else {
                if frame.up {
                    self.selected_junowen = false;
                    set_cursor = Some(CURSOR_AFTER_ONLINE);
                }
                if frame.down {
                    self.selected_junowen = false;
                }
            }
        } else if cursor == CURSOR_AFTER_ONLINE {
            if frame.up {
                self.selected_junowen = true;
            }
        } else if cursor == CURSOR_EXIT {
            self.selected_junowen = false;
        }
        TitleMenuChange { set_cursor, press_shot }
    }
}

} // verus!
