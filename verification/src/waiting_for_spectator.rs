use vstd::prelude::*;

verus! {

/// Where a host that lets a spectator in over copied codes stands.
#[derive(Clone, Copy, Debug, PartialEq, Eq, Structural)]
pub enum SpectatorPhase {
    /// Waiting for the player to paste a spectator's code.
    Standby,
    /// A spectator's offer was read; waiting for the answer to copy.
    SignalingCodeRecved,
    /// The answer was copied; waiting for the spectator to connect.
    SignalingCodeSent,
}

/// The sound played when a spectator's offer was read.
pub const SOUND_OFFER_READ: u32 = 0x07;
/// The sound played when the clipboard held no spectator's offer.
pub const SOUND_NO_OFFER: u32 = 0x10;
/// The sound played when the answer was copied for the spectator.
pub const SOUND_ANSWER_COPIED: u32 = 0x57;

/// What the owner of the connection does next in a frame.
#[derive(Clone, Copy, Debug, PartialEq, Eq, Structural)]
pub enum SpectatorStep {
    /// Nothing more this frame.
    Nothing,
    /// The button was just pushed: read a spectator's offer from the
    /// clipboard and start signaling with it (then report how it went).
    TryStartSignaling,
    /// See whether the answer is there (then report it).
    PollAnswer,
}

/// A host waiting for a spectator who connects over copied codes: the
/// phase, whether the game shows the screen where spectators may join,
/// and whether the button was down in the last frame. The signaling
/// itself belongs to the caller.
pub struct WaitingForPureP2pSpectator {
    phase: SpectatorPhase,
    ready: bool,
    pushed: bool,
}

/// `WaitingForPureP2pSpectator` as values.
pub struct SpectatorView {
    pub phase: SpectatorPhase,
    pub ready: bool,
    pub pushed: bool,
}

impl View for WaitingForPureP2pSpectator {
    type V = SpectatorView;

    closed spec fn view(&self) -> SpectatorView {
        SpectatorView { phase: self.phase, ready: self.ready, pushed: self.pushed }
    }
}

/// The game screen a menu shows, as far as spectators care.
#[derive(Clone, Copy, Debug, PartialEq, Eq, Structural)]
pub enum GameScreen {
    /// Difficulty select.
    DifficultySelect,
    /// Any other screen.
    Other,
}

/// A spectator may join while the game shows difficulty select and
/// neither player has chosen a card.
pub open spec fn spectator_ready_spec(menu: Option<GameScreen>, p1_card: u32, p2_card: u32) -> bool {
    menu == Some(GameScreen::DifficultySelect) && p1_card == 0 && p2_card == 0
}

/// Whether a spectator may join: the game's menu, if any, shows difficulty
/// select, and both players' cards are 0.
pub fn spectator_ready(menu: Option<GameScreen>, p1_card: u32, p2_card: u32) -> (r: bool)
    ensures
        r == spectator_ready_spec(menu, p1_card, p2_card),
{
    match menu {
        Some(GameScreen::DifficultySelect) => p1_card == 0 && p2_card == 0,
        _ => false,
    }
}

/// A frame: readiness is recorded, and a push of the button (down now,
/// not before) asks to start over with a new code; otherwise, with an offer
/// read, the answer is polled.
pub open spec fn spectator_update(v: SpectatorView, current_pushed: bool, ready: bool) -> (SpectatorView, SpectatorStep) {
    let v1 = SpectatorView { ready, pushed: current_pushed, ..v };
    if !v.pushed && current_pushed {
        (v1, SpectatorStep::TryStartSignaling)
    } else if v.phase == SpectatorPhase::SignalingCodeRecved {
        (v1, SpectatorStep::PollAnswer)
    } else {
        (v1, SpectatorStep::Nothing)
    }
}

impl WaitingForPureP2pSpectator {
    /// Waiting for a code, with nothing ready or pushed.
    pub fn standby() -> (r: WaitingForPureP2pSpectator)
        ensures
            r@ == (SpectatorView { phase: SpectatorPhase::Standby, ready: false, pushed: false }),
    {
        WaitingForPureP2pSpectator { phase: SpectatorPhase::Standby, ready: false, pushed: false }
    }

    pub fn phase(&self) -> (r: SpectatorPhase)
        ensures
            r == self@.phase,
    {
        self.phase
    }

    /// Whether the game shows the screen where a spectator may join.
    pub fn ready(&self) -> (r: bool)
        ensures
            r == self@.ready,
    {
        self.ready
    }

    fn set_ready(&mut self, value: bool)
        ensures
            final(self)@ == (SpectatorView { ready: value, ..old(self)@ }),
    {
        self.ready = value;
    }

    /// The first half of a frame (see `spectator_update`), with the game's
    /// menu screen, if a menu is shown, and the players' cards, from which
    /// readiness is taken (see `spectator_ready`).
    pub fn update_inner(&mut self, current_pushed: bool, menu: Option<GameScreen>, p1_card: u32, p2_card: u32) -> (r: SpectatorStep)
        ensures
            spectator_update(old(self)@, current_pushed, spectator_ready_spec(menu, p1_card, p2_card)) == (final(self)@, r),
    {
        let ready = spectator_ready(menu, p1_card, p2_card);
        self.set_ready(ready);
        let prev_pushed = self.pushed;
        self.pushed = current_pushed;
        if !prev_pushed && current_pushed {
            SpectatorStep::TryStartSignaling
        } else if self.phase == SpectatorPhase::SignalingCodeRecved {
            SpectatorStep::PollAnswer
        } else {
            SpectatorStep::Nothing
        }
    }

    /// A spectator's offer was read and signaling started: a new wait for
    /// the answer, not ready, with the button down; returns the sound to
    /// play.
    pub fn signaling_started(&mut self) -> (sound: u32)
        ensures
            final(self)@ == (SpectatorView { phase: SpectatorPhase::SignalingCodeRecved, ready: false, pushed: true }),
            sound == SOUND_OFFER_READ,
    {
        self.phase = SpectatorPhase::SignalingCodeRecved;
        self.ready = false;
        self.pushed = true;
        SOUND_OFFER_READ
    }

    /// No offer could be read: with an offer read before, its answer is
    /// still polled; returns that and the sound to play.
    pub fn signaling_not_started(&self) -> (r: (SpectatorStep, u32))
        ensures
            r.0 == if self@.phase == SpectatorPhase::SignalingCodeRecved {
                SpectatorStep::PollAnswer
            } else {
                SpectatorStep::Nothing
            },
            r.1 == SOUND_NO_OFFER,
    {
        if self.phase == SpectatorPhase::SignalingCodeRecved {
            (SpectatorStep::PollAnswer, SOUND_NO_OFFER)
        } else {
            (SpectatorStep::Nothing, SOUND_NO_OFFER)
        }
    }

    /// The answer is there and was copied for the spectator; returns the
    /// sound to play.
    pub fn answer_sent(&mut self) -> (sound: u32)
        ensures
            final(self)@ == (SpectatorView { phase: SpectatorPhase::SignalingCodeSent, ..old(self)@ }),
            sound == SOUND_ANSWER_COPIED,
    {
        self.phase = SpectatorPhase::SignalingCodeSent;
        SOUND_ANSWER_COPIED
    }

    /// Signaling failed: back to waiting for a code, not ready.
    pub fn failed(&mut self, pushed: bool)
        ensures
            final(self)@ == (SpectatorView { phase: SpectatorPhase::Standby, ready: false, pushed }),
    {
        self.phase = SpectatorPhase::Standby;
        self.ready = false;
        self.pushed = pushed;
    }
}

} // verus!
