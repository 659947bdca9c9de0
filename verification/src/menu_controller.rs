use vstd::prelude::*;

verus! {

/// The state of the game's menu buttons in one frame, one bit per button.
#[derive(Clone, Copy, Debug, PartialEq, Eq, Structural)]
pub struct InputValue(pub u32);

/// Shot: decides.
pub const SHOT: u32 = 0x1;
/// Charge: cancels.
pub const CHARGE: u32 = 0x2;
/// Bomb: cancels.
pub const BOMB: u32 = 0x4;
/// Slow.
pub const SLOW: u32 = 0x8;
/// Up: moves the cursor up.
pub const UP: u32 = 0x10;
/// Down: moves the cursor down.
pub const DOWN: u32 = 0x20;
/// Left.
pub const LEFT: u32 = 0x40;
/// Right.
pub const RIGHT: u32 = 0x80;
/// Pause: cancels.
pub const PAUSE: u32 = 0x100;
/// Enter: decides.
pub const ENTER: u32 = 0x200;
/// Start.
pub const START: u32 = 0x400;

impl InputValue {
    /// No button down.
    pub fn empty() -> (r: InputValue)
        ensures
            r.0 == 0,
    {
        InputValue(0)
    }

    /// Every button down.
    pub fn full() -> (r: InputValue)
        ensures
            r.0 == u32::MAX,
    {
        InputValue(u32::MAX)
    }
}

/// Whether the button is down.
pub open spec fn is_down(input: InputValue, flag: u32) -> bool {
    input.0 & flag != 0
}

/// Whether the button went down in this frame.
pub open spec fn pulse_spec(current: InputValue, prev: InputValue, flag: u32) -> bool {
    is_down(current, flag) && !is_down(prev, flag)
}

fn pulse(current: InputValue, prev: InputValue, flag: u32) -> (r: bool)
    ensures
        r == pulse_spec(current, prev, flag),
{
    current.0 & flag != 0 && prev.0 & flag == 0
}

/// What the delayed decision or cancellation did this frame.
#[derive(Clone, Copy, Debug, PartialEq, Eq, Structural)]
pub enum MenuControllerUpdateDecideResult {
    /// Nothing is pending.
    Idle,
    /// Something is pending; the menu ignores input meanwhile.
    Wait,
    /// The pending decision takes effect.
    Decide,
    /// The pending cancellation takes effect.
    Cancel,
}

/// What the buttons of this frame ask of the menu.
#[derive(Clone, Copy, Debug, PartialEq, Eq, Structural)]
pub enum MenuControllerInputResult {
    /// No button asks for anything.
    Nothing,
    Cancel,
    Decide,
    Up,
    Down,
}

/// Frames a decision or cancellation waits before it takes effect.
pub const DECIDE_DELAY_FRAMES: i32 = 20;

/// Frames a held direction waits before it repeats.
pub const REPEAT_START_FRAMES: u32 = 25;

/// Where the repeat counter restarts, so that a held direction repeats every
/// nine frames.
pub const REPEAT_RESTART_FRAMES: u32 = 17;

/// Turns button presses into menu moves: cursor moves with key repeat, and
/// decisions and cancellations that wait twenty frames (for the sound and
/// the animation) before they take effect.
pub struct MenuController {
    repeat_up: u32,
    repeat_down: u32,
    decide_count: i32,
}

impl MenuController {
    /// The counters stay in range.
    pub closed spec fn wf(&self) -> bool {
        &&& -DECIDE_DELAY_FRAMES <= self.decide_count <= DECIDE_DELAY_FRAMES
        &&& self.repeat_up <= REPEAT_START_FRAMES
        &&& self.repeat_down <= REPEAT_START_FRAMES
    }

    /// Frames since a decision was asked for (positive), or since a
    /// cancellation was (negative); zero when nothing is pending.
    pub closed spec fn decide_count(&self) -> i32 {
        self.decide_count
    }

    /// Frames an up button has been held.
    pub closed spec fn repeat_up(&self) -> u32 {
        self.repeat_up
    }

    /// Frames a down button has been held.
    pub closed spec fn repeat_down(&self) -> u32 {
        self.repeat_down
    }

    /// A controller with nothing pending and no button held.
    pub fn new() -> (c: MenuController)
        ensures
            c.wf(),
            c.decide_count() == 0,
            c.repeat_up() == 0,
            c.repeat_down() == 0,
    {
        MenuController { repeat_up: 0, repeat_down: 0, decide_count: 0 }
    }

    /// Advances a pending decision or cancellation by one frame.
    pub fn update_decide(&mut self) -> (r: MenuControllerUpdateDecideResult)
        requires
            old(self).wf(),
        ensures
            final(self).wf(),
            final(self).repeat_up() == old(self).repeat_up(),
            final(self).repeat_down() == old(self).repeat_down(),
            old(self).decide_count() == 0 ==> r == MenuControllerUpdateDecideResult::Idle
                && final(self).decide_count() == 0,
            old(self).decide_count() > 0 ==> if old(self).decide_count() + 1 > DECIDE_DELAY_FRAMES {
                r == MenuControllerUpdateDecideResult::Decide && final(self).decide_count() == 0
            } else {
                r == MenuControllerUpdateDecideResult::Wait && final(self).decide_count()
                    == old(self).decide_count() + 1
            },
            old(self).decide_count() < 0 ==> if old(self).decide_count() - 1 < -DECIDE_DELAY_FRAMES {
                r == MenuControllerUpdateDecideResult::Cancel && final(self).decide_count() == 0
            } else {
                r == MenuControllerUpdateDecideResult::Wait && final(self).decide_count()
                    == old(self).decide_count() - 1
            },
    {
        if self.decide_count == 0 {
            return MenuControllerUpdateDecideResult::Idle;
        }
        if self.decide_count > 0 {
            self.decide_count += 1;
            if self.decide_count > DECIDE_DELAY_FRAMES {
                self.decide_count = 0;
                return MenuControllerUpdateDecideResult::Decide;
            }
        } else {
            self.decide_count -= 1;
            if self.decide_count < -DECIDE_DELAY_FRAMES {
                self.decide_count = 0;
                return MenuControllerUpdateDecideResult::Cancel;
            }
        }
        MenuControllerUpdateDecideResult::Wait
    }

    /// Starts a cancellation that takes effect after the delay.
    pub fn force_cancel(&mut self)
        requires
            old(self).wf(),
        ensures
            final(self).wf(),
            final(self).decide_count() == -1,
            final(self).repeat_up() == old(self).repeat_up(),
            final(self).repeat_down() == old(self).repeat_down(),
    {
        self.decide_count = -1;
    }

    /// Whether a cancel button went down; unless `instant`, the cancellation
    /// then waits.
    fn cancel(&mut self, current_input: InputValue, prev_input: InputValue, instant: bool) -> (r: bool)
        requires
            old(self).wf(),
        ensures
            final(self).wf(),
            r == is_cancel_pressed(current_input, prev_input),
            final(self).decide_count() == if r && !instant { -1i32 } else { old(self).decide_count() },
            final(self).repeat_up() == old(self).repeat_up(),
            final(self).repeat_down() == old(self).repeat_down(),
    {
        if !pulse(current_input, prev_input, CHARGE) && !pulse(current_input, prev_input, BOMB)
            && !pulse(current_input, prev_input, PAUSE)
        {
            return false;
        }
        if !instant {
            self.force_cancel();
        }
        true
    }

    /// Whether a decide button went down; unless `instant`, the decision
    /// then waits.
    fn decide(&mut self, current_input: InputValue, prev_input: InputValue, instant: bool) -> (r: bool)
        requires
            old(self).wf(),
        ensures
            final(self).wf(),
            r == is_decide_pressed(current_input, prev_input),
            final(self).decide_count() == if r && !instant { 1i32 } else { old(self).decide_count() },
            final(self).repeat_up() == old(self).repeat_up(),
            final(self).repeat_down() == old(self).repeat_down(),
    {
        if !pulse(current_input, prev_input, SHOT) && !pulse(current_input, prev_input, ENTER) {
            return false;
        }
        if !instant {
            self.decide_count = 1;
        }
        true
    }

    /// Cursor moves with key repeat: a direction moves when it goes down,
    /// and again every nine frames after it was held for twenty-five.
    /// `Some(true)` moves up, `Some(false)` down (down wins when both do).
    fn select(&mut self, current_input: InputValue, prev_input: InputValue) -> (r: Option<bool>)
        requires
            old(self).wf(),
        ensures
            final(self).wf(),
            final(self).decide_count() == old(self).decide_count(),
            final(self).repeat_up() == next_repeat(old(self).repeat_up(), current_input, prev_input, UP),
            final(self).repeat_down() == next_repeat(old(self).repeat_down(), current_input, prev_input, DOWN),
            r == select_spec(old(self).repeat_up(), old(self).repeat_down(), current_input, prev_input),
    {
        let mut mv: Option<bool> = None;
        if current_input.0 & UP != 0 && (prev_input.0 & UP == 0 || self.repeat_up > 0) {
            if self.repeat_up == 0 || self.repeat_up == REPEAT_START_FRAMES {
                mv = Some(true);
            }
            self.repeat_up += 1;
            if self.repeat_up > REPEAT_START_FRAMES {
                self.repeat_up = REPEAT_RESTART_FRAMES;
            }
        } else {
            self.repeat_up = 0;
        }
        if current_input.0 & DOWN != 0 && (prev_input.0 & DOWN == 0 || self.repeat_down > 0) {
            if self.repeat_down == 0 || self.repeat_down == REPEAT_START_FRAMES {
                mv = Some(false);
            }
            self.repeat_down += 1;
            if self.repeat_down > REPEAT_START_FRAMES {
                self.repeat_down = REPEAT_RESTART_FRAMES;
            }
        } else {
            self.repeat_down = 0;
        }
        mv
    }

    /// What `input` would report for these buttons, without taking them.
    pub fn peek(&self, current_input: InputValue, prev_input: InputValue) -> (r: MenuControllerInputResult)
        ensures
            r == input_spec(self.repeat_up(), self.repeat_down(), current_input, prev_input),
    {
        if pulse(current_input, prev_input, CHARGE) || pulse(current_input, prev_input, BOMB) || pulse(
            current_input,
            prev_input,
            PAUSE,
        ) {
            return MenuControllerInputResult::Cancel;
        }
        if pulse(current_input, prev_input, SHOT) || pulse(current_input, prev_input, ENTER) {
            return MenuControllerInputResult::Decide;
        }
        let down = current_input.0 & DOWN != 0 && (prev_input.0 & DOWN == 0 || self.repeat_down > 0) && (
        self.repeat_down == 0 || self.repeat_down == REPEAT_START_FRAMES);
        if down {
            return MenuControllerInputResult::Down;
        }
        let up = current_input.0 & UP != 0 && (prev_input.0 & UP == 0 || self.repeat_up > 0) && (self.repeat_up
            == 0 || self.repeat_up == REPEAT_START_FRAMES);
        if up {
            return MenuControllerInputResult::Up;
        }
        MenuControllerInputResult::Nothing
    }

    /// The pending decision (positive) or cancellation (negative) count.
    pub fn pending(&self) -> (r: i32)
        ensures
            r == self.decide_count(),
    {
        self.decide_count
    }

    /// What the buttons of this frame ask of the menu: cancelling first,
    /// then deciding, then moving the cursor. A decision or cancellation
    /// that is not `instant` waits (see `update_decide`).
    pub fn input(
        &mut self,
        current_input: InputValue,
        prev_input: InputValue,
        instant_decide: bool,
        instant_cancel: bool,
    ) -> (r: MenuControllerInputResult)
        requires
            old(self).wf(),
        ensures
            final(self).wf(),
            r == input_spec(old(self).repeat_up(), old(self).repeat_down(), current_input, prev_input),
            final(self).decide_count() == if r == MenuControllerInputResult::Cancel && !instant_cancel {
                -1i32
            } else if r == MenuControllerInputResult::Decide && !instant_decide {
                1i32
            } else {
                old(self).decide_count()
            },
            is_cancel_pressed(current_input, prev_input) || is_decide_pressed(current_input, prev_input) ==> (
            final(self).repeat_up() == old(self).repeat_up() && final(self).repeat_down() == old(self).repeat_down()),
            !is_cancel_pressed(current_input, prev_input) && !is_decide_pressed(current_input, prev_input) ==> (
            final(self).repeat_up() == next_repeat(old(self).repeat_up(), current_input, prev_input, UP)
                && final(self).repeat_down() == next_repeat(old(self).repeat_down(), current_input, prev_input, DOWN)),
    {
        if self.cancel(current_input, prev_input, instant_cancel) {
            return MenuControllerInputResult::Cancel;
        }
        if self.decide(current_input, prev_input, instant_decide) {
            return MenuControllerInputResult::Decide;
        }
        if let Some(up) = self.select(current_input, prev_input) {
            if up {
                return MenuControllerInputResult::Up;
            } else {
                return MenuControllerInputResult::Down;
            }
        }
        MenuControllerInputResult::Nothing
    }
}

/// Charge, Bomb or Pause went down.
pub open spec fn is_cancel_pressed(current: InputValue, prev: InputValue) -> bool {
    pulse_spec(current, prev, CHARGE) || pulse_spec(current, prev, BOMB) || pulse_spec(current, prev, PAUSE)
}

/// Shot or Enter went down.
pub open spec fn is_decide_pressed(current: InputValue, prev: InputValue) -> bool {
    pulse_spec(current, prev, SHOT) || pulse_spec(current, prev, ENTER)
}

/// Whether the direction is held in a way that counts this frame.
pub open spec fn is_held(count: u32, current: InputValue, prev: InputValue, flag: u32) -> bool {
    is_down(current, flag) && (!is_down(prev, flag) || count > 0)
}

/// Whether the direction moves the cursor this frame.
pub open spec fn moves(count: u32, current: InputValue, prev: InputValue, flag: u32) -> bool {
    is_held(count, current, prev, flag) && (count == 0 || count == REPEAT_START_FRAMES)
}

/// The repeat counter of a direction after this frame.
pub open spec fn next_repeat(count: u32, current: InputValue, prev: InputValue, flag: u32) -> u32 {
    if is_held(count, current, prev, flag) {
        if count + 1 > REPEAT_START_FRAMES { REPEAT_RESTART_FRAMES } else { (count + 1) as u32 }
    } else {
        0
    }
}

/// The cursor move of this frame.
pub open spec fn select_spec(up: u32, down: u32, current: InputValue, prev: InputValue) -> Option<bool> {
    if moves(down, current, prev, DOWN) {
        Some(false)
    } else if moves(up, current, prev, UP) {
        Some(true)
    } else {
        None
    }
}

/// What the buttons of this frame ask of the menu.
pub open spec fn input_spec(up: u32, down: u32, current: InputValue, prev: InputValue) -> MenuControllerInputResult {
    if is_cancel_pressed(current, prev) {
        MenuControllerInputResult::Cancel
    } else if is_decide_pressed(current, prev) {
        MenuControllerInputResult::Decide
    } else {
        match select_spec(up, down, current, prev) {
            Some(true) => MenuControllerInputResult::Up,
            Some(false) => MenuControllerInputResult::Down,
            None => MenuControllerInputResult::Nothing,
        }
    }
}

/// The repeat counter of a direction held for `k` frames, pressed afresh in
/// the first.
pub open spec fn held_counter(k: nat) -> u32
    decreases k,
{
    if k == 0 {
        0
    } else {
        let c = held_counter((k - 1) as nat);
        if c + 1 > REPEAT_START_FRAMES { REPEAT_RESTART_FRAMES } else { (c + 1) as u32 }
    }
}

proof fn lemma_held_counter(k: nat)
    ensures
        1 <= k <= 25 ==> held_counter(k) == k,
        k >= 26 ==> held_counter(k) == 17 + (k - 26) % 9,
    decreases k,
{
    if k > 0 {
        lemma_held_counter((k - 1) as nat);
        assert(held_counter(0) == 0);
    }
}

/// Law: a held direction moves the cursor in the frame it goes down, then
/// after twenty-five frames, then every nine frames: in the `k`-th frame of
/// holding it (counting from 1; the button was up before the first), it
/// moves exactly when `k == 1` or `k >= 26` with `k - 26` a multiple of
/// nine, and the counter steps as `held_counter`. With Down up, holding Up
/// so moves the cursor up and nothing else.
pub proof fn law_held_direction_repeats(k: nat, current: InputValue, prev: InputValue, flag: u32)
    requires
        k >= 1,
        is_down(current, flag),
        k == 1 ==> !is_down(prev, flag),
    ensures
        next_repeat(held_counter((k - 1) as nat), current, prev, flag) == held_counter(k),
        moves(held_counter((k - 1) as nat), current, prev, flag) <==> (k == 1 || (k >= 26 && (k - 26) % 9 == 0)),
        flag == UP && !is_down(current, DOWN) ==> select_spec(held_counter((k - 1) as nat), 0, current, prev) == if k == 1
            || (k >= 26 && (k - 26) % 9 == 0) {
            Some(true)
        } else {
            None::<bool>
        },
{
    lemma_held_counter((k - 1) as nat);
    lemma_held_counter(k);
}

} // verus!
