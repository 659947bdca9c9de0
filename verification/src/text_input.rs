use vstd::prelude::*;
use crate::text::{pop_char, push_char};

verus! {

/// Whether a key is down in a keyboard snapshot (high bit set).
pub open spec fn key_down(keys: Seq<u8>, vk: int) -> bool {
    keys[vk] & 0x80 != 0
}

/// Whether the key went down since the previous snapshot.
pub open spec fn key_pressed(prev: Seq<u8>, current: Seq<u8>, vk: int) -> bool {
    key_down(current, vk) && !key_down(prev, vk)
}

/// The keys among the first `n` that went down, in key order.
pub open spec fn pressed_upto(prev: Seq<u8>, current: Seq<u8>, n: int) -> Seq<u8>
    decreases n,
{
    if n <= 0 {
        Seq::empty()
    } else if key_pressed(prev, current, n - 1) {
        pressed_upto(prev, current, n - 1).push((n - 1) as u8)
    } else {
        pressed_upto(prev, current, n - 1)
    }
}

/// The repeating key and its hold count after the keys among the first `n`
/// that went down: each one becomes the repeating key, with a fresh count
/// when it differs from the one before.
pub open spec fn repeat_after(prev: Seq<u8>, current: Seq<u8>, n: int, vk: u8, count: u32) -> (u8, u32)
    decreases n,
{
    if n <= 0 {
        (vk, count)
    } else {
        let (v, c) = repeat_after(prev, current, n - 1, vk, count);
        if key_pressed(prev, current, n - 1) && (n - 1) as u8 != v {
            ((n - 1) as u8, 0u32)
        } else {
            (v, c)
        }
    }
}

/// Frames a key is held before it repeats.
pub const KEY_REPEAT_FRAMES: u32 = 30;

/// The keyboard state a text input remembers between frames.
#[derive(Debug)]
pub struct TextInputState {
    prev: [u8; 256],
    current_vk: u8,
    current_vk_count: u32,
}

/// `TextInputState` as values.
#[verifier::ext_equal]
pub struct TextInputStateView {
    pub prev: Seq<u8>,
    pub current_vk: u8,
    pub current_vk_count: u32,
}

impl View for TextInputState {
    type V = TextInputStateView;

    closed spec fn view(&self) -> TextInputStateView {
        TextInputStateView { prev: self.prev@, current_vk: self.current_vk, current_vk_count: self.current_vk_count }
    }
}

/// One frame of keyboard input: the state after it, and the virtual keys
/// to type, in order (those that went down, then the held key when it has
/// repeated for long enough).
pub open spec fn tick_spec(s: TextInputStateView, current: Seq<u8>) -> (TextInputStateView, Seq<u8>) {
    let pressed = pressed_upto(s.prev, current, 256);
    let (vk, count) = repeat_after(s.prev, current, 256, s.current_vk, s.current_vk_count);
    if key_down(current, vk as int) {
        let extra = if count > KEY_REPEAT_FRAMES { seq![vk] } else { Seq::<u8>::empty() };
        let next = if count == u32::MAX { 0u32 } else { (count + 1) as u32 };
        (TextInputStateView { prev: current, current_vk: vk, current_vk_count: next }, pressed + extra)
    } else {
        (TextInputStateView { prev: current, current_vk: vk, current_vk_count: 0 }, pressed)
    }
}

/// A state that has seen no key yet.
pub open spec fn initial_state() -> TextInputStateView {
    TextInputStateView { prev: Seq::new(256, |i: int| 0u8), current_vk: 0, current_vk_count: 0 }
}

impl TextInputState {
    /// A state that has seen no key yet: what is down in the first snapshot
    /// it gets counts as typed.
    pub fn empty() -> (s: TextInputState)
        ensures
            s@ == initial_state(),
    {
        let zelf = TextInputState { prev: [0u8; 256], current_vk: 0, current_vk_count: 0 };
        assert(zelf@.prev =~= initial_state().prev);
        zelf
    }

    /// A state that starts from the given snapshot (what is down in it does
    /// not count as typed).
    pub fn new(current: &[u8; 256]) -> (s: TextInputState)
        ensures
            s@ == tick_spec(initial_state(), current@).0,
    {
        let mut zelf = TextInputState { prev: [0u8; 256], current_vk: 0, current_vk_count: 0 };
        assert(zelf@.prev =~= initial_state().prev);
        let _ = zelf.tick(current);
        zelf
    }

    /// Advances by one keyboard snapshot; returns the virtual keys to type
    /// (the caller translates them to characters). A held key repeats once
    /// per frame after thirty frames; the hold count wraps around.
    pub fn tick(&mut self, current: &[u8; 256]) -> (keys: Vec<u8>)
        ensures
            final(self)@ == tick_spec(old(self)@, current@).0,
            keys@ == tick_spec(old(self)@, current@).1,
    {
        let ghost s0 = self@;
        let mut result: Vec<u8> = Vec::new();
        let mut vk: usize = 0;
        while vk < 256
            invariant
                vk <= 256,
                self.prev@ == s0.prev,
                current@.len() == 256,
                self.prev@.len() == 256,
                result@ == pressed_upto(s0.prev, current@, vk as int),
                (self.current_vk, self.current_vk_count) == repeat_after(
                    s0.prev,
                    current@,
                    vk as int,
                    s0.current_vk,
                    s0.current_vk_count,
                ),
            decreases 256 - vk,
        {
            if current[vk] & 0x80 != 0 && self.prev[vk] & 0x80 == 0 {
                result.push(vk as u8);
                let v = vk as u8;
                if v != self.current_vk {
                    self.current_vk = v;
                    self.current_vk_count = 0;
                }
            }
            vk = vk + 1;
        }
        if current[self.current_vk as usize] & 0x80 != 0 {
            if self.current_vk_count > KEY_REPEAT_FRAMES {
                result.push(self.current_vk);
            }
            self.current_vk_count = self.current_vk_count.wrapping_add(1);
        } else {
            self.current_vk_count = 0;
        }
        self.prev = *current;
        proof {
            assert(self@.prev == current@);
        }
        result
    }
}

/// How a frame of typing ends.
pub enum OnMenuInputResult {
    /// Still typing.
    Nothing,
    /// Escape: the text input is left.
    Cancel,
    /// Return: the text is decided; the action to report, and the text.
    Decide(u8, String),
}

/// How a frame of typing ends, as values.
pub enum TypingEnd {
    Open,
    Cancelled,
    Decided,
}

/// The text after typing `keys` (ASCII codes) into `value`: printable
/// characters are appended, backspace removes the last one, and return or
/// escape end the typing (what follows them is not typed).
pub open spec fn type_keys(value: Seq<char>, keys: Seq<u8>) -> (Seq<char>, TypingEnd)
    decreases keys.len(),
{
    if keys.len() == 0 {
        (value, TypingEnd::Open)
    } else {
        let k = keys[0];
        if 0x20 <= k < 0x7f {
            type_keys(value.push(k as char), keys.drop_first())
        } else if k == 0x08 {
            type_keys(if value.len() > 0 { value.drop_last() } else { value }, keys.drop_first())
        } else if k == 0x0d {
            (value, TypingEnd::Decided)
        } else if k == 0x1b {
            (value, TypingEnd::Cancelled)
        } else {
            type_keys(value, keys.drop_first())
        }
    }
}

/// A line of text that the player types with the keyboard.
#[derive(Debug)]
pub struct TextInput {
    changed_action: u8,
    name: &'static str,
    value: String,
    state: Option<TextInputState>,
}

/// `TextInput` as values.
#[verifier::ext_equal]
pub struct TextInputView {
    pub changed_action: u8,
    pub name: Seq<char>,
    pub value: Seq<char>,
    pub state: Option<TextInputStateView>,
}

impl View for TextInput {
    type V = TextInputView;

    closed spec fn view(&self) -> TextInputView {
        TextInputView {
            changed_action: self.changed_action,
            name: self.name@,
            value: self.value@,
            state: match self.state {
                Some(s) => Some(s@),
                None => None,
            },
        }
    }
}

impl TextInput {
    /// An empty text input, which reports `changed_action` when decided.
    pub fn new(changed_action: u8, name: &'static str) -> (t: TextInput)
        ensures
            t@ == (TextInputView {
                changed_action,
                name: name@,
                value: Seq::empty(),
                state: None,
            }),
    {
        TextInput { changed_action, name, value: String::new(), state: None }
    }

    /// The text typed so far.
    pub fn value(&self) -> (r: &str)
        ensures
            r@ == self@.value,
    {
        self.value.as_str()
    }

    /// Replaces the text.
    pub fn set_value(&mut self, value: String)
        ensures
            final(self)@ == (TextInputView { value: value@, ..old(self)@ }),
    {
        self.value = value;
    }

    /// The name shown beside the text.
    pub fn name(&self) -> (r: &'static str)
        ensures
            r@ == self@.name,
    {
        self.name
    }

    /// The keyboard state; the text input must have started.
    fn state_mut(&mut self) -> (r: &mut TextInputState)
        requires
            old(self)@.state is Some,
        ensures
            Some((*r)@) == old(self)@.state,
            final(self)@ == (TextInputView { state: Some((*final(r))@), ..old(self)@ }),
    {
        self.state.as_mut().unwrap()
    }

    /// The first half of a frame of typing. The first frame only records the
    /// keyboard (`None`: nothing is typed); later frames return the virtual
    /// keys to type, which the caller translates to ASCII codes and hands to
    /// `type_text`.
    pub fn read_keys(&mut self, keys: &[u8; 256]) -> (r: Option<Vec<u8>>)
        ensures
            old(self)@.state is None ==> r is None && final(self)@ == (TextInputView {
                state: Some(tick_spec(initial_state(), keys@).0),
                ..old(self)@
            }),
            old(self)@.state matches Some(s) ==> r matches Some(v) && v@ == tick_spec(s, keys@).1
                && final(self)@ == (TextInputView { state: Some(tick_spec(s, keys@).0), ..old(self)@ }),
    {
        if self.state.is_none() {
            self.state = Some(TextInputState::new(keys));
            return None;
        }
        let typed = self.state_mut().tick(keys);
        Some(typed)
    }

    /// The second half of a frame of typing: types the ASCII codes in order.
    pub fn type_text(&mut self, ascii: &[u8]) -> (r: OnMenuInputResult)
        ensures
            final(self)@ == (TextInputView { value: type_keys(old(self)@.value, ascii@).0, ..old(self)@ }),
            match type_keys(old(self)@.value, ascii@).1 {
                TypingEnd::Open => r is Nothing,
                TypingEnd::Cancelled => r is Cancel,
                TypingEnd::Decided => r matches OnMenuInputResult::Decide(a, v) && a == old(self)@.changed_action
                    && v@ == type_keys(old(self)@.value, ascii@).0,
            },
    {
        let ghost v0 = self.value@;
        let mut i: usize = 0;
        assert(ascii@.skip(0) =~= ascii@);
        while i < ascii.len()
            invariant
                i <= ascii@.len(),
                v0 == old(self)@.value,
                type_keys(v0, ascii@) == type_keys(self.value@, ascii@.skip(i as int)),
                self.changed_action == old(self).changed_action,
                self.name == old(self).name,
                self.state == old(self).state,
            decreases ascii.len() - i,
        {
            let c = ascii[i];
            assert(ascii@.skip(i as int)[0] == c);
            assert(ascii@.skip(i as int).drop_first() =~= ascii@.skip(i + 1));
            if 0x20 <= c && c < 0x7f {
                push_char(&mut self.value, c as char);
            } else if c == 0x08 {
                let _ = pop_char(&mut self.value);
            } else if c == 0x0d {
                let v = self.value.clone();
                assert(v@ == self.value@);
                assert(type_keys(self.value@, ascii@.skip(i as int)) == (self.value@, TypingEnd::Decided));
                assert(self@ =~= (TextInputView { value: type_keys(old(self)@.value, ascii@).0, ..old(self)@ }));
                return OnMenuInputResult::Decide(self.changed_action, v);
            } else if c == 0x1b {
                assert(self@ =~= (TextInputView { value: type_keys(old(self)@.value, ascii@).0, ..old(self)@ }));
                return OnMenuInputResult::Cancel;
            }
            i = i + 1;
        }
        OnMenuInputResult::Nothing
    }
}

/// The ASCII codes of virtual keys, through a table from virtual key to
/// ASCII code for the current keyboard state (0: the key types nothing).
pub open spec fn ascii_of(vks: Seq<u8>, table: Seq<u8>) -> Seq<u8>
    decreases vks.len(),
{
    if vks.len() == 0 {
        Seq::empty()
    } else {
        let a = table[vks.last() as int];
        let rest = ascii_of(vks.drop_last(), table);
        if a != 0 {
            rest.push(a)
        } else {
            rest
        }
    }
}

/// Looks up the ASCII code of each virtual key, dropping those that type
/// nothing.
pub fn translate_keys(vks: &Vec<u8>, table: &[u8; 256]) -> (r: Vec<u8>)
    ensures
        r@ == ascii_of(vks@, table@),
{
    let mut r: Vec<u8> = Vec::new();
    let mut i: usize = 0;
    while i < vks.len()
        invariant
            i <= vks@.len(),
            table@.len() == 256,
            r@ == ascii_of(vks@.take(i as int), table@),
        decreases vks.len() - i,
    {
        let a = table[vks[i] as usize];
        assert(vks@.take(i + 1).drop_last() =~= vks@.take(i as int));
        if a != 0 {
            r.push(a);
        }
        i = i + 1;
    }
    assert(vks@.take(vks@.len() as int) =~= vks@);
    r
}

/// `r` reports how typing ended: for a decision, the action to report and
/// the text.
pub open spec fn typing_result(r: OnMenuInputResult, end: TypingEnd, changed_action: u8, value: Seq<char>) -> bool {
    match end {
        TypingEnd::Open => r is Nothing,
        TypingEnd::Cancelled => r is Cancel,
        TypingEnd::Decided => r matches OnMenuInputResult::Decide(a, v) && a == changed_action && v@ == value,
    }
}

/// One frame of a text input: the first frame only records the keyboard;
/// later frames type the keys that went down (or repeat).
pub open spec fn text_input_step(t: TextInputView, keys: Seq<u8>, table: Seq<u8>) -> (TextInputView, TypingEnd) {
    match t.state {
        None => (TextInputView { state: Some(tick_spec(initial_state(), keys).0), ..t }, TypingEnd::Open),
        Some(s) => {
            let (s2, vks) = tick_spec(s, keys);
            let (value, end) = type_keys(t.value, ascii_of(vks, table));
            (TextInputView { state: Some(s2), value, ..t }, end)
        },
    }
}

impl TextInput {
    /// One frame of typing, given the keyboard snapshot and the ASCII code
    /// that each virtual key types in it.
    pub fn on_input_menu(&mut self, keys: &[u8; 256], ascii_table: &[u8; 256]) -> (r: OnMenuInputResult)
        ensures
            final(self)@ == text_input_step(old(self)@, keys@, ascii_table@).0,
            typing_result(
                r,
                text_input_step(old(self)@, keys@, ascii_table@).1,
                old(self)@.changed_action,
                text_input_step(old(self)@, keys@, ascii_table@).0.value,
            ),
    {
        match self.read_keys(keys) {
            None => OnMenuInputResult::Nothing,
            Some(vks) => {
                let ascii = translate_keys(&vks, ascii_table);
                self.type_text(ascii.as_slice())
            },
        }
    }
}

/// Law: a printable character typed and then erased leaves the text as it
/// was, and the typing goes on.
pub proof fn law_type_then_erase(value: Seq<char>, c: u8)
    requires
        0x20 <= c < 0x7f,
    ensures
        type_keys(value, seq![c, 0x08u8]) == (value, TypingEnd::Open),
{
    reveal_with_fuel(type_keys, 3);
    let keys = seq![c, 0x08u8];
    assert(keys.drop_first() =~= seq![0x08u8]);
    assert(seq![0x08u8].drop_first() =~= Seq::<u8>::empty());
    assert(value.push(c as char).drop_last() =~= value);
}

/// Law: typing ends at the first Return or Escape among the keys: Escape
/// cancels, Return decides, and with neither the typing goes on.
pub proof fn law_first_end_key_decides(value: Seq<char>, keys: Seq<u8>, i: int)
    requires
        0 <= i <= keys.len(),
        forall|j: int| 0 <= j < i ==> #[trigger] keys[j] != 0x0d && keys[j] != 0x1b,
        i < keys.len() ==> keys[i] == 0x0d || keys[i] == 0x1b,
    ensures
        type_keys(value, keys).1 == if i == keys.len() {
            TypingEnd::Open
        } else if keys[i] == 0x1b {
            TypingEnd::Cancelled
        } else {
            TypingEnd::Decided
        },
    decreases keys.len(),
{
    if keys.len() > 0 && i > 0 {
        let k = keys[0];
        let rest = keys.drop_first();
        assert forall|j: int| 0 <= j < i - 1 implies #[trigger] rest[j] != 0x0d && rest[j] != 0x1b by {
            assert(rest[j] == keys[j + 1]);
        }
        let next = if 0x20 <= k < 0x7f {
            value.push(k as char)
        } else if k == 0x08 {
            if value.len() > 0 { value.drop_last() } else { value }
        } else {
            value
        };
        law_first_end_key_decides(next, rest, i - 1);
    }
}

} // verus!
