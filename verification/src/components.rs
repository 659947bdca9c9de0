use vstd::prelude::*;
use crate::menu::{action_view, Action, ActionView, LobbyScene, SOUND_CANCEL, SOUND_DECIDE, SOUND_SELECT};
use crate::menu_controller::MenuControllerInputResult;
use crate::text_input::{
    ascii_of, tick_spec, translate_keys, type_keys, TextInputState, TextInputStateView, TypingEnd,
};
use crate::text::{pop_char, push_char};

verus! {

/// How a frame of typing ends in a text input of a menu definition.
pub enum OnMenuInputResult {
    /// Still typing.
    Nothing,
    /// Escape: the text goes back to its default.
    Cancel,
    /// Return: the text is decided.
    Decide(String),
}

/// A line of text, with the text it starts from and goes back to on escape.
#[derive(Debug)]
pub struct TextInput {
    id: u8,
    name: &'static str,
    default_value: String,
    value: String,
    state: TextInputState,
}

/// `TextInput` as values.
#[verifier::ext_equal]
pub struct TextInputView {
    pub id: u8,
    pub name: Seq<char>,
    pub default_value: Seq<char>,
    pub value: Seq<char>,
    pub state: TextInputStateView,
}

impl View for TextInput {
    type V = TextInputView;

    closed spec fn view(&self) -> TextInputView {
        TextInputView {
            id: self.id,
            name: self.name@,
            default_value: self.default_value@,
            value: self.value@,
            state: self.state@,
        }
    }
}

/// A frame of typing: the keys that went down (or repeat) are typed;
/// escape puts the default text back.
pub open spec fn component_text_step(t: TextInputView, keys: Seq<u8>, table: Seq<u8>) -> (TextInputView, TypingEnd) {
    let (s2, vks) = tick_spec(t.state, keys);
    let (value, end) = type_keys(t.value, ascii_of(vks, table));
    let value = if end == TypingEnd::Cancelled { t.default_value } else { value };
    (TextInputView { state: s2, value, ..t }, end)
}

impl TextInput {
    /// A text input that starts from `default_value`; what is down at its
    /// first frame counts as typed.
    pub fn new(id: u8, name: &'static str, default_value: String) -> (r: TextInput)
        ensures
            r@ == (TextInputView {
                id,
                name: name@,
                default_value: default_value@,
                value: default_value@,
                state: crate::text_input::initial_state(),
            }),
    {
        TextInput { id, name, default_value: default_value.clone(), value: default_value, state: TextInputState::empty() }
    }

    /// Which text input it is.
    pub fn id(&self) -> (r: u8)
        ensures
            r == self@.id,
    {
        self.id
    }

    /// The text typed so far.
    pub fn value(&self) -> (r: &str)
        ensures
            r@ == self@.value,
    {
        self.value.as_str()
    }

    /// A frame of typing, given the keyboard snapshot and the ASCII code
    /// each virtual key types in it.
    pub fn on_input_menu(&mut self, keys: &[u8; 256], ascii_table: &[u8; 256]) -> (r: OnMenuInputResult)
        ensures
            final(self)@ == component_text_step(old(self)@, keys@, ascii_table@).0,
            match component_text_step(old(self)@, keys@, ascii_table@).1 {
                TypingEnd::Open => r is Nothing,
                TypingEnd::Cancelled => r is Cancel,
                TypingEnd::Decided => r matches OnMenuInputResult::Decide(v) && v@ == final(self)@.value,
            },
    {
        let vks = self.state.tick(keys);
        let ascii = translate_keys(&vks, ascii_table);
        let ghost v0 = self.value@;
        let ghost s2 = self.state@;
        let mut i: usize = 0;
        assert(ascii@.skip(0) =~= ascii@);
        while i < ascii.len()
            invariant
                i <= ascii@.len(),
                type_keys(v0, ascii@) == type_keys(self.value@, ascii@.skip(i as int)),
                self.id == old(self).id,
                self.name == old(self).name,
                self.default_value == old(self).default_value,
                self.state@ == s2,
                v0 == old(self)@.value,
                s2 == tick_spec(old(self)@.state, keys@).0,
                ascii@ == ascii_of(tick_spec(old(self)@.state, keys@).1, ascii_table@),
            decreases ascii.len() - i,
        {
            let c = ascii[i];
            assert(ascii@.skip(i as int)[0] == c);
            assert(ascii@.skip(i as int).drop_first() =~= ascii@.skip(i + 1));
            if 0x20 <= c && c < 0x7f {
                push_char(&mut self.value, c as char);
            } else if c == 0x08 {
                let _ = pop_char(&mut self.value);
            } else if c == 0x0d {
                let v = self.value.clone();
                assert(v@ == self.value@);
                assert(type_keys(self.value@, ascii@.skip(i as int)) == (self.value@, TypingEnd::Decided));
                assert(self@ =~= component_text_step(old(self)@, keys@, ascii_table@).0);
                return OnMenuInputResult::Decide(v);
            } else if c == 0x1b {
                self.value = self.default_value.clone();
                assert(self@ =~= component_text_step(old(self)@, keys@, ascii_table@).0);
                return OnMenuInputResult::Cancel;
            }
            i = i + 1;
        }
        assert(self@ =~= component_text_step(old(self)@, keys@, ascii_table@).0);
        OnMenuInputResult::Nothing
    }
}

/// What an item of a menu definition opens.
#[derive(Debug)]
pub enum MenuChild {
    SubMenu(MenuDefine),
    SubScene(LobbyScene),
    TextInput(Box<TextInput>),
}

/// An item of a menu definition: a label, the action reported when it is
/// decided, and what it opens.
#[derive(Debug)]
pub struct MenuItem {
    label: &'static str,
    action: Option<Action>,
    child: Option<MenuChild>,
}

/// A menu definition: items and a cursor. A decided definition has opened
/// the child of its selected item.
#[derive(Debug)]
pub struct MenuDefine {
    cursor: usize,
    decided: bool,
    items: Vec<MenuItem>,
}

/// `MenuChild` as values.
pub enum MenuChildView {
    SubMenu(MenuDefineView),
    SubScene(LobbyScene),
    TextInput(TextInputView),
}

/// `MenuItem` as values.
pub struct MenuItemView {
    pub label: Seq<char>,
    pub action: Option<ActionView>,
    pub child: Option<MenuChildView>,
}

/// `MenuDefine` as values.
#[verifier::ext_equal]
pub struct MenuDefineView {
    pub cursor: int,
    pub decided: bool,
    pub items: Seq<MenuItemView>,
}

/// The view of a child.
pub closed spec fn child_view(c: MenuChild) -> MenuChildView
    decreases c,
{
    match c {
        MenuChild::SubMenu(m) => MenuChildView::SubMenu(define_view(m)),
        MenuChild::SubScene(s) => MenuChildView::SubScene(s),
        MenuChild::TextInput(t) => MenuChildView::TextInput((*t)@),
    }
}

/// The view of an item.
pub closed spec fn component_item_view(i: MenuItem) -> MenuItemView
    decreases i,
{
    MenuItemView {
        label: i.label@,
        action: action_view(i.action),
        child: match i.child {
            Some(c) => Some(child_view(c)),
            None => None,
        },
    }
}

/// The view of a menu definition.
pub closed spec fn define_view(m: MenuDefine) -> MenuDefineView
    decreases m,
{
    MenuDefineView {
        cursor: m.cursor as int,
        decided: m.decided,
        items: Seq::new(
            m.items@.len(),
            |i: int|
                if 0 <= i < m.items@.len() {
                    component_item_view(m.items@[i])
                } else {
                    MenuItemView { label: Seq::empty(), action: None, child: None }
                },
        ),
    }
}

impl View for MenuChild {
    type V = MenuChildView;

    open spec fn view(&self) -> MenuChildView {
        child_view(*self)
    }
}

impl View for MenuItem {
    type V = MenuItemView;

    open spec fn view(&self) -> MenuItemView {
        component_item_view(*self)
    }
}

impl View for MenuDefine {
    type V = MenuDefineView;

    open spec fn view(&self) -> MenuDefineView {
        define_view(*self)
    }
}

/// The value of an optional child.
pub open spec fn child_opt_view(c: Option<MenuChild>) -> Option<MenuChildView> {
    match c {
        Some(c) => Some(c@),
        None => None,
    }
}

impl MenuItem {
    pub fn new(label: &'static str, action: Option<Action>, child: Option<MenuChild>) -> (r: MenuItem)
        ensures
            r@ == (MenuItemView { label: label@, action: action_view(action), child: child_opt_view(child) }),
    {
        MenuItem { label, action, child }
    }

    /// An item that reports action `id`.
    pub fn simple_action(label: &'static str, id: u8, play_sound: bool) -> (r: MenuItem)
        ensures
            r@ == (MenuItemView {
                label: label@,
                action: Some(ActionView { id, play_sound, value: None }),
                child: None,
            }),
    {
        MenuItem::new(label, Some(Action::new(id, play_sound, None)), None)
    }

    /// An item that leads to a screen.
    pub fn simple_sub_scene(label: &'static str, scene: LobbyScene) -> (r: MenuItem)
        ensures
            r@ == (MenuItemView { label: label@, action: None, child: Some(MenuChildView::SubScene(scene)) }),
    {
        MenuItem::new(label, None, Some(MenuChild::SubScene(scene)))
    }

    /// An item that opens a text input starting from `value`.
    pub fn text_input(label: &'static str, id: u8, name: &'static str, value: String) -> (r: MenuItem)
        ensures
            r@ == (MenuItemView {
                label: label@,
                action: None,
                child: Some(
                    MenuChildView::TextInput(
                        TextInputView {
                            id,
                            name: name@,
                            default_value: value@,
                            value: value@,
                            state: crate::text_input::initial_state(),
                        },
                    ),
                ),
            }),
    {
        let menu_child = MenuChild::TextInput(Box::new(TextInput::new(id, name, value)));
        MenuItem::new(label, None, Some(menu_child))
    }

    pub fn label(&self) -> (r: &'static str)
        ensures
            r@ == self@.label,
    {
        self.label
    }

    pub fn action(&self) -> (r: Option<&Action>)
        ensures
            match r {
                Some(a) => self@.action == Some(a@),
                None => self@.action is None,
            },
    {
        self.action.as_ref()
    }

    /// The child, to change it.
    pub fn child_mut(&mut self) -> (r: Option<&mut MenuChild>)
        ensures
            match r {
                Some(c) => old(self)@.child == Some((*c)@) && final(self)@ == (MenuItemView {
                    child: Some((*final(c))@),
                    ..old(self)@
                }),
                None => old(self)@.child is None && final(self)@ == old(self)@,
            },
    {
        match &mut self.child {
            Some(c) => Some(c),
            None => None,
        }
    }

    pub fn child(&self) -> (r: Option<&MenuChild>)
        ensures
            match r {
                Some(c) => self@.child == Some(c@),
                None => self@.child is None,
            },
    {
        self.child.as_ref()
    }
}

/// The selected item of a menu definition.
pub open spec fn selected_item_of(v: MenuDefineView) -> MenuItemView {
    v.items[v.cursor]
}

/// Whether `dig` can run: each decided definition on the way down has a
/// sub-menu under its cursor, and the last one an item.
pub open spec fn define_can_dig(v: MenuDefineView) -> bool
    decreases v,
{
    &&& 0 <= v.cursor < v.items.len()
    &&& v.decided ==> match v.items[v.cursor].child {
        Some(MenuChildView::SubMenu(sub)) => define_can_dig(sub),
        _ => false,
    }
}

/// Whether `bury` can run: each decided definition on the way down has an
/// item with a child under its cursor.
pub open spec fn define_can_bury(v: MenuDefineView) -> bool
    decreases v,
{
    v.decided ==> {
        &&& 0 <= v.cursor < v.items.len()
        &&& match v.items[v.cursor].child {
            Some(MenuChildView::SubMenu(sub)) => define_can_bury(sub),
            Some(_) => true,
            None => false,
        }
    }
}

/// Going one level deeper (see `Menu::dig`).
pub open spec fn define_dig(v: MenuDefineView) -> (MenuDefineView, Option<LobbyScene>)
    decreases v,
{
    if !v.decided {
        match v.items[v.cursor].child {
            Some(MenuChildView::SubScene(s)) => (v, Some(s)),
            _ => (MenuDefineView { decided: true, ..v }, None),
        }
    } else if 0 <= v.cursor < v.items.len() {
        match v.items[v.cursor].child {
            Some(MenuChildView::SubMenu(sub)) => {
                let (s, r) = define_dig(sub);
                let item = v.items[v.cursor];
                (
                    MenuDefineView {
                        items: v.items.update(v.cursor, MenuItemView { child: Some(MenuChildView::SubMenu(s)), ..item }),
                        ..v
                    },
                    r,
                )
            },
            _ => (v, None),
        }
    } else {
        (v, None)
    }
}

/// Going one level back up (see `Menu::bury`).
pub open spec fn define_bury(v: MenuDefineView) -> (MenuDefineView, bool)
    decreases v,
{
    if !v.decided {
        (v, false)
    } else if 0 <= v.cursor < v.items.len() {
        match v.items[v.cursor].child {
            Some(MenuChildView::SubMenu(sub)) => if !sub.decided {
                (MenuDefineView { decided: false, ..v }, true)
            } else {
                let (s, r) = define_bury(sub);
                let item = v.items[v.cursor];
                (
                    MenuDefineView {
                        items: v.items.update(v.cursor, MenuItemView { child: Some(MenuChildView::SubMenu(s)), ..item }),
                        ..v
                    },
                    r,
                )
            },
            _ => (MenuDefineView { decided: false, ..v }, true),
        }
    } else {
        (v, false)
    }
}

/// What a definition does with a frame of buttons: the definition after
/// it, the action chosen and the sound played. A cancellation reports
/// nothing here; a decision reports the selected item's action.
pub open spec fn define_input_spec(
    v: MenuDefineView,
    input_result: MenuControllerInputResult,
    ignore_decide: bool,
    play_decide_sound: bool,
) -> (MenuDefineView, Option<ActionView>, Option<u32>) {
    match input_result {
        MenuControllerInputResult::Nothing => (v, None, None),
        MenuControllerInputResult::Cancel => (v, None, Some(SOUND_CANCEL)),
        MenuControllerInputResult::Decide => if ignore_decide {
            (v, None, None)
        } else {
            (v, selected_item_of(v).action, if play_decide_sound { Some(SOUND_DECIDE) } else { None })
        },
        MenuControllerInputResult::Up => if v.cursor != 0 {
            (MenuDefineView { cursor: v.cursor - 1, ..v }, None, Some(SOUND_SELECT))
        } else {
            (v, None, None)
        },
        MenuControllerInputResult::Down => if v.cursor < v.items.len() - 1 {
            (MenuDefineView { cursor: v.cursor + 1, ..v }, None, Some(SOUND_SELECT))
        } else {
            (v, None, None)
        },
    }
}

impl MenuDefine {
    /// A definition with nothing opened.
    pub fn new(cursor: usize, items: Vec<MenuItem>) -> (r: MenuDefine)
        ensures
            r@ == (MenuDefineView { cursor: cursor as int, decided: false, items: items@.map_values(|i: MenuItem| i@) }),
    {
        let r = MenuDefine { cursor, decided: false, items };
        assert(r@.items =~= items@.map_values(|i: MenuItem| i@));
        r
    }

    pub fn cursor(&self) -> (r: usize)
        ensures
            r == self@.cursor,
    {
        self.cursor
    }

    pub fn decided(&self) -> (r: bool)
        ensures
            r == self@.decided,
    {
        self.decided
    }

    pub fn items(&self) -> (r: &Vec<MenuItem>)
        ensures
            r@.map_values(|i: MenuItem| i@) == self@.items,
    {
        assert(self.items@.map_values(|i: MenuItem| i@) =~= self@.items);
        &self.items
    }

    /// The item under the cursor.
    pub fn selected_item(&self) -> (r: &MenuItem)
        requires
            0 <= self@.cursor < self@.items.len(),
        ensures
            r@ == selected_item_of(self@),
    {
        &self.items[self.cursor]
    }

    fn items_index_mut(&mut self, index: usize) -> (r: &mut MenuItem)
        requires
            index < old(self).items@.len(),
        ensures
            *r == old(self).items@[index as int],
            final(self).items@ == old(self).items@.update(index as int, *final(r)),
            final(self).cursor == old(self).cursor,
            final(self).decided == old(self).decided,
    {
        &mut self.items[index]
    }

    /// The selected item, to change it: the definition ends up with
    /// whatever the caller leaves there, and is otherwise unchanged.
    pub fn selected_item_mut(&mut self) -> (r: &mut MenuItem)
        requires
            0 <= old(self)@.cursor < old(self)@.items.len(),
        ensures
            (*r)@ == selected_item_of(old(self)@),
            final(self)@.cursor == old(self)@.cursor,
            final(self)@.decided == old(self)@.decided,
            final(self)@.items.len() == old(self)@.items.len(),
            final(self)@.items[old(self)@.cursor] == (*final(r))@,
            forall|j: int|
                0 <= j < old(self)@.items.len() && j != old(self)@.cursor ==> final(self)@.items[j] == old(self)@.items[j],
    {
        let c = self.cursor;
        self.items_index_mut(c)
    }

    /// Opens the selected item's child, or reports the screen it leads to.
    pub fn dig(&mut self) -> (r: Option<LobbyScene>)
        requires
            define_can_dig(old(self)@),
        ensures
            (final(self)@, r) == define_dig(old(self)@),
        decreases *old(self),
    {
        if !self.decided {
            if let Some(MenuChild::SubScene(scene)) = &self.items[self.cursor].child {
                return Some(*scene);
            }
            self.decided = true;
            assert(self@.items =~= old(self)@.items);
            return None;
        }
        let c = self.cursor;
        let r = match &mut self.items[c].child {
            Some(MenuChild::SubMenu(sub_menu)) => sub_menu.dig(),
            _ => None,
        };
        assert(self@.items =~= define_dig(old(self)@).0.items);
        r
    }

    /// Closes the last opened child; `false` when nothing is open.
    pub fn bury(&mut self) -> (r: bool)
        requires
            define_can_bury(old(self)@),
        ensures
            (final(self)@, r) == define_bury(old(self)@),
        decreases *old(self),
    {
        if !self.decided {
            return false;
        }
        let c = self.cursor;
        let r = match &mut self.items[c].child {
            Some(MenuChild::SubMenu(sub_menu)) => {
                if !sub_menu.decided {
                    None
                } else {
                    Some(sub_menu.bury())
                }
            },
            _ => None,
        };
        match r {
            Some(r) => {
                assert(self@.items =~= define_bury(old(self)@).0.items);
                r
            },
            None => {
                self.decided = false;
                assert(self@.items =~= old(self)@.items);
                true
            },
        }
    }

    fn increment_cursor(&mut self) -> (r: bool)
        requires
            old(self)@.items.len() > 0,
        ensures
            r == (old(self)@.cursor < old(self)@.items.len() - 1),
            final(self)@ == (MenuDefineView { cursor: if r { old(self)@.cursor + 1 } else { old(self)@.cursor }, ..old(self)@ }),
    {
        if self.cursor >= self.items.len() - 1 {
            return false;
        }
        self.cursor += 1;
        assert(self@.items =~= old(self)@.items);
        true
    }

    fn decrement_cursor(&mut self) -> (r: bool)
        ensures
            r == (old(self)@.cursor != 0),
            final(self)@ == (MenuDefineView { cursor: if r { old(self)@.cursor - 1 } else { old(self)@.cursor }, ..old(self)@ }),
    {
        if self.cursor == 0 {
            return false;
        }
        self.cursor -= 1;
        assert(self@.items =~= old(self)@.items);
        true
    }

    /// Applies what the buttons ask of the definition; returns the action
    /// chosen, if any, and the sound to play, if any.
    pub fn input(
        &mut self,
        input_result: MenuControllerInputResult,
        ignore_decide: bool,
        play_decide_sound: bool,
    ) -> (r: (Option<Action>, Option<u32>))
        requires
            input_result == MenuControllerInputResult::Down ==> old(self)@.items.len() > 0,
            input_result == MenuControllerInputResult::Decide && !ignore_decide ==> 0 <= old(self)@.cursor
                < old(self)@.items.len(),
        ensures
            define_input_spec(old(self)@, input_result, ignore_decide, play_decide_sound) == (
                final(self)@,
                action_view(r.0),
                r.1,
            ),
    {
        match input_result {
            MenuControllerInputResult::Nothing => (None, None),
            MenuControllerInputResult::Cancel => (None, Some(SOUND_CANCEL)),
            MenuControllerInputResult::Decide => {
                if ignore_decide {
                    return (None, None);
                }
                let sound = if play_decide_sound { Some(SOUND_DECIDE) } else { None };
                let action = match self.selected_item().action() {
                    Some(a) => Some(a.duplicate()),
                    None => None,
                };
                (action, sound)
            },
            MenuControllerInputResult::Up => {
                if !self.decrement_cursor() {
                    return (None, None);
                }
                (None, Some(SOUND_SELECT))
            },
            MenuControllerInputResult::Down => {
                if !self.increment_cursor() {
                    return (None, None);
                }
                (None, Some(SOUND_SELECT))
            },
        }
    }
}

} // verus!
