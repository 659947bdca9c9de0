use vstd::prelude::*;
use crate::menu_controller::MenuControllerInputResult;
use crate::text_input::{text_input_step, typing_result, OnMenuInputResult, TextInput, TextInputView};

verus! {

/// The sound of a decision.
pub const SOUND_DECIDE: u32 = 0x07;
/// The sound of a cancellation.
pub const SOUND_CANCEL: u32 = 0x09;
/// The sound of a cursor move.
pub const SOUND_SELECT: u32 = 0x0a;

/// An action the player chose in a menu.
#[derive(Debug)]
pub struct Action {
    id: u8,
    play_sound: bool,
    value: Option<String>,
}

/// `Action` as values.
pub struct ActionView {
    pub id: u8,
    pub play_sound: bool,
    pub value: Option<Seq<char>>,
}

impl View for Action {
    type V = ActionView;

    closed spec fn view(&self) -> ActionView {
        ActionView {
            id: self.id,
            play_sound: self.play_sound,
            value: match self.value {
                Some(v) => Some(v@),
                None => None,
            },
        }
    }
}

impl Action {
    pub fn new(id: u8, play_sound: bool, value: Option<String>) -> (a: Action)
        ensures
            a@ == (ActionView {
                id,
                play_sound,
                value: match value {
                    Some(v) => Some(v@),
                    None => None,
                },
            }),
    {
        Action { id, play_sound, value }
    }

    /// A copy.
    pub fn duplicate(&self) -> (r: Action)
        ensures
            r@ == self@,
    {
        Action {
            id: self.id,
            play_sound: self.play_sound,
            value: match &self.value {
                Some(v) => Some(v.clone()),
                None => None,
            },
        }
    }

    /// Which action it is.
    pub fn id(&self) -> (r: u8)
        ensures
            r == self@.id,
    {
        self.id
    }

    /// Whether the decision sound is played.
    pub fn play_sound(&self) -> (r: bool)
        ensures
            r == self@.play_sound,
    {
        self.play_sound
    }

    /// The text that goes with the action (the text a text input decided on).
    pub fn value(&self) -> (r: Option<&str>)
        ensures
            match r {
                Some(v) => self@.value == Some(v@),
                None => self@.value is None,
            },
    {
        match &self.value {
            Some(v) => Some(v.as_str()),
            None => None,
        }
    }
}

/// The screens of the in-game lobby.
#[derive(Clone, Copy, Debug, PartialEq, Eq, Structural)]
pub enum LobbyScene {
    Root,
    SharedRoom,
    ReservedRoom,
    PureP2pHost,
    PureP2pGuest,
    PureP2pSpectator,
}

/// An item that reports an action when decided.
#[derive(Debug)]
pub struct MenuPlainItem {
    label: &'static str,
    enabled: bool,
    decided_action: u8,
    play_sound: bool,
}

/// An item that opens a sub-menu.
#[derive(Debug)]
pub struct MenuSubMenuItem {
    label: &'static str,
    enabled: bool,
    decided_action: Option<u8>,
    sub_menu: Menu,
}

/// An item that opens a text input.
#[derive(Debug)]
pub struct MenuTextInputItem {
    label: &'static str,
    enabled: bool,
    decided_action: u8,
    text_input: Box<TextInput>,
}

/// An item that leads to another screen of the lobby.
#[derive(Debug)]
pub struct MenuSubSceneItem {
    label: &'static str,
    enabled: bool,
    sub_scene: LobbyScene,
}

/// An item of a menu.
#[derive(Debug)]
pub enum MenuItem {
    Plain(MenuPlainItem),
    SubMenu(MenuSubMenuItem),
    TextInput(MenuTextInputItem),
    SubScene(MenuSubSceneItem),
}

/// A menu: a title, items and a cursor. A decided menu has opened its
/// selected item (a sub-menu or a text input).
#[derive(Debug)]
pub struct Menu {
    title: &'static str,
    canceled_action: Option<u8>,
    items: Vec<MenuItem>,
    cursor: usize,
    decided: bool,
}

/// `MenuItem` as values.
#[verifier::ext_equal]
pub enum MenuItemView {
    Plain { label: Seq<char>, enabled: bool, decided_action: u8, play_sound: bool },
    SubMenu { label: Seq<char>, enabled: bool, decided_action: Option<u8>, sub_menu: MenuView },
    TextInput { label: Seq<char>, enabled: bool, decided_action: u8, text_input: TextInputView },
    SubScene { label: Seq<char>, enabled: bool, sub_scene: LobbyScene },
}

/// `Menu` as values.
#[verifier::ext_equal]
pub struct MenuView {
    pub title: Seq<char>,
    pub canceled_action: Option<u8>,
    pub items: Seq<MenuItemView>,
    pub cursor: int,
    pub decided: bool,
}

/// The view of an item.
pub closed spec fn item_view(item: MenuItem) -> MenuItemView
    decreases item,
{
    match item {
        MenuItem::Plain(i) => MenuItemView::Plain {
            label: i.label@,
            enabled: i.enabled,
            decided_action: i.decided_action,
            play_sound: i.play_sound,
        },
        MenuItem::SubMenu(i) => MenuItemView::SubMenu {
            label: i.label@,
            enabled: i.enabled,
            decided_action: i.decided_action,
            sub_menu: menu_view(i.sub_menu),
        },
        MenuItem::TextInput(i) => MenuItemView::TextInput {
            label: i.label@,
            enabled: i.enabled,
            decided_action: i.decided_action,
            text_input: (*i.text_input)@,
        },
        MenuItem::SubScene(i) => MenuItemView::SubScene {
            label: i.label@,
            enabled: i.enabled,
            sub_scene: i.sub_scene,
        },
    }
}

/// The view of a menu.
pub closed spec fn menu_view(m: Menu) -> MenuView
    decreases m,
{
    MenuView {
        title: m.title@,
        canceled_action: m.canceled_action,
        items: Seq::new(
            m.items@.len(),
            |i: int|
                if 0 <= i < m.items@.len() {
                    item_view(m.items@[i])
                } else {
                    MenuItemView::SubScene { label: Seq::empty(), enabled: false, sub_scene: LobbyScene::Root }
                },
        ),
        cursor: m.cursor as int,
        decided: m.decided,
    }
}

impl View for MenuItem {
    type V = MenuItemView;

    open spec fn view(&self) -> MenuItemView {
        item_view(*self)
    }
}

impl View for Menu {
    type V = MenuView;

    open spec fn view(&self) -> MenuView {
        menu_view(*self)
    }
}

/// The label of an item.
pub open spec fn label_of(item: MenuItemView) -> Seq<char> {
    match item {
        MenuItemView::Plain { label, .. } => label,
        MenuItemView::SubMenu { label, .. } => label,
        MenuItemView::TextInput { label, .. } => label,
        MenuItemView::SubScene { label, .. } => label,
    }
}

/// Whether an item is enabled.
pub open spec fn enabled_of(item: MenuItemView) -> bool {
    match item {
        MenuItemView::Plain { enabled, .. } => enabled,
        MenuItemView::SubMenu { enabled, .. } => enabled,
        MenuItemView::TextInput { enabled, .. } => enabled,
        MenuItemView::SubScene { enabled, .. } => enabled,
    }
}

/// The item with another label.
pub open spec fn with_label(item: MenuItemView, l: Seq<char>) -> MenuItemView {
    match item {
        MenuItemView::Plain { label, enabled, decided_action, play_sound } =>
            MenuItemView::Plain { label: l, enabled, decided_action, play_sound },
        MenuItemView::SubMenu { label, enabled, decided_action, sub_menu } =>
            MenuItemView::SubMenu { label: l, enabled, decided_action, sub_menu },
        MenuItemView::TextInput { label, enabled, decided_action, text_input } =>
            MenuItemView::TextInput { label: l, enabled, decided_action, text_input },
        MenuItemView::SubScene { label, enabled, sub_scene } =>
            MenuItemView::SubScene { label: l, enabled, sub_scene },
    }
}

/// The item, enabled or disabled.
pub open spec fn with_enabled(item: MenuItemView, e: bool) -> MenuItemView {
    match item {
        MenuItemView::Plain { label, enabled, decided_action, play_sound } =>
            MenuItemView::Plain { label, enabled: e, decided_action, play_sound },
        MenuItemView::SubMenu { label, enabled, decided_action, sub_menu } =>
            MenuItemView::SubMenu { label, enabled: e, decided_action, sub_menu },
        MenuItemView::TextInput { label, enabled, decided_action, text_input } =>
            MenuItemView::TextInput { label, enabled: e, decided_action, text_input },
        MenuItemView::SubScene { label, enabled, sub_scene } =>
            MenuItemView::SubScene { label, enabled: e, sub_scene },
    }
}

/// The action an item reports when decided.
pub open spec fn decided_action_of(item: MenuItemView) -> Option<ActionView> {
    match item {
        MenuItemView::Plain { decided_action, play_sound, .. } =>
            Some(ActionView { id: decided_action, play_sound, value: None }),
        MenuItemView::SubMenu { decided_action, .. } => match decided_action {
            Some(a) => Some(ActionView { id: a, play_sound: true, value: None }),
            None => None,
        },
        MenuItemView::TextInput { decided_action, text_input, .. } =>
            Some(ActionView { id: decided_action, play_sound: true, value: Some(text_input.value) }),
        MenuItemView::SubScene { .. } => None,
    }
}

impl MenuItem {
    /// An item that reports `decided_action` when decided.
    pub fn plain(label: &'static str, decided_action: u8, play_sound: bool) -> (r: MenuItem)
        ensures
            r@ == (MenuItemView::Plain { label: label@, enabled: true, decided_action, play_sound }),
    {
        MenuItem::Plain(MenuPlainItem { label, enabled: true, decided_action, play_sound })
    }

    /// An item that opens `sub_menu` (and reports `decided_action`, if any).
    pub fn sub_menu(label: &'static str, decided_action: Option<u8>, sub_menu: Menu) -> (r: MenuItem)
        ensures
            r@ == (MenuItemView::SubMenu { label: label@, enabled: true, decided_action, sub_menu: sub_menu@ }),
    {
        MenuItem::SubMenu(MenuSubMenuItem { label, enabled: true, decided_action, sub_menu })
    }

    /// An item that leads to `sub_scene`.
    pub fn sub_scene(label: &'static str, sub_scene: LobbyScene) -> (r: MenuItem)
        ensures
            r@ == (MenuItemView::SubScene { label: label@, enabled: true, sub_scene }),
    {
        MenuItem::SubScene(MenuSubSceneItem { label, enabled: true, sub_scene })
    }

    /// An item that opens an empty text input named `name`; deciding the
    /// item reports `decided_action`, deciding the text `changed_action`.
    pub fn text_input(label: &'static str, decided_action: u8, changed_action: u8, name: &'static str) -> (r: MenuItem)
        ensures
            r@ == (MenuItemView::TextInput {
                label: label@,
                enabled: true,
                decided_action,
                text_input: TextInputView { changed_action, name: name@, value: Seq::empty(), state: None },
            }),
    {
        MenuItem::TextInput(MenuTextInputItem {
            label,
            enabled: true,
            decided_action,
            text_input: Box::new(TextInput::new(changed_action, name)),
        })
    }

    /// Replaces the text of a text input item (other items are left alone).
    pub fn set_text_value(&mut self, value: String)
        ensures
            final(self)@ == match old(self)@ {
                MenuItemView::TextInput { label, enabled, decided_action, text_input } => MenuItemView::TextInput {
                    label,
                    enabled,
                    decided_action,
                    text_input: TextInputView { value: value@, ..text_input },
                },
                other => other,
            },
    {
        match self {
            MenuItem::TextInput(item) => item.text_input.set_value(value),
            _ => {},
        }
    }

    /// Whether it is a plain item.
    pub fn is_plain(&self) -> (r: bool)
        ensures
            r == (self@ is Plain),
    {
        match self {
            MenuItem::Plain(_) => true,
            _ => false,
        }
    }

    /// The label.
    pub fn label(&self) -> (r: &str)
        ensures
            r@ == label_of(self@),
    {
        match self {
            MenuItem::Plain(item) => item.label,
            MenuItem::SubMenu(item) => item.label,
            MenuItem::TextInput(item) => item.label,
            MenuItem::SubScene(item) => item.label,
        }
    }

    /// Replaces the label.
    pub fn set_label(&mut self, label: &'static str)
        ensures
            final(self)@ == with_label(old(self)@, label@),
    {
        match self {
            MenuItem::Plain(item) => item.label = label,
            MenuItem::SubMenu(item) => item.label = label,
            MenuItem::TextInput(item) => item.label = label,
            MenuItem::SubScene(item) => item.label = label,
        }
    }

    /// Whether the item can be chosen.
    pub fn enabled(&self) -> (r: bool)
        ensures
            r == enabled_of(self@),
    {
        match self {
            MenuItem::Plain(item) => item.enabled,
            MenuItem::SubMenu(item) => item.enabled,
            MenuItem::TextInput(item) => item.enabled,
            MenuItem::SubScene(item) => item.enabled,
        }
    }

    /// Enables or disables the item.
    pub fn set_enabled(&mut self, enabled: bool)
        ensures
            final(self)@ == with_enabled(old(self)@, enabled),
    {
        match self {
            MenuItem::Plain(item) => item.enabled = enabled,
            MenuItem::SubMenu(item) => item.enabled = enabled,
            MenuItem::TextInput(item) => item.enabled = enabled,
            MenuItem::SubScene(item) => item.enabled = enabled,
        }
    }

    /// The action the item reports when decided.
    pub fn decided_action(&self) -> (r: Option<Action>)
        ensures
            match r {
                Some(a) => decided_action_of(self@) == Some(a@),
                None => decided_action_of(self@) is None,
            },
    {
        match self {
            MenuItem::Plain(item) => Some(Action::new(item.decided_action, item.play_sound, None)),
            MenuItem::SubMenu(item) => match item.decided_action {
                Some(a) => Some(Action::new(a, true, None)),
                None => None,
            },
            MenuItem::TextInput(item) => Some(Action::new(
                item.decided_action,
                true,
                Some(item.text_input.value().to_owned()),
            )),
            MenuItem::SubScene(_) => None,
        }
    }
}

/// The selected item of a menu.
pub open spec fn selected_of(v: MenuView) -> MenuItemView {
    v.items[v.cursor]
}

/// `after` is `before` with the item at `i` replaced by `item`.
pub open spec fn replaced_at(before: MenuView, after: MenuView, i: int, item: MenuItemView) -> bool {
    &&& after.title == before.title
    &&& after.canceled_action == before.canceled_action
    &&& after.cursor == before.cursor
    &&& after.decided == before.decided
    &&& after.items.len() == before.items.len()
    &&& after.items[i] == item
    &&& forall|j: int| 0 <= j < before.items.len() && j != i ==> after.items[j] == before.items[j]
}

/// A fresh menu without sub-menus is well-formed when it has items and
/// its cursor is on one.
pub proof fn lemma_flat_menu_wf(v: MenuView)
    requires
        0 < v.items.len(),
        0 <= v.cursor < v.items.len(),
        !v.decided,
        forall|i: int| 0 <= i < v.items.len() ==> !(#[trigger] v.items[i] is SubMenu),
    ensures
        menu_wf(v),
{
    assert forall|i: int| 0 <= i < v.items.len() implies #[trigger] menu_item_wf(v, i) by {
        assert(!(v.items[i] is SubMenu));
    }
    lemma_menu_wf(v);
}

/// `replaced_at` pins the menu down.
pub proof fn lemma_replaced_at(before: MenuView, after: MenuView, i: int, item: MenuItemView)
    requires
        0 <= i < before.items.len(),
        replaced_at(before, after, i, item),
    ensures
        after == (MenuView { items: before.items.update(i, item), ..before }),
{
    assert(after.items =~= before.items.update(i, item));
}

/// A well-formed menu: it has items and the cursor is on one of them; a
/// decided menu has opened a sub-menu or a text input; every sub-menu is
/// well-formed, and only the opened one may be decided.
pub open spec fn menu_wf(v: MenuView) -> bool
    decreases v, 2int, 0int,
{
    &&& 0 < v.items.len()
    &&& 0 <= v.cursor < v.items.len()
    &&& v.decided ==> (v.items[v.cursor] is SubMenu || v.items[v.cursor] is TextInput)
    &&& items_wf(v, v.items.len() as int)
}

/// The first `n` items of a menu are well-formed.
pub open spec fn items_wf(v: MenuView, n: int) -> bool
    decreases v, 1int, n,
{
    if n <= 0 {
        true
    } else {
        items_wf(v, n - 1) && menu_item_wf(v, n - 1)
    }
}

/// The item at `i` of a menu: a sub-menu is well-formed, and only the
/// opened one may be decided.
pub open spec fn menu_item_wf(v: MenuView, i: int) -> bool
    decreases v, 0int, 0int,
{
    0 <= i < v.items.len() ==> match v.items[i] {
        MenuItemView::SubMenu { sub_menu, .. } => menu_wf(sub_menu) && ((i != v.cursor || !v.decided)
            ==> !sub_menu.decided),
        _ => true,
    }
}

/// `items_wf` item by item.
pub proof fn lemma_items_wf(v: MenuView, n: int)
    requires
        0 <= n,
    ensures
        items_wf(v, n) <==> forall|i: int| 0 <= i < n ==> #[trigger] menu_item_wf(v, i),
    decreases n,
{
    if n > 0 {
        lemma_items_wf(v, n - 1);
        assert(items_wf(v, n) == (items_wf(v, n - 1) && menu_item_wf(v, n - 1)));
        if forall|i: int| 0 <= i < n ==> #[trigger] menu_item_wf(v, i) {
            assert(menu_item_wf(v, n - 1));
        }
    }
}

/// `menu_wf` with its items taken one by one.
pub proof fn lemma_menu_wf(v: MenuView)
    ensures
        menu_wf(v) <==> {
            &&& 0 < v.items.len()
            &&& 0 <= v.cursor < v.items.len()
            &&& v.decided ==> (v.items[v.cursor] is SubMenu || v.items[v.cursor] is TextInput)
            &&& forall|i: int| 0 <= i < v.items.len() ==> #[trigger] menu_item_wf(v, i)
        },
{
    lemma_items_wf(v, v.items.len() as int);
}

/// Whether `dig` can run: the cursor of each decided menu on the way down
/// is on a sub-menu, and the cursor of the last one is on an item.
pub open spec fn can_dig(v: MenuView) -> bool
    decreases v,
{
    &&& 0 <= v.cursor < v.items.len()
    &&& v.decided ==> match v.items[v.cursor] {
        MenuItemView::SubMenu { sub_menu, .. } => can_dig(sub_menu),
        _ => false,
    }
}

/// Whether the cursor of each decided menu on the way down is on an item.
pub open spec fn can_bury(v: MenuView) -> bool
    decreases v,
{
    v.decided ==> {
        &&& 0 <= v.cursor < v.items.len()
        &&& match v.items[v.cursor] {
            MenuItemView::SubMenu { sub_menu, .. } => can_bury(sub_menu),
            _ => true,
        }
    }
}

/// Going one level deeper: the first undecided menu on the way down opens
/// its selected item; a screen item is not opened but reported.
pub open spec fn dig_view(v: MenuView) -> (MenuView, Option<LobbyScene>)
    decreases v,
{
    if !v.decided {
        match v.items[v.cursor] {
            MenuItemView::SubScene { sub_scene, .. } => (v, Some(sub_scene)),
            _ => (MenuView { decided: true, ..v }, None),
        }
    } else if 0 <= v.cursor < v.items.len() {
        match v.items[v.cursor] {
            MenuItemView::SubMenu { label, enabled, decided_action, sub_menu } => {
                let (s, r) = dig_view(sub_menu);
                (
                    MenuView {
                        items: v.items.update(
                            v.cursor,
                            MenuItemView::SubMenu { label, enabled, decided_action, sub_menu: s },
                        ),
                        ..v
                    },
                    r,
                )
            },
            _ => (v, None),
        }
    } else {
        (v, None)
    }
}

/// Going one level back up: the last decided menu on the way down closes
/// its item. `false` when the menu itself is not decided (nothing to close).
pub open spec fn bury_view(v: MenuView) -> (MenuView, bool)
    decreases v,
{
    if !v.decided {
        (v, false)
    } else if 0 <= v.cursor < v.items.len() {
        match v.items[v.cursor] {
            MenuItemView::SubMenu { label, enabled, decided_action, sub_menu } => {
                if !sub_menu.decided {
                    (MenuView { decided: false, ..v }, true)
                } else {
                    let (s, r) = bury_view(sub_menu);
                    (
                        MenuView {
                            items: v.items.update(
                                v.cursor,
                                MenuItemView::SubMenu { label, enabled, decided_action, sub_menu: s },
                            ),
                            ..v
                        },
                        r,
                    )
                }
            },
            _ => (MenuView { decided: false, ..v }, true),
        }
    } else {
        (v, false)
    }
}

/// What the player sees of a menu tree.
pub enum CurrentSceneView {
    /// A menu (the first undecided one on the way down).
    Menu(MenuView),
    /// A screen item (never opened in a well-formed tree).
    SubScene(LobbyScene),
    /// An opened text input, with the label of its item.
    TextInput(Seq<char>, TextInputView),
    /// A decided menu whose cursor is on a plain item or out of range.
    Invalid,
}

/// What is on screen: following the cursor of each decided menu down to
/// the first undecided menu, or to the opened text input.
pub open spec fn current_scene(v: MenuView) -> CurrentSceneView
    decreases v,
{
    if !v.decided {
        CurrentSceneView::Menu(v)
    } else if 0 <= v.cursor < v.items.len() {
        match v.items[v.cursor] {
            MenuItemView::SubMenu { sub_menu, .. } => current_scene(sub_menu),
            MenuItemView::SubScene { sub_scene, .. } => CurrentSceneView::SubScene(sub_scene),
            MenuItemView::TextInput { label, text_input, .. } => CurrentSceneView::TextInput(label, text_input),
            MenuItemView::Plain { .. } => CurrentSceneView::Invalid,
        }
    } else {
        CurrentSceneView::Invalid
    }
}

/// The tree with the menu on screen replaced by `m`.
pub open spec fn with_current_menu(v: MenuView, m: MenuView) -> MenuView
    decreases v,
{
    if !v.decided {
        m
    } else if 0 <= v.cursor < v.items.len() {
        match v.items[v.cursor] {
            MenuItemView::SubMenu { label, enabled, decided_action, sub_menu } => MenuView {
                items: v.items.update(
                    v.cursor,
                    MenuItemView::SubMenu { label, enabled, decided_action, sub_menu: with_current_menu(sub_menu, m) },
                ),
                ..v
            },
            _ => v,
        }
    } else {
        v
    }
}

/// The tree with the text input on screen replaced by `t`.
pub open spec fn with_current_text(v: MenuView, t: TextInputView) -> MenuView
    decreases v,
{
    if !v.decided {
        v
    } else if 0 <= v.cursor < v.items.len() {
        match v.items[v.cursor] {
            MenuItemView::SubMenu { label, enabled, decided_action, sub_menu } => MenuView {
                items: v.items.update(
                    v.cursor,
                    MenuItemView::SubMenu { label, enabled, decided_action, sub_menu: with_current_text(sub_menu, t) },
                ),
                ..v
            },
            MenuItemView::TextInput { label, enabled, decided_action, text_input } => MenuView {
                items: v.items.update(v.cursor, MenuItemView::TextInput { label, enabled, decided_action, text_input: t }),
                ..v
            },
            _ => v,
        }
    } else {
        v
    }
}

/// The cursor of each decided menu on the way down is on an item.
pub open spec fn path_ok(v: MenuView) -> bool
    decreases v,
{
    v.decided ==> {
        &&& 0 <= v.cursor < v.items.len()
        &&& match v.items[v.cursor] {
            MenuItemView::SubMenu { sub_menu, .. } => path_ok(sub_menu),
            _ => true,
        }
    }
}

/// The value of an optional action.
pub open spec fn action_view(a: Option<Action>) -> Option<ActionView> {
    match a {
        Some(a) => Some(a@),
        None => None,
    }
}

/// In a well-formed tree the path down stays on items, `bury` can run,
/// and what is on screen is a well-formed undecided menu (which `dig` can
/// reach) or a text input.
pub proof fn lemma_wf_path(v: MenuView)
    requires
        menu_wf(v),
    ensures
        path_ok(v),
        can_bury(v),
        current_scene(v) is Menu || current_scene(v) is TextInput,
        current_scene(v) matches CurrentSceneView::Menu(m) ==> menu_wf(m) && !m.decided && can_dig(v),
    decreases v,
{
    lemma_menu_wf(v);
    if v.decided {
        assert(menu_item_wf(v, v.cursor));
        match v.items[v.cursor] {
            MenuItemView::SubMenu { sub_menu, .. } => {
                lemma_wf_path(sub_menu);
            },
            _ => {},
        }
    }
}

/// Opening the selected item of the menu on screen (a sub-menu, a text
/// input or a screen item, never a plain item) keeps the tree well-formed.
pub proof fn lemma_dig_keeps_wf(v: MenuView)
    requires
        menu_wf(v),
        current_scene(v) matches CurrentSceneView::Menu(m) && !(selected_of(m) is Plain),
    ensures
        menu_wf(dig_view(v).0),
    decreases v,
{
    lemma_menu_wf(v);
    let w = dig_view(v).0;
    if v.decided {
        assert(menu_item_wf(v, v.cursor));
        match v.items[v.cursor] {
            MenuItemView::SubMenu { sub_menu, .. } => {
                lemma_dig_keeps_wf(sub_menu);
            },
            _ => {},
        }
    }
    assert forall|i: int| 0 <= i < w.items.len() implies #[trigger] menu_item_wf(w, i) by {
        assert(menu_item_wf(v, i));
    }
    lemma_menu_wf(w);
}

/// Closing the last opened item keeps the tree well-formed.
pub proof fn lemma_bury_keeps_wf(v: MenuView)
    requires
        menu_wf(v),
    ensures
        menu_wf(bury_view(v).0),
    decreases v,
{
    lemma_menu_wf(v);
    let w = bury_view(v).0;
    if v.decided {
        assert(menu_item_wf(v, v.cursor));
        match v.items[v.cursor] {
            MenuItemView::SubMenu { sub_menu, .. } => {
                if sub_menu.decided {
                    lemma_bury_keeps_wf(sub_menu);
                }
            },
            _ => {},
        }
    }
    assert forall|i: int| 0 <= i < w.items.len() implies #[trigger] menu_item_wf(w, i) by {
        assert(menu_item_wf(v, i));
    }
    lemma_menu_wf(w);
}

/// Replacing the menu on screen by a well-formed undecided menu keeps the
/// tree well-formed, and puts that menu on screen.
pub proof fn lemma_with_current_menu(v: MenuView, m: MenuView)
    requires
        menu_wf(v),
        current_scene(v) is Menu,
        menu_wf(m),
        !m.decided,
    ensures
        menu_wf(with_current_menu(v, m)),
        current_scene(with_current_menu(v, m)) == CurrentSceneView::Menu(m),
    decreases v,
{
    lemma_menu_wf(v);
    if v.decided {
        let w = with_current_menu(v, m);
        assert(menu_item_wf(v, v.cursor));
        match v.items[v.cursor] {
            MenuItemView::SubMenu { sub_menu, .. } => {
                lemma_with_current_menu(sub_menu, m);
            },
            _ => {},
        }
        assert forall|i: int| 0 <= i < w.items.len() implies #[trigger] menu_item_wf(w, i) by {
            assert(menu_item_wf(v, i));
        }
        lemma_menu_wf(w);
    }
}

/// Replacing the text input on screen keeps the tree well-formed, and puts
/// the new one on screen.
pub proof fn lemma_with_current_text(v: MenuView, t: TextInputView)
    requires
        menu_wf(v),
        current_scene(v) is TextInput,
    ensures
        menu_wf(with_current_text(v, t)),
        current_scene(with_current_text(v, t)) == CurrentSceneView::TextInput(current_scene(v)->TextInput_0, t),
    decreases v,
{
    lemma_menu_wf(v);
    if v.decided {
        let w = with_current_text(v, t);
        assert(menu_item_wf(v, v.cursor));
        match v.items[v.cursor] {
            MenuItemView::SubMenu { sub_menu, .. } => {
                lemma_with_current_text(sub_menu, t);
            },
            _ => {},
        }
        assert forall|i: int| 0 <= i < w.items.len() implies #[trigger] menu_item_wf(w, i) by {
            assert(menu_item_wf(v, i));
        }
        lemma_menu_wf(w);
    }
}

/// A frame of buttons keeps an undecided well-formed menu well-formed and
/// undecided; only the cursor moves.
pub proof fn lemma_input_keeps_wf(
    m: MenuView,
    input_result: MenuControllerInputResult,
    ignore_decide: bool,
    play_decide_sound: bool,
)
    requires
        menu_wf(m),
        !m.decided,
    ensures
        ({
            let m2 = menu_input_spec(m, input_result, ignore_decide, play_decide_sound).0;
            &&& menu_wf(m2)
            &&& !m2.decided
            &&& m2 == MenuView { cursor: m2.cursor, ..m }
        }),
{
    lemma_menu_wf(m);
    let m2 = menu_input_spec(m, input_result, ignore_decide, play_decide_sound).0;
    assert forall|i: int| 0 <= i < m2.items.len() implies #[trigger] menu_item_wf(m2, i) by {
        assert(menu_item_wf(m, i));
    }
    lemma_menu_wf(m2);
}

/// Two items of the same kind, leading to the same sub-menu: they differ
/// at most in label, enabled state, action or text.
pub open spec fn same_shape(a: MenuItemView, b: MenuItemView) -> bool {
    match (a, b) {
        (MenuItemView::Plain { .. }, MenuItemView::Plain { .. }) => true,
        (MenuItemView::SubMenu { sub_menu: s, .. }, MenuItemView::SubMenu { sub_menu: t, .. }) => s == t,
        (MenuItemView::TextInput { .. }, MenuItemView::TextInput { .. }) => true,
        (MenuItemView::SubScene { .. }, MenuItemView::SubScene { .. }) => true,
        _ => false,
    }
}

/// What is on screen is a menu whose selected item is not plain.
pub open spec fn opens_on_decide(v: MenuView) -> bool {
    current_scene(v) matches CurrentSceneView::Menu(m) && !(selected_of(m) is Plain)
}

/// Replacing an item of a well-formed tree by one of the same shape keeps
/// the tree well-formed, and keeps what is on screen of the same kind.
pub proof fn lemma_replace_same_shape(v: MenuView, w: MenuView, i: int, x: MenuItemView)
    requires
        menu_wf(v),
        0 <= i < v.items.len(),
        replaced_at(v, w, i, x),
        same_shape(v.items[i], x),
    ensures
        menu_wf(w),
        current_scene(w) is Menu <==> current_scene(v) is Menu,
        current_scene(w) is TextInput <==> current_scene(v) is TextInput,
        opens_on_decide(w) <==> opens_on_decide(v),
{
    lemma_menu_wf(v);
    assert forall|j: int| 0 <= j < w.items.len() implies #[trigger] menu_item_wf(w, j) by {
        assert(menu_item_wf(v, j));
    }
    lemma_menu_wf(w);
    assert(menu_item_wf(v, v.cursor));
}

/// Law: closing what was just opened gives back the tree. On a well-formed
/// tree whose menu on screen has a sub-menu or a text input selected,
/// `bury` after `dig` restores the tree and reports that it closed
/// something.
pub proof fn law_bury_undoes_dig(v: MenuView)
    requires
        menu_wf(v),
        current_scene(v) matches CurrentSceneView::Menu(m) && (selected_of(m) is SubMenu || selected_of(m) is TextInput),
    ensures
        bury_view(dig_view(v).0) == (v, true),
    decreases v,
{
    lemma_menu_wf(v);
    if v.decided {
        assert(menu_item_wf(v, v.cursor));
        match v.items[v.cursor] {
            MenuItemView::SubMenu { label, enabled, decided_action, sub_menu } => {
                law_bury_undoes_dig(sub_menu);
                lemma_wf_path(sub_menu);
                lemma_dig_decided(sub_menu);
                let w = dig_view(v).0;
                assert(bury_view(w).0.items =~= v.items);
            },
            _ => {},
        }
    } else {
        assert(menu_item_wf(v, v.cursor));
        assert(bury_view(dig_view(v).0).0 =~= v);
    }
}

/// `dig` never closes a decided menu.
pub proof fn lemma_dig_decided(v: MenuView)
    requires
        can_dig(v),
    ensures
        dig_view(v).0.decided == (v.decided || !(v.items[v.cursor] is SubScene)),
        v.decided ==> dig_view(v).0.decided,
{
}

/// What a menu does with one frame of buttons: the menu after it, the
/// action chosen and the sound played.
pub open spec fn menu_input_spec(
    v: MenuView,
    input_result: MenuControllerInputResult,
    ignore_decide: bool,
    play_decide_sound: bool,
) -> (MenuView, Option<ActionView>, Option<u32>) {
    match input_result {
        MenuControllerInputResult::Nothing => (v, None, None),
        MenuControllerInputResult::Cancel => (
            v,
            match v.canceled_action {
                Some(id) => Some(ActionView { id, play_sound: false, value: None }),
                None => None,
            },
            Some(SOUND_CANCEL),
        ),
        MenuControllerInputResult::Decide => if ignore_decide {
            (v, None, None)
        } else {
            (v, decided_action_of(selected_of(v)), if play_decide_sound { Some(SOUND_DECIDE) } else { None })
        },
        MenuControllerInputResult::Up => if v.cursor != 0 {
            (MenuView { cursor: v.cursor - 1, ..v }, None, Some(SOUND_SELECT))
        } else {
            (v, None, None)
        },
        MenuControllerInputResult::Down => if v.cursor < v.items.len() - 1 {
            (MenuView { cursor: v.cursor + 1, ..v }, None, Some(SOUND_SELECT))
        } else {
            (v, None, None)
        },
    }
}

impl Menu {
    /// A menu with nothing opened.
    pub fn new(title: &'static str, canceled_action: Option<u8>, items: Vec<MenuItem>, cursor: usize) -> (m: Menu)
        ensures
            m@ == (MenuView {
                title: title@,
                canceled_action,
                items: items@.map_values(|i: MenuItem| i@),
                cursor: cursor as int,
                decided: false,
            }),
    {
        let m = Menu { title, canceled_action, items, cursor, decided: false };
        assert(m@.items =~= items@.map_values(|i: MenuItem| i@));
        m
    }

    /// The title.
    pub fn title(&self) -> (r: &'static str)
        ensures
            r@ == self@.title,
    {
        self.title
    }

    /// The position of the cursor.
    pub fn cursor(&self) -> (r: usize)
        ensures
            r == self@.cursor,
    {
        self.cursor
    }

    /// Whether the menu has opened its selected item.
    pub fn decided(&self) -> (r: bool)
        ensures
            r == self@.decided,
    {
        self.decided
    }

    /// The items.
    pub fn items(&self) -> (r: &Vec<MenuItem>)
        ensures
            r@.map_values(|i: MenuItem| i@) == self@.items,
    {
        assert(self.items@.map_values(|i: MenuItem| i@) =~= self@.items);
        &self.items
    }

    /// The item under the cursor.
    pub fn selected_item(&self) -> (r: &MenuItem)
        requires
            0 <= self@.cursor < self@.items.len(),
        ensures
            r@ == selected_of(self@),
    {
        &self.items[self.cursor]
    }

    /// The item at `index` of the vector, to change it.
    fn items_index_mut(&mut self, index: usize) -> (r: &mut MenuItem)
        requires
            index < old(self).items@.len(),
        ensures
            *r == old(self).items@[index as int],
            final(self).items@ == old(self).items@.update(index as int, *final(r)),
            final(self).title == old(self).title,
            final(self).canceled_action == old(self).canceled_action,
            final(self).cursor == old(self).cursor,
            final(self).decided == old(self).decided,
    {
        &mut self.items[index]
    }

    /// The item at `index`, to change it: the menu ends up with whatever
    /// the caller leaves there, and is otherwise unchanged.
    pub fn item_mut(&mut self, index: usize) -> (r: &mut MenuItem)
        requires
            index < old(self)@.items.len(),
        ensures
            (*r)@ == old(self)@.items[index as int],
            replaced_at(old(self)@, final(self)@, index as int, (*final(r))@),
    {
        self.items_index_mut(index)
    }

    /// The selected item, to change it: the menu ends up with whatever the
    /// caller leaves there, and is otherwise unchanged.
    pub fn selected_item_mut(&mut self) -> (r: &mut MenuItem)
        requires
            0 <= old(self)@.cursor < old(self)@.items.len(),
        ensures
            (*r)@ == selected_of(old(self)@),
            replaced_at(old(self)@, final(self)@, old(self)@.cursor, (*final(r))@),
    {
        let c = self.cursor;
        self.items_index_mut(c)
    }

    /// Moves the cursor down; `false` at the last item.
    fn increment_cursor(&mut self) -> (r: bool)
        requires
            old(self)@.items.len() > 0,
        ensures
            r == (old(self)@.cursor < old(self)@.items.len() - 1),
            final(self)@ == (MenuView { cursor: if r { old(self)@.cursor + 1 } else { old(self)@.cursor }, ..old(self)@ }),
    {
        if self.cursor >= self.items.len() - 1 {
            return false;
        }
        self.cursor += 1;
        assert(self@.items =~= old(self)@.items);
        true
    }

    /// Moves the cursor up; `false` at the first item.
    fn decrement_cursor(&mut self) -> (r: bool)
        ensures
            r == (old(self)@.cursor != 0),
            final(self)@ == (MenuView { cursor: if r { old(self)@.cursor - 1 } else { old(self)@.cursor }, ..old(self)@ }),
    {
        if self.cursor == 0 {
            return false;
        }
        self.cursor -= 1;
        assert(self@.items =~= old(self)@.items);
        true
    }

    /// Applies what the buttons ask of the menu; returns the action chosen,
    /// if any, and the sound to play, if any. A cancellation reports the
    /// menu's cancel action; a decision the selected item's action (unless
    /// `ignore_decide`); up and down move the cursor.
    pub fn input(
        &mut self,
        input_result: MenuControllerInputResult,
        ignore_decide: bool,
        play_decide_sound: bool,
    ) -> (r: (Option<Action>, Option<u32>))
        requires
            input_result == MenuControllerInputResult::Down ==> old(self)@.items.len() > 0,
            input_result == MenuControllerInputResult::Decide && !ignore_decide ==> 0 <= old(self)@.cursor
                < old(self)@.items.len(),
        ensures
            menu_input_spec(old(self)@, input_result, ignore_decide, play_decide_sound) == (
                final(self)@,
                match r.0 {
                    Some(a) => Some(a@),
                    None => None::<ActionView>,
                },
                r.1,
            ),
    {
        match input_result {
            MenuControllerInputResult::Nothing => (None, None),
            MenuControllerInputResult::Cancel => (
                match self.canceled_action {
                    Some(id) => Some(Action::new(id, false, None)),
                    None => None,
                },
                Some(SOUND_CANCEL),
            ),
            MenuControllerInputResult::Decide => {
                if ignore_decide {
                    return (None, None);
                }
                let sound = if play_decide_sound { Some(SOUND_DECIDE) } else { None };
                (self.selected_item().decided_action(), sound)
            },
            MenuControllerInputResult::Up => {
                if !self.decrement_cursor() {
                    return (None, None);
                }
                (None, Some(SOUND_SELECT))
            },
            MenuControllerInputResult::Down => {
                if !self.increment_cursor() {
                    return (None, None);
                }
                (None, Some(SOUND_SELECT))
            },
        }
    }

    /// Opens the selected item, or reports the screen it leads to.
    pub fn dig(&mut self) -> (r: Option<LobbyScene>)
        requires
            can_dig(old(self)@),
        ensures
            (final(self)@, r) == dig_view(old(self)@),
        decreases *old(self),
    {
        if !self.decided {
            if let MenuItem::SubScene(scene) = &self.items[self.cursor] {
                return Some(scene.sub_scene);
            }
            self.decided = true;
            assert(self@.items =~= old(self)@.items);
            return None;
        }
        let c = self.cursor;
        let r = match &mut self.items[c] {
            MenuItem::SubMenu(item) => item.sub_menu.dig(),
            _ => None,
        };
        assert(self@.items =~= dig_view(old(self)@).0.items);
        r
    }

    /// The menu on screen, when it is a menu.
    pub fn current_menu(&self) -> (r: Option<&Menu>)
        requires
            path_ok(self@),
        ensures
            match current_scene(self@) {
                CurrentSceneView::Menu(m) => r matches Some(x) && x@ == m,
                _ => r is None,
            },
        decreases self,
    {
        if !self.decided {
            return Some(self);
        }
        match &self.items[self.cursor] {
            MenuItem::SubMenu(item) => item.sub_menu.current_menu(),
            _ => None,
        }
    }

    /// The text input on screen, with the label of its item, when it is one.
    pub fn current_text_input(&self) -> (r: Option<(&'static str, &TextInput)>)
        requires
            path_ok(self@),
        ensures
            match current_scene(self@) {
                CurrentSceneView::TextInput(label, t) => r matches Some(x) && x.0@ == label && x.1@ == t,
                _ => r is None,
            },
        decreases self,
    {
        if !self.decided {
            return None;
        }
        match &self.items[self.cursor] {
            MenuItem::SubMenu(item) => item.sub_menu.current_text_input(),
            MenuItem::TextInput(item) => Some((item.label, &*item.text_input)),
            _ => None,
        }
    }

    /// Applies a frame of buttons to the menu on screen.
    pub fn input_current(
        &mut self,
        input_result: MenuControllerInputResult,
        ignore_decide: bool,
        play_decide_sound: bool,
    ) -> (r: (Option<Action>, Option<u32>))
        requires
            path_ok(old(self)@),
            current_scene(old(self)@) matches CurrentSceneView::Menu(m) && (input_result
                == MenuControllerInputResult::Down ==> m.items.len() > 0) && (input_result
                == MenuControllerInputResult::Decide && !ignore_decide ==> 0 <= m.cursor < m.items.len()),
        ensures
            current_scene(old(self)@) matches CurrentSceneView::Menu(m) && {
                let (m2, a, sound) = menu_input_spec(m, input_result, ignore_decide, play_decide_sound);
                &&& final(self)@ == with_current_menu(old(self)@, m2)
                &&& action_view(r.0) == a
                &&& r.1 == sound
            },
        decreases *old(self),
    {
        if !self.decided {
            return self.input(input_result, ignore_decide, play_decide_sound);
        }
        let c = self.cursor;
        let r = match &mut self.items[c] {
            MenuItem::SubMenu(item) => item.sub_menu.input_current(input_result, ignore_decide, play_decide_sound),
            _ => (None, None),
        };
        proof {
            let m = current_scene(old(self)@)->Menu_0;
            let m2 = menu_input_spec(m, input_result, ignore_decide, play_decide_sound).0;
            assert(self@.items =~= with_current_menu(old(self)@, m2).items);
        }
        r
    }

    /// A frame of typing in the text input on screen.
    pub fn type_current(&mut self, keys: &[u8; 256], ascii_table: &[u8; 256]) -> (r: OnMenuInputResult)
        requires
            path_ok(old(self)@),
            current_scene(old(self)@) is TextInput,
        ensures
            current_scene(old(self)@) matches CurrentSceneView::TextInput(_, t) && {
                let (t2, end) = text_input_step(t, keys@, ascii_table@);
                &&& final(self)@ == with_current_text(old(self)@, t2)
                &&& typing_result(r, end, t.changed_action, t2.value)
            },
        decreases *old(self),
    {
        let c = self.cursor;
        let r = match &mut self.items[c] {
            MenuItem::SubMenu(item) => item.sub_menu.type_current(keys, ascii_table),
            MenuItem::TextInput(item) => item.text_input.on_input_menu(keys, ascii_table),
            _ => OnMenuInputResult::Nothing,
        };
        proof {
            let t = current_scene(old(self)@)->TextInput_1;
            let t2 = text_input_step(t, keys@, ascii_table@).0;
            assert(self@.items =~= with_current_text(old(self)@, t2).items);
        }
        r
    }

    /// Closes the last opened item; `false` when nothing is open.
    pub fn bury(&mut self) -> (r: bool)
        requires
            can_bury(old(self)@),
        ensures
            (final(self)@, r) == bury_view(old(self)@),
        decreases *old(self),
    {
        if !self.decided {
            return false;
        }
        let c = self.cursor;
        let r = match &mut self.items[c] {
            MenuItem::SubMenu(item) => {
                if !item.sub_menu.decided {
                    None
                } else {
                    Some(item.sub_menu.bury())
                }
            },
            _ => None,
        };
        match r {
            Some(r) => {
                assert(self@.items =~= bury_view(old(self)@).0.items);
                r
            },
            None => {
                self.decided = false;
                assert(self@.items =~= old(self)@.items);
                true
            },
        }
    }
}

/// Law: moving the cursor. Up moves it one item up with the select sound,
/// and does nothing at the top; Down moves it one item down with the
/// select sound, and does nothing at the bottom. Neither reports an action
/// or changes anything else.
pub proof fn law_cursor_moves_one_step(v: MenuView, ignore_decide: bool, play_decide_sound: bool)
    requires
        v.items.len() > 0,
        v.cursor < v.items.len(),
    ensures
        ({
            let (u, a, s) = menu_input_spec(v, MenuControllerInputResult::Up, ignore_decide, play_decide_sound);
            &&& a is None
            &&& u.items == v.items && u.title == v.title && u.decided == v.decided
            &&& v.cursor > 0 ==> u.cursor == v.cursor - 1 && s == Some(SOUND_SELECT)
            &&& v.cursor == 0 ==> u == v && s is None
        }),
        ({
            let (d, a, s) = menu_input_spec(v, MenuControllerInputResult::Down, ignore_decide, play_decide_sound);
            &&& a is None
            &&& d.items == v.items && d.title == v.title && d.decided == v.decided
            &&& v.cursor + 1 < v.items.len() ==> d.cursor == v.cursor + 1 && s == Some(SOUND_SELECT)
            &&& v.cursor + 1 == v.items.len() ==> d == v && s is None
        }),
{
}

} // verus!
