use vstd::prelude::*;
use crate::menu::{
    action_view, bury_view, current_scene, decided_action_of, dig_view, lemma_bury_keeps_wf, lemma_dig_keeps_wf,
    lemma_input_keeps_wf, lemma_replace_same_shape, lemma_replaced_at, lemma_wf_path, opens_on_decide, with_enabled, with_label, MenuItemView, lemma_with_current_menu, lemma_with_current_text, menu_input_spec,
    menu_wf, selected_of, with_current_menu, with_current_text, Action, ActionView, CurrentSceneView, LobbyScene,
    Menu, MenuView, SOUND_CANCEL, SOUND_DECIDE,
};
use crate::menu_controller::{
    input_spec, is_cancel_pressed, is_decide_pressed, next_repeat, InputValue, MenuController,
    MenuControllerInputResult, MenuControllerUpdateDecideResult, DECIDE_DELAY_FRAMES, DOWN, UP,
};
use crate::text_input::{self, text_input_step, TextInputView, TypingEnd};

verus! {

/// What a frame of a lobby menu reports.
pub enum OnMenuInputResult {
    /// Nothing to do.
    Nothing,
    /// The player left the menu.
    Cancel,
    /// The player chose an action.
    Action(Action),
    /// The player chose another screen.
    SubScene(LobbyScene),
}

/// `OnMenuInputResult` as values.
pub enum MenuResultView {
    Nothing,
    Cancel,
    Action(ActionView),
    SubScene(LobbyScene),
}

/// The value of a result.
pub open spec fn result_view(r: OnMenuInputResult) -> MenuResultView {
    match r {
        OnMenuInputResult::Nothing => MenuResultView::Nothing,
        OnMenuInputResult::Cancel => MenuResultView::Cancel,
        OnMenuInputResult::Action(a) => MenuResultView::Action(a@),
        OnMenuInputResult::SubScene(s) => MenuResultView::SubScene(s),
    }
}

/// A menu tree driven by the game's buttons (and, in a text input, by the
/// keyboard).
pub struct CommonMenu {
    menu: Menu,
    instant_exit: bool,
    base_height: u32,
    controller: MenuController,
}

/// `CommonMenu` as values: the tree, the options, and the controller's
/// counters.
#[verifier::ext_equal]
pub struct CommonMenuView {
    pub menu: MenuView,
    pub instant_exit: bool,
    pub base_height: u32,
    pub decide_count: i32,
    pub repeat_up: u32,
    pub repeat_down: u32,
}

impl View for CommonMenu {
    type V = CommonMenuView;

    closed spec fn view(&self) -> CommonMenuView {
        CommonMenuView {
            menu: self.menu@,
            instant_exit: self.instant_exit,
            base_height: self.base_height,
            decide_count: self.controller.decide_count(),
            repeat_up: self.controller.repeat_up(),
            repeat_down: self.controller.repeat_down(),
        }
    }
}

/// A pending decision always targets the menu on screen, whose selected
/// item is not a plain item (plain items decide at once).
pub open spec fn pending_ok(menu: MenuView, decide_count: i32) -> bool {
    decide_count > 0 ==> menu_wf(menu) && opens_on_decide(menu)
}

/// A root menu without items (it offers nothing but leaving).
pub open spec fn empty_root(menu: MenuView) -> bool {
    menu.items.len() == 0 && !menu.decided
}

/// The tree is well-formed, or an empty root.
pub open spec fn root_ok(menu: MenuView) -> bool {
    menu_wf(menu) || empty_root(menu)
}

/// The frame would move the cursor down in an empty root menu (which has
/// nowhere to go).
pub open spec fn down_on_empty(v: CommonMenuView, current: InputValue, prev: InputValue) -> bool {
    &&& decide_step(v).1 is None
    &&& empty_root(decide_step(v).0.menu)
    &&& input_spec(v.repeat_up, v.repeat_down, current, prev) == MenuControllerInputResult::Down
}

/// What the controller does with a frame of buttons: its counters after
/// it (pending decision, up and down), and what it asks of the menu.
pub open spec fn controller_step(
    v: CommonMenuView,
    current: InputValue,
    prev: InputValue,
    instant_decide: bool,
    instant_cancel: bool,
) -> (i32, u32, u32, MenuControllerInputResult) {
    let r = input_spec(v.repeat_up, v.repeat_down, current, prev);
    let dc = if r == MenuControllerInputResult::Cancel && !instant_cancel {
        -1i32
    } else if r == MenuControllerInputResult::Decide && !instant_decide {
        1i32
    } else {
        v.decide_count
    };
    if is_cancel_pressed(current, prev) || is_decide_pressed(current, prev) {
        (dc, v.repeat_up, v.repeat_down, r)
    } else {
        (dc, next_repeat(v.repeat_up, current, prev, UP), next_repeat(v.repeat_down, current, prev, DOWN), r)
    }
}

/// A pending decision or cancellation advances by a frame; when it takes
/// effect, the selected item opens (or its screen is reported), or the
/// last opened item closes (or, with nothing open, the menu is left).
/// `None`: nothing pending or just applied, the frame goes on.
pub open spec fn decide_step(v: CommonMenuView) -> (CommonMenuView, Option<MenuResultView>) {
    if v.decide_count == 0 {
        (v, None)
    } else if v.decide_count > 0 {
        if v.decide_count + 1 > DECIDE_DELAY_FRAMES {
            let (m, scene) = dig_view(v.menu);
            (
                CommonMenuView { menu: m, decide_count: 0, ..v },
                match scene {
                    Some(s) => Some(MenuResultView::SubScene(s)),
                    None => None,
                },
            )
        } else {
            (CommonMenuView { decide_count: (v.decide_count + 1) as i32, ..v }, Some(MenuResultView::Nothing))
        }
    } else {
        if v.decide_count - 1 < -DECIDE_DELAY_FRAMES {
            let (m, closed) = bury_view(v.menu);
            (
                CommonMenuView { menu: m, decide_count: 0, ..v },
                if closed {
                    None
                } else {
                    Some(MenuResultView::Cancel)
                },
            )
        } else {
            (CommonMenuView { decide_count: (v.decide_count - 1) as i32, ..v }, Some(MenuResultView::Nothing))
        }
    }
}

/// A frame on a menu: the buttons move the cursor, decide (at once for a
/// plain item, after the delay otherwise) or cancel (at once when leaving
/// the root of a menu that exits instantly, after the delay otherwise).
pub open spec fn menu_frame(
    v: CommonMenuView,
    m: MenuView,
    current: InputValue,
    prev: InputValue,
) -> (CommonMenuView, MenuResultView, Option<u32>) {
    let ignore_decide = m.items.len() == 0;
    let instant_decide = ignore_decide || selected_of(m) is Plain;
    let play_decide_sound = !ignore_decide && match decided_action_of(selected_of(m)) {
        Some(a) => a.play_sound,
        None => true,
    };
    let root_cancel = !v.menu.decided && v.instant_exit;
    let (dc, up, down, input) = controller_step(v, current, prev, instant_decide, root_cancel);
    let v2 = CommonMenuView { decide_count: dc, repeat_up: up, repeat_down: down, ..v };
    if root_cancel && input == MenuControllerInputResult::Cancel {
        (v2, MenuResultView::Cancel, None)
    } else {
        let (m2, a, sound) = menu_input_spec(m, input, ignore_decide, play_decide_sound);
        (
            CommonMenuView { menu: with_current_menu(v.menu, m2), ..v2 },
            match a {
                Some(a) => MenuResultView::Action(a),
                None => MenuResultView::Nothing,
            },
            sound,
        )
    }
}

/// A frame on a text input: the keys are typed; escape leaves the text
/// input, return reports its action with the text; either closes it after
/// the delay.
pub open spec fn text_frame(
    v: CommonMenuView,
    t: text_input::TextInputView,
    keys: Seq<u8>,
    ascii_table: Seq<u8>,
) -> (CommonMenuView, MenuResultView, Option<u32>) {
    let (t2, end) = text_input_step(t, keys, ascii_table);
    let v2 = CommonMenuView { menu: with_current_text(v.menu, t2), ..v };
    match end {
        TypingEnd::Open => (v2, MenuResultView::Nothing, None),
        TypingEnd::Cancelled => (CommonMenuView { decide_count: -1i32, ..v2 }, MenuResultView::Nothing, Some(SOUND_CANCEL)),
        TypingEnd::Decided => (
            CommonMenuView { decide_count: -1i32, ..v2 },
            MenuResultView::Action(ActionView { id: t.changed_action, play_sound: false, value: Some(t2.value) }),
            Some(SOUND_DECIDE),
        ),
    }
}

/// A whole frame: the menu after it, what it reports, and the sound to
/// play.
pub open spec fn frame_step(
    v: CommonMenuView,
    current: InputValue,
    prev: InputValue,
    keys: Seq<u8>,
    ascii_table: Seq<u8>,
) -> (CommonMenuView, MenuResultView, Option<u32>) {
    let (v1, early) = decide_step(v);
    match early {
        Some(r) => (v1, r, None),
        None => match current_scene(v1.menu) {
            CurrentSceneView::Menu(m) => menu_frame(v1, m, current, prev),
            CurrentSceneView::TextInput(_, t) => text_frame(v1, t, keys, ascii_table),
            _ => (v1, MenuResultView::Nothing, None),
        },
    }
}

impl CommonMenu {
    /// The tree is well-formed, the controller's counters are in range, and
    /// a pending decision targets an item that opens.
    pub closed spec fn wf(&self) -> bool {
        &&& root_ok(self.menu@)
        &&& self.controller.wf()
        &&& pending_ok(self.menu@, self.controller.decide_count())
    }

    /// A menu with nothing pending; `instant_exit` makes a cancellation at
    /// the root leave at once. It can run when the tree is well-formed or
    /// an empty root.
    pub fn new(instant_exit: bool, base_height: u32, menu: Menu) -> (r: CommonMenu)
        ensures
            r.wf() <==> root_ok(menu@),
            r@ == (CommonMenuView {
                menu: menu@,
                instant_exit,
                base_height,
                decide_count: 0,
                repeat_up: 0,
                repeat_down: 0,
            }),
    {
        CommonMenu { menu, instant_exit, base_height, controller: MenuController::new() }
    }

    /// The title of the root menu.
    pub fn root_title(&self) -> (r: &'static str)
        ensures
            r@ == self@.menu.title,
    {
        self.menu.title()
    }

    /// The menu tree.
    pub fn menu(&self) -> (r: &Menu)
        ensures
            r@ == self@.menu,
    {
        &self.menu
    }

    /// Where the items start on screen.
    pub fn base_height(&self) -> (r: u32)
        ensures
            r == self@.base_height,
    {
        self.base_height
    }

    /// Applies what is pending (see `decide_step`).
    fn apply_decide_count(&mut self) -> (r: Option<OnMenuInputResult>)
        requires
            old(self).wf(),
        ensures
            final(self).wf(),
            decide_step(old(self)@).0 == final(self)@,
            decide_step(old(self)@).1 == match r {
                Some(x) => Some(result_view(x)),
                None => None::<MenuResultView>,
            },
    {
        proof {
            if menu_wf(self.menu@) {
                lemma_wf_path(self.menu@);
            }
        }
        match self.controller.update_decide() {
            MenuControllerUpdateDecideResult::Idle => None,
            MenuControllerUpdateDecideResult::Wait => Some(OnMenuInputResult::Nothing),
            MenuControllerUpdateDecideResult::Decide => {
                proof {
                    lemma_dig_keeps_wf(self.menu@);
                }
                if let Some(scene) = self.menu.dig() {
                    return Some(OnMenuInputResult::SubScene(scene));
                }
                None
            },
            MenuControllerUpdateDecideResult::Cancel => {
                proof {
                    if menu_wf(self.menu@) {
                        lemma_bury_keeps_wf(self.menu@);
                    }
                }
                if !self.menu.bury() {
                    return Some(OnMenuInputResult::Cancel);
                }
                None
            },
        }
    }

    /// One frame: the buttons of this frame and the last, the keyboard
    /// snapshot and the ASCII code each virtual key types in it. Returns
    /// what the frame reports and the sound to play, if any.
    pub fn on_input_menu(
        &mut self,
        current_input: InputValue,
        prev_input: InputValue,
        keys: &[u8; 256],
        ascii_table: &[u8; 256],
    ) -> (r: (OnMenuInputResult, Option<u32>))
        requires
            old(self).wf(),
            !down_on_empty(old(self)@, current_input, prev_input),
        ensures
            final(self).wf(),
            frame_step(old(self)@, current_input, prev_input, keys@, ascii_table@) == (
                final(self)@,
                result_view(r.0),
                r.1,
            ),
    {
        if let Some(result) = self.apply_decide_count() {
            return (result, None);
        }
        proof {
            if menu_wf(self.menu@) {
                lemma_wf_path(self.menu@);
            }
        }
        let ghost v1 = self@;
        match self.menu.current_menu() {
            Some(menu) => {
                let ghost m = menu@;
                let ignore_decide = menu.items().len() == 0;
                let instant_decide = ignore_decide || menu.selected_item().is_plain();
                let play_decide_sound = !ignore_decide && match menu.selected_item().decided_action() {
                    Some(a) => a.play_sound(),
                    None => true,
                };
                let root_cancel = !self.menu.decided() && self.instant_exit;
                let input_result = self.controller.input(current_input, prev_input, instant_decide, root_cancel);
                if root_cancel {
                    if let MenuControllerInputResult::Cancel = input_result {
                        return (OnMenuInputResult::Cancel, None);
                    }
                }
                proof {
                    if menu_wf(self.menu@) {
                        lemma_input_keeps_wf(m, input_result, ignore_decide, play_decide_sound);
                        lemma_with_current_menu(
                            self.menu@,
                            menu_input_spec(m, input_result, ignore_decide, play_decide_sound).0,
                        );
                    }
                }
                let (action, sound) = self.menu.input_current(input_result, ignore_decide, play_decide_sound);
                proof {
                    assert(self@ =~= menu_frame(v1, m, current_input, prev_input).0);
                }
                match action {
                    Some(a) => (OnMenuInputResult::Action(a), sound),
                    None => (OnMenuInputResult::Nothing, sound),
                }
            },
            None => {
                if self.menu.current_text_input().is_none() {
                    return (OnMenuInputResult::Nothing, None);
                }
                proof {
                    let t = current_scene(self.menu@)->TextInput_1;
                    lemma_with_current_text(self.menu@, text_input_step(t, keys@, ascii_table@).0);
                }
                let typed = self.menu.type_current(keys, ascii_table);
                match typed {
                    text_input::OnMenuInputResult::Nothing => (OnMenuInputResult::Nothing, None),
                    text_input::OnMenuInputResult::Cancel => {
                        self.controller.force_cancel();
                        (OnMenuInputResult::Nothing, Some(SOUND_CANCEL))
                    },
                    text_input::OnMenuInputResult::Decide(changed_action, value) => {
                        self.controller.force_cancel();
                        let action = Action::new(changed_action, false, Some(value));
                        (OnMenuInputResult::Action(action), Some(SOUND_DECIDE))
                    },
                }
            },
        }
    }
}


/// The root menu with the text of its selected item replaced, when that
/// item is a text input.
pub open spec fn with_selected_text(m: MenuView, value: Seq<char>) -> MenuView {
    MenuView {
        items: m.items.update(
            m.cursor,
            match selected_of(m) {
                MenuItemView::TextInput { label, enabled, decided_action, text_input } => MenuItemView::TextInput {
                    label,
                    enabled,
                    decided_action,
                    text_input: TextInputView { value, ..text_input },
                },
                other => other,
            },
        ),
        ..m
    }
}

impl CommonMenu {
    /// Relabels the item at `index` of the root menu.
    pub fn set_item_label(&mut self, index: usize, label: &'static str)
        requires
            old(self).wf(),
            index < old(self)@.menu.items.len(),
        ensures
            final(self).wf(),
            final(self)@ == (CommonMenuView {
                menu: MenuView {
                    items: old(self)@.menu.items.update(index as int, with_label(old(self)@.menu.items[index as int], label@)),
                    ..old(self)@.menu
                },
                ..old(self)@
            }),
    {
        let ghost v = self.menu@;
        self.menu.item_mut(index).set_label(label);
        proof {
            lemma_replace_same_shape(v, self.menu@, index as int, self.menu@.items[index as int]);
            lemma_replaced_at(v, self.menu@, index as int, self.menu@.items[index as int]);
        }
    }

    /// Enables or disables the item at `index` of the root menu.
    pub fn set_item_enabled(&mut self, index: usize, enabled: bool)
        requires
            old(self).wf(),
            index < old(self)@.menu.items.len(),
        ensures
            final(self).wf(),
            final(self)@ == (CommonMenuView {
                menu: MenuView {
                    items: old(self)@.menu.items.update(index as int, with_enabled(old(self)@.menu.items[index as int], enabled)),
                    ..old(self)@.menu
                },
                ..old(self)@
            }),
    {
        let ghost v = self.menu@;
        self.menu.item_mut(index).set_enabled(enabled);
        proof {
            lemma_replace_same_shape(v, self.menu@, index as int, self.menu@.items[index as int]);
            lemma_replaced_at(v, self.menu@, index as int, self.menu@.items[index as int]);
        }
    }

    /// Replaces the text of the selected item of the root menu, when it is
    /// a text input.
    pub fn set_selected_text_value(&mut self, value: String)
        requires
            old(self).wf(),
            old(self)@.menu.items.len() > 0,
        ensures
            final(self).wf(),
            final(self)@ == (CommonMenuView { menu: with_selected_text(old(self)@.menu, value@), ..old(self)@ }),
            final(self)@.menu.items.len() == old(self)@.menu.items.len(),
    {
        let ghost v = self.menu@;
        self.menu.selected_item_mut().set_text_value(value);
        proof {
            lemma_replace_same_shape(v, self.menu@, v.cursor, self.menu@.items[v.cursor]);
            lemma_replaced_at(v, self.menu@, v.cursor, self.menu@.items[v.cursor]);
        }
    }
}

/// A frame never adds or removes items of the root menu.
pub proof fn lemma_frame_keeps_root_items(
    v: CommonMenuView,
    current: InputValue,
    prev: InputValue,
    keys: Seq<u8>,
    ascii_table: Seq<u8>,
)
    ensures
        frame_step(v, current, prev, keys, ascii_table).0.menu.items.len() == v.menu.items.len(),
        frame_step(v, current, prev, keys, ascii_table).0.menu.title == v.menu.title,
{
}

impl CommonMenu {
    /// Whether this frame would move the cursor down in an empty root menu
    /// (see `down_on_empty`); `on_input_menu` cannot run then.
    pub fn moves_down_while_empty(&self, current_input: InputValue, prev_input: InputValue) -> (r: bool)
        requires
            self.wf(),
        ensures
            r == down_on_empty(self@, current_input, prev_input),
    {
        let empty = self.menu.items().len() == 0 && !self.menu.decided();
        if !empty || self.controller.pending() != 0 {
            return false;
        }
        match self.controller.peek(current_input, prev_input) {
            MenuControllerInputResult::Down => true,
            _ => false,
        }
    }
}

/// Applying what is pending never adds or removes items of the root menu.
pub proof fn lemma_decide_keeps_root_items(v: CommonMenuView)
    ensures
        decide_step(v).0.menu.items.len() == v.menu.items.len(),
{
}

/// The inputs of one frame: the buttons now and before, the keyboard
/// snapshot and the ASCII code each virtual key types.
pub struct FrameInput {
    pub current: InputValue,
    pub prev: InputValue,
    pub keys: Seq<u8>,
    pub ascii_table: Seq<u8>,
}

/// A frame with these inputs.
pub open spec fn step_with(v: CommonMenuView, f: FrameInput) -> (CommonMenuView, MenuResultView, Option<u32>) {
    frame_step(v, f.current, f.prev, f.keys, f.ascii_table)
}

/// The menu after a run of frames.
pub open spec fn run_frames(v: CommonMenuView, inputs: Seq<FrameInput>) -> CommonMenuView
    decreases inputs.len(),
{
    if inputs.len() == 0 {
        v
    } else {
        step_with(run_frames(v, inputs.drop_last()), inputs.last()).0
    }
}

/// What each frame of a run reports, with its sound.
pub open spec fn run_results(v: CommonMenuView, inputs: Seq<FrameInput>) -> Seq<(MenuResultView, Option<u32>)>
    decreases inputs.len(),
{
    if inputs.len() == 0 {
        Seq::empty()
    } else {
        let s = step_with(run_frames(v, inputs.drop_last()), inputs.last());
        run_results(v, inputs.drop_last()).push((s.1, s.2))
    }
}

proof fn lemma_run_results_len(v: CommonMenuView, inputs: Seq<FrameInput>)
    ensures
        run_results(v, inputs).len() == inputs.len(),
    decreases inputs.len(),
{
    if inputs.len() > 0 {
        lemma_run_results_len(v, inputs.drop_last());
    }
}

/// Law: the root title survives every frame, whatever the inputs.
pub proof fn law_root_title_survives_frames(v: CommonMenuView, inputs: Seq<FrameInput>)
    ensures
        run_frames(v, inputs).menu.title == v.menu.title,
    decreases inputs.len(),
{
    if inputs.len() > 0 {
        law_root_title_survives_frames(v, inputs.drop_last());
        let f = inputs.last();
        lemma_frame_keeps_root_items(run_frames(v, inputs.drop_last()), f.current, f.prev, f.keys, f.ascii_table);
    }
}

/// Law: a decision waits out its delay. From the frame after it started
/// (pending count 1), the next nineteen frames, whatever their inputs,
/// report nothing, play no sound and change nothing but the count.
pub proof fn law_decision_waits(v: CommonMenuView, inputs: Seq<FrameInput>)
    requires
        v.decide_count == 1,
        inputs.len() <= 19,
    ensures
        run_frames(v, inputs) == (CommonMenuView { decide_count: (1 + inputs.len()) as i32, ..v }),
        forall|j: int| 0 <= j < inputs.len() ==> #[trigger] run_results(v, inputs)[j] == (MenuResultView::Nothing, None::<u32>),
    decreases inputs.len(),
{
    if inputs.len() > 0 {
        law_decision_waits(v, inputs.drop_last());
        lemma_run_results_len(v, inputs.drop_last());
        let r0 = run_results(v, inputs.drop_last());
        assert(run_results(v, inputs) == r0.push((MenuResultView::Nothing, None::<u32>)));
        assert forall|j: int| 0 <= j < inputs.len() implies #[trigger] run_results(v, inputs)[j] == (
            MenuResultView::Nothing,
            None::<u32>,
        ) by {
            if j < inputs.len() - 1 {
                assert(run_results(v, inputs)[j] == r0[j]);
            }
        }
    }
}

/// Law: the twentieth frame after a decision started applies it: the
/// selected item opens (the menu is dug into), and a screen item reports
/// its screen, whatever the inputs.
pub proof fn law_decision_applies(v: CommonMenuView, f: FrameInput)
    requires
        v.decide_count == DECIDE_DELAY_FRAMES,
    ensures
        decide_step(v).0 == (CommonMenuView { menu: dig_view(v.menu).0, decide_count: 0, ..v }),
        dig_view(v.menu).1 matches Some(s) ==> step_with(v, f) == (
            decide_step(v).0,
            MenuResultView::SubScene(s),
            None::<u32>,
        ),
{
}

/// Law: a decision on an item that opens starts the delay: with nothing
/// pending, Shot or Enter pressed (and no cancel button) on a menu whose
/// selected item is not plain makes the pending count 1.
pub proof fn law_decision_starts(v: CommonMenuView, f: FrameInput)
    requires
        v.decide_count == 0,
        current_scene(v.menu) matches CurrentSceneView::Menu(m) && m.items.len() > 0 && !(selected_of(m) is Plain),
        is_decide_pressed(f.current, f.prev),
        !is_cancel_pressed(f.current, f.prev),
    ensures
        step_with(v, f).0.decide_count == 1,
{
}

/// Law: a decision on an item that opens takes effect twenty frames after
/// it is made. The frame of Shot or Enter starts it; the nineteen frames
/// after it, whatever their inputs, report nothing, play no sound and leave
/// the menu tree, its cursors and decided flags as they are; the next
/// frame opens the selected item (the menu is dug into) and reports a
/// screen item's screen.
pub proof fn law_decision_takes_twenty_frames(
    v: CommonMenuView,
    first: FrameInput,
    waiting: Seq<FrameInput>,
    last: FrameInput,
)
    requires
        v.decide_count == 0,
        current_scene(v.menu) matches CurrentSceneView::Menu(m) && m.items.len() > 0 && !(selected_of(m) is Plain),
        is_decide_pressed(first.current, first.prev),
        !is_cancel_pressed(first.current, first.prev),
        waiting.len() == 19,
    ensures
        ({
            let v1 = step_with(v, first).0;
            let v20 = run_frames(v1, waiting);
            &&& v20 == (CommonMenuView { decide_count: DECIDE_DELAY_FRAMES, ..v1 })
            &&& forall|j: int| 0 <= j < 19 ==> #[trigger] run_results(v1, waiting)[j] == (MenuResultView::Nothing, None::<u32>)
            &&& decide_step(v20).0 == (CommonMenuView { menu: dig_view(v1.menu).0, decide_count: 0, ..v1 })
            &&& (dig_view(v1.menu).1 matches Some(s) ==> step_with(v20, last) == (
                decide_step(v20).0,
                MenuResultView::SubScene(s),
                None::<u32>,
            ))
        }),
{
    law_decision_starts(v, first);
    let v1 = step_with(v, first).0;
    law_decision_waits(v1, waiting);
    law_decision_applies(run_frames(v1, waiting), last);
}

} // verus!
