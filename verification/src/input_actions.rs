//! From keys and mouse buttons to what the viewer does.

use crate::coordinate::Coordinate;
use crate::navigation::Navigate;
use crate::zoom_hold::ZoomDirection;
use vstd::prelude::*;

verus! {

/// What a key or button can be bound to.
#[derive(Clone, Copy, Debug, PartialEq, Eq, Structural)]
pub enum Action {
    Exit,
    ToggleFullscreen,
    NextImage,
    PreviousImage,
    RotateClockwise,
    RotateCounterClockwise,
    ResetZoom,
    ZoomIn,
    ZoomOut,
    VideoPlayPause,
    VideoMute,
    MangaZoomIn,
    MangaZoomOut,
}

/// A key of the keyboard.  Those that have a meaning of their own have a name.
#[derive(Clone, Copy, Debug, PartialEq, Eq, Structural)]
pub enum KeyCode {
    ArrowLeft,
    ArrowRight,
    ArrowUp,
    ArrowDown,
    Enter,
    PageUp,
    PageDown,
    Home,
    End,
    Other(u32),
}

/// What an action can be bound to.
#[derive(Clone, Copy, Debug, PartialEq, Eq, Structural)]
pub enum InputBinding {
    Key(KeyCode),
    KeyWithCtrl(KeyCode),
    KeyWithShift(KeyCode),
    KeyWithAlt(KeyCode),
    MouseLeft,
    MouseRight,
    MouseMiddle,
    Mouse4,
    Mouse5,
    ScrollUp,
    ScrollDown,
    CtrlScrollUp,
    CtrlScrollDown,
}

/// A part of the screen, from left to right.
#[derive(Clone, Copy, Debug, PartialEq, Eq, Structural)]
pub enum ClickZone {
    Left,
    Center,
    Right,
}

/// The part of the screen that a position lies in.
pub fn click_zone(x: Coordinate, left_edge: Coordinate, right_edge: Coordinate) -> (zone: ClickZone)
    ensures
        zone == (if x < left_edge {
            ClickZone::Left
        } else if x > right_edge {
            ClickZone::Right
        } else {
            ClickZone::Center
        }),
{
    if x < left_edge {
        ClickZone::Left
    } else if x > right_edge {
        ClickZone::Right
    } else {
        ClickZone::Center
    }
}

/// What a click beside the picture does.  `left_bar` and `right_bar` say whether
/// there is room beside it.
pub fn right_click_black_bar_action(
    x: Coordinate,
    picture_left: Coordinate,
    picture_right: Coordinate,
    left_bar: bool,
    right_bar: bool,
) -> (action: Option<Action>)
    ensures
        action == (if left_bar && x < picture_left {
            Some(Action::PreviousImage)
        } else if right_bar && x > picture_right {
            Some(Action::NextImage)
        } else {
            None
        }),
{
    if left_bar && x < picture_left {
        Some(Action::PreviousImage)
    } else if right_bar && x > picture_right {
        Some(Action::NextImage)
    } else {
        None
    }
}

/// Where the pointer is.
#[derive(Clone, Copy, Debug)]
pub struct PointerPlace {
    pub zone: ClickZone,
    /// What a click beside the picture does.
    pub bar_action: Option<Action>,
}

/// The input of one frame.
pub struct InputFrame {
    pub ctrl: bool,
    pub shift: bool,
    pub alt: bool,
    pub pressed: Vec<KeyCode>,
    pub primary_clicked: bool,
    pub secondary_clicked: bool,
    pub middle_pressed: bool,
    pub extra1_pressed: bool,
    pub extra2_pressed: bool,
    pub scrolled_up: bool,
    pub scrolled_down: bool,
    pub pointer: Option<PointerPlace>,
    /// The pointer is over something that has clicks of its own.
    pub pointer_blocked: bool,
    /// The part of the screen that the pointer hovers over, if anything is free
    /// there.
    pub hover_zone: Option<ClickZone>,
}

/// What the viewer is doing.
#[derive(Clone, Copy, Debug)]
pub struct ViewerContext {
    pub manga_mode: bool,
    pub fullscreen: bool,
    pub autoscroll_active: bool,
    /// There is a strip to go back to.
    pub has_strip_return: bool,
    /// What opens a page of a strip by itself.
    pub strip_item_open: InputBinding,
}

impl InputFrame {
    pub open spec fn is_pressed(self, key: KeyCode) -> bool {
        self.pressed@.contains(key)
    }

    /// Whether a key was pressed.
    pub fn key_pressed(&self, key: KeyCode) -> (pressed: bool)
        ensures
            pressed == self.is_pressed(key),
    {
        let mut i: usize = 0;
        while i < self.pressed.len()
            invariant
                i <= self.pressed@.len(),
                forall|k: int| 0 <= k < i ==> self.pressed@[k] != key,
            decreases self.pressed@.len() - i,
        {
            if self.pressed[i] == key {
                assert(self.pressed@[i as int] == key);
                return true;
            }
            i = i + 1;
        }
        false
    }
}

impl ViewerContext {
    pub open spec fn in_strip(self) -> bool {
        self.manga_mode && self.fullscreen
    }
}

/// The page under the pointer is to be opened by itself.
pub open spec fn opens_strip_item(binding: InputBinding, frame: InputFrame) -> bool {
    match binding {
        InputBinding::MouseRight => frame.secondary_clicked,
        InputBinding::MouseMiddle => frame.middle_pressed,
        InputBinding::Key(key) => !frame.ctrl && !frame.shift && !frame.alt && frame.is_pressed(key),
        InputBinding::KeyWithCtrl(key) => frame.ctrl && !frame.shift && !frame.alt
            && frame.is_pressed(key),
        InputBinding::KeyWithShift(key) => !frame.ctrl && frame.shift && !frame.alt
            && frame.is_pressed(key),
        InputBinding::KeyWithAlt(key) => !frame.ctrl && !frame.shift && frame.alt
            && frame.is_pressed(key),
        _ => false,
    }
}

/// Whether the page under the pointer is to be opened by itself.
pub fn strip_item_open_binding_triggered(binding: &InputBinding, frame: &InputFrame) -> (triggered:
    bool)
    ensures
        triggered == opens_strip_item(*binding, *frame),
{
    match *binding {
        InputBinding::MouseRight => frame.secondary_clicked,
        InputBinding::MouseMiddle => frame.middle_pressed,
        InputBinding::Key(key) => !frame.ctrl && !frame.shift && !frame.alt && frame.key_pressed(key),
        InputBinding::KeyWithCtrl(key) => frame.ctrl && !frame.shift && !frame.alt
            && frame.key_pressed(key),
        InputBinding::KeyWithShift(key) => !frame.ctrl && frame.shift && !frame.alt
            && frame.key_pressed(key),
        InputBinding::KeyWithAlt(key) => !frame.ctrl && !frame.shift && frame.alt
            && frame.key_pressed(key),
        _ => false,
    }
}

pub open spec fn is_arrow(key: KeyCode) -> bool {
    key == KeyCode::ArrowLeft || key == KeyCode::ArrowRight || key == KeyCode::ArrowUp || key
        == KeyCode::ArrowDown
}

/// The action is one that arrow keys do not have in a strip.
pub open spec fn yields_to_scrolling(action: Action) -> bool {
    action == Action::PreviousImage || action == Action::NextImage || action
        == Action::RotateClockwise || action == Action::RotateCounterClockwise
}

/// A binding calls for its action.  In a strip the arrow keys, the middle button and
/// the wheel scroll instead, and so does what opens a page; zooming by the wheel is
/// not an action.
pub open spec fn fires(
    binding: InputBinding,
    action: Action,
    frame: InputFrame,
    context: ViewerContext,
) -> bool {
    &&& !(context.in_strip() && binding == context.strip_item_open)
    &&& match binding {
        InputBinding::Key(key) => !(context.in_strip() && is_arrow(key) && yields_to_scrolling(action))
            && !frame.ctrl && !frame.shift && !frame.alt && frame.is_pressed(key),
        InputBinding::KeyWithCtrl(key) => frame.ctrl && !frame.shift && !frame.alt
            && frame.is_pressed(key),
        InputBinding::KeyWithShift(key) => !frame.ctrl && frame.shift && !frame.alt
            && frame.is_pressed(key),
        InputBinding::KeyWithAlt(key) => !frame.ctrl && !frame.shift && frame.alt
            && frame.is_pressed(key),
        InputBinding::MouseMiddle => frame.middle_pressed && context.manga_mode
            && !context.fullscreen,
        InputBinding::Mouse4 => frame.extra1_pressed,
        InputBinding::Mouse5 => frame.extra2_pressed,
        InputBinding::ScrollUp => !context.in_strip() && frame.scrolled_up && action
            != Action::ZoomIn && action != Action::ZoomOut,
        InputBinding::ScrollDown => !context.in_strip() && frame.scrolled_down && action
            != Action::ZoomIn && action != Action::ZoomOut,
        InputBinding::CtrlScrollUp => false,
        InputBinding::CtrlScrollDown => false,
        InputBinding::MouseLeft => false,
        InputBinding::MouseRight => false,
    }
}

/// Whether a binding calls for its action.
pub fn binding_fires(
    binding: &InputBinding,
    action: Action,
    frame: &InputFrame,
    context: &ViewerContext,
) -> (called: bool)
    ensures
        called == fires(*binding, action, *frame, *context),
{
    let in_strip = context.manga_mode && context.fullscreen;
    if in_strip && *binding == context.strip_item_open {
        return false;
    }
    match *binding {
        InputBinding::Key(key) => {
            let arrow = key == KeyCode::ArrowLeft || key == KeyCode::ArrowRight || key
                == KeyCode::ArrowUp || key == KeyCode::ArrowDown;
            let yields = action == Action::PreviousImage || action == Action::NextImage || action
                == Action::RotateClockwise || action == Action::RotateCounterClockwise;
            if in_strip && arrow && yields {
                return false;
            }
            !frame.ctrl && !frame.shift && !frame.alt && frame.key_pressed(key)
        },
        InputBinding::KeyWithCtrl(key) => frame.ctrl && !frame.shift && !frame.alt
            && frame.key_pressed(key),
        InputBinding::KeyWithShift(key) => !frame.ctrl && frame.shift && !frame.alt
            && frame.key_pressed(key),
        InputBinding::KeyWithAlt(key) => !frame.ctrl && !frame.shift && frame.alt
            && frame.key_pressed(key),
        InputBinding::MouseMiddle => frame.middle_pressed && context.manga_mode
            && !context.fullscreen,
        InputBinding::Mouse4 => frame.extra1_pressed,
        InputBinding::Mouse5 => frame.extra2_pressed,
        InputBinding::ScrollUp => !in_strip && frame.scrolled_up && action != Action::ZoomIn && action
            != Action::ZoomOut,
        InputBinding::ScrollDown => !in_strip && frame.scrolled_down && action != Action::ZoomIn
            && action != Action::ZoomOut,
        InputBinding::CtrlScrollUp => false,
        InputBinding::CtrlScrollDown => false,
        InputBinding::MouseLeft => false,
        InputBinding::MouseRight => false,
    }
}

/// The actions that the first `count` bindings call for, in their order.
pub open spec fn fired_actions(
    bindings: Seq<(InputBinding, Action)>,
    frame: InputFrame,
    context: ViewerContext,
    count: int,
) -> Seq<Action>
    decreases count,
{
    if count <= 0 {
        Seq::empty()
    } else {
        let before = fired_actions(bindings, frame, context, count - 1);
        let (binding, action) = bindings[count - 1];
        if fires(binding, action, frame, context) {
            before.push(action)
        } else {
            before
        }
    }
}

/// What the input of a frame comes to first of all.
#[derive(Clone, Copy, Debug, PartialEq, Eq, Structural)]
pub enum InputCommand {
    /// Open the page under the pointer by itself, and nothing else.
    OpenStripItem,
    /// Go back to the strip, and nothing else.
    ReturnToStrip,
    /// Enter or leave full screen, and nothing else.
    ToggleFullscreen,
    /// Run the actions.  `toggle_media` says whether to pause or go on first.
    RunActions { toggle_media: bool },
}

/// The click stops automatic scrolling and does nothing else.
pub open spec fn stops_autoscroll(frame: InputFrame, context: ViewerContext) -> bool {
    context.autoscroll_active && (frame.primary_clicked || frame.secondary_clicked)
}

/// The page under the pointer is opened by itself.
pub open spec fn opens_page(frame: InputFrame, context: ViewerContext) -> bool {
    context.in_strip() && opens_strip_item(context.strip_item_open, frame) && !frame.pointer_blocked
}

/// The action that a right click has by its place.
pub open spec fn place_action(place: PointerPlace, context: ViewerContext) -> Option<Action> {
    if !context.manga_mode && place.bar_action is Some {
        place.bar_action
    } else {
        match place.zone {
            ClickZone::Left => Some(Action::PreviousImage),
            ClickZone::Right => Some(Action::NextImage),
            ClickZone::Center => None,
        }
    }
}

/// A right click counts, in this place.
pub open spec fn right_click(frame: InputFrame, context: ViewerContext) -> Option<PointerPlace> {
    if frame.secondary_clicked && !frame.pointer_blocked && !(context.in_strip()
        && context.strip_item_open == InputBinding::MouseRight) {
        frame.pointer
    } else {
        None
    }
}

/// What the input of a frame comes to.
pub open spec fn input_command(frame: InputFrame, context: ViewerContext) -> InputCommand {
    let click = right_click(frame, context);
    let navigates = !stops_autoscroll(frame, context) && click is Some && place_action(
        click->0,
        context,
    ) is Some;
    if !stops_autoscroll(frame, context) && opens_page(frame, context) {
        InputCommand::OpenStripItem
    } else if !stops_autoscroll(frame, context) && click is Some && !navigates && !context.manga_mode {
        if context.fullscreen && context.has_strip_return {
            InputCommand::ReturnToStrip
        } else {
            InputCommand::ToggleFullscreen
        }
    } else {
        InputCommand::RunActions {
            toggle_media: !navigates && frame.secondary_clicked && frame.hover_zone == Some(
                ClickZone::Center,
            ),
        }
    }
}

/// The actions that the input of a frame calls for.
pub open spec fn input_actions(
    bindings: Seq<(InputBinding, Action)>,
    frame: InputFrame,
    context: ViewerContext,
) -> Seq<Action> {
    let click = right_click(frame, context);
    let bound = fired_actions(bindings, frame, context, bindings.len() as int);
    if stops_autoscroll(frame, context) || opens_page(frame, context) {
        Seq::empty()
    } else if click is Some && place_action(click->0, context) is Some {
        bound.push(place_action(click->0, context)->0)
    } else {
        bound
    }
}

/// Finds out what the input of a frame calls for.
pub fn handle_input(
    bindings: &Vec<(InputBinding, Action)>,
    frame: &InputFrame,
    context: &ViewerContext,
) -> (outcome: (InputCommand, Vec<Action>))
    ensures
        outcome.0 == input_command(*frame, *context),
        outcome.1@ == input_actions(bindings@, *frame, *context),
{
    let mut actions: Vec<Action> = Vec::new();
    let hover_center = match frame.hover_zone {
        Some(ClickZone::Center) => true,
        _ => false,
    };
    if context.autoscroll_active && (frame.primary_clicked || frame.secondary_clicked) {
        let toggle_media = frame.secondary_clicked && hover_center;
        return (InputCommand::RunActions { toggle_media }, actions);
    }
    let in_strip = context.manga_mode && context.fullscreen;
    if in_strip && strip_item_open_binding_triggered(&context.strip_item_open, frame)
        && !frame.pointer_blocked {
        return (InputCommand::OpenStripItem, actions);
    }
    let mut i: usize = 0;
    while i < bindings.len()
        invariant
            i <= bindings@.len(),
            actions@ == fired_actions(bindings@, *frame, *context, i as int),
        decreases bindings@.len() - i,
    {
        if binding_fires(&bindings[i].0, bindings[i].1, frame, context) {
            actions.push(bindings[i].1);
        }
        i = i + 1;
    }
    let mut navigated = false;
    if frame.secondary_clicked && !frame.pointer_blocked && !(in_strip && context.strip_item_open
        == InputBinding::MouseRight) {
        if let Some(place) = frame.pointer {
            let bar = if context.manga_mode {
                None
            } else {
                place.bar_action
            };
            let chosen = match bar {
                Some(action) => Some(action),
                None => match place.zone {
                    ClickZone::Left => Some(Action::PreviousImage),
                    ClickZone::Right => Some(Action::NextImage),
                    ClickZone::Center => None,
                },
            };
            match chosen {
                Some(action) => {
                    actions.push(action);
                    navigated = true;
                },
                None => {
                    if !context.manga_mode {
                        if context.fullscreen && context.has_strip_return {
                            return (InputCommand::ReturnToStrip, actions);
                        }
                        return (InputCommand::ToggleFullscreen, actions);
                    }
                },
            }
        }
    }
    let toggle_media = !navigated && frame.secondary_clicked && hover_center;
    (InputCommand::RunActions { toggle_media }, actions)
}

/// Nothing is bound to what opens a page, in a strip.
pub proof fn law_open_binding_has_no_action(
    action: Action,
    frame: InputFrame,
    context: ViewerContext,
)
    requires
        context.in_strip(),
    ensures
        !fires(context.strip_item_open, action, frame, context),
{
}

/// The arrow keys never turn to another file or rotate, in a strip.
pub proof fn law_arrows_scroll_the_strip(
    key: KeyCode,
    action: Action,
    frame: InputFrame,
    context: ViewerContext,
)
    requires
        context.in_strip(),
        is_arrow(key),
        yields_to_scrolling(action),
    ensures
        !fires(InputBinding::Key(key), action, frame, context),
{
}

/// The wheel never calls for an action in a strip, where it scrolls.
pub proof fn law_wheel_scrolls_the_strip(action: Action, frame: InputFrame, context: ViewerContext)
    requires
        context.in_strip(),
    ensures
        !fires(InputBinding::ScrollUp, action, frame, context),
        !fires(InputBinding::ScrollDown, action, frame, context),
{
}

/// A click that stops automatic scrolling calls for no action.
pub proof fn law_stopping_autoscroll_does_nothing_else(
    bindings: Seq<(InputBinding, Action)>,
    frame: InputFrame,
    context: ViewerContext,
)
    requires
        stops_autoscroll(frame, context),
    ensures
        input_actions(bindings, frame, context) == Seq::<Action>::empty(),
        input_command(frame, context) is RunActions,
{
}

pub open spec fn is_bound(bindings: Seq<(InputBinding, Action)>, binding: InputBinding) -> bool {
    exists|i: int| 0 <= i < bindings.len() && (#[trigger] bindings[i]).0 == binding
}

fn has_binding(bindings: &Vec<(InputBinding, Action)>, binding: InputBinding) -> (bound: bool)
    ensures
        bound == is_bound(bindings@, binding),
{
    let mut i: usize = 0;
    while i < bindings.len()
        invariant
            i <= bindings@.len(),
            forall|k: int| 0 <= k < i ==> (#[trigger] bindings@[k]).0 != binding,
        decreases bindings@.len() - i,
    {
        if bindings[i].0 == binding {
            assert(bindings@[i as int].0 == binding);
            return true;
        }
        i = i + 1;
    }
    false
}

/// Whether the Enter key toggles full screen: it does unless it is bound.
pub fn enter_toggles_fullscreen(bindings: &Vec<(InputBinding, Action)>, frame: &InputFrame) -> (
toggles: bool)
    ensures
        toggles == (frame.is_pressed(KeyCode::Enter) && !is_bound(
            bindings@,
            InputBinding::Key(KeyCode::Enter),
        )),
{
    frame.key_pressed(KeyCode::Enter) && !has_binding(bindings, InputBinding::Key(KeyCode::Enter))
}

/// A key is pressed that has its own meaning because nothing is bound to it.
pub open spec fn is_free_key(bindings: Seq<(InputBinding, Action)>, frame: InputFrame, key: KeyCode) -> bool {
    frame.is_pressed(key) && !is_bound(bindings, InputBinding::Key(key))
}

/// Where the keys for paging lead outside a strip, one after the other.
pub open spec fn key_navigation(bindings: Seq<(InputBinding, Action)>, frame: InputFrame) -> Seq<Navigate> {
    let first = if is_free_key(bindings, frame, KeyCode::PageUp) {
        seq![Navigate::Previous]
    } else {
        seq![]
    };
    let second = if is_free_key(bindings, frame, KeyCode::PageDown) {
        first.push(Navigate::Next)
    } else {
        first
    };
    let third = if is_free_key(bindings, frame, KeyCode::Home) {
        second.push(Navigate::First)
    } else {
        second
    };
    if is_free_key(bindings, frame, KeyCode::End) {
        third.push(Navigate::Last)
    } else {
        third
    }
}

/// Where the keys for paging lead outside a strip, one after the other.
pub fn navigation_keys(bindings: &Vec<(InputBinding, Action)>, frame: &InputFrame) -> (steps: Vec<
    Navigate,
>)
    ensures
        steps@ == key_navigation(bindings@, *frame),
{
    let mut steps: Vec<Navigate> = Vec::new();
    if frame.key_pressed(KeyCode::PageUp) && !has_binding(
        bindings,
        InputBinding::Key(KeyCode::PageUp),
    ) {
        steps.push(Navigate::Previous);
    }
    assert(steps@ =~= (if is_free_key(bindings@, *frame, KeyCode::PageUp) {
        seq![Navigate::Previous]
    } else {
        seq![]
    }));
    if frame.key_pressed(KeyCode::PageDown) && !has_binding(
        bindings,
        InputBinding::Key(KeyCode::PageDown),
    ) {
        steps.push(Navigate::Next);
    }
    if frame.key_pressed(KeyCode::Home) && !has_binding(bindings, InputBinding::Key(KeyCode::Home)) {
        steps.push(Navigate::First);
    }
    if frame.key_pressed(KeyCode::End) && !has_binding(bindings, InputBinding::Key(KeyCode::End)) {
        steps.push(Navigate::Last);
    }
    steps
}

/// One of the bindings zooms with Ctrl and the wheel.
pub open spec fn has_ctrl_zoom(bindings: Seq<(InputBinding, Action)>) -> bool {
    exists|i: int| 0 <= i < bindings.len() && is_ctrl_zoom(#[trigger] bindings[i])
}

/// Whether Ctrl and the wheel zoom: one of the zoom actions is bound to them.
pub fn ctrl_scroll_zoom_is_bound(bindings: &Vec<(InputBinding, Action)>) -> (bound: bool)
    ensures
        bound == exists|i: int| 0 <= i < bindings@.len() && is_ctrl_zoom(#[trigger] bindings@[i]),
        bound == has_ctrl_zoom(bindings@),
{
    let mut i: usize = 0;
    while i < bindings.len()
        invariant
            i <= bindings@.len(),
            forall|k: int| 0 <= k < i ==> !is_ctrl_zoom(#[trigger] bindings@[k]),
        decreases bindings@.len() - i,
    {
        let binding = bindings[i].0;
        let action = bindings[i].1;
        let zoom = match binding {
            InputBinding::CtrlScrollUp => action == Action::ZoomIn || action == Action::MangaZoomIn,
            InputBinding::CtrlScrollDown => action == Action::ZoomOut || action
                == Action::MangaZoomOut,
            _ => false,
        };
        if zoom {
            assert(is_ctrl_zoom(bindings@[i as int]));
            return true;
        }
        i = i + 1;
    }
    false
}

pub open spec fn is_ctrl_zoom(entry: (InputBinding, Action)) -> bool {
    ||| entry.0 == InputBinding::CtrlScrollUp && (entry.1 == Action::ZoomIn || entry.1
        == Action::MangaZoomIn)
    ||| entry.0 == InputBinding::CtrlScrollDown && (entry.1 == Action::ZoomOut || entry.1
        == Action::MangaZoomOut)
}

/// How a press of an arrow key is meant.
#[derive(Clone, Copy, Debug, PartialEq, Eq, Structural)]
pub enum ArrowPress {
    Nothing,
    /// The key was tapped.
    Tap,
    /// The key is being held.
    Hold,
}

/// The arrow keys in the frame before.
#[derive(Clone, Copy, Debug, PartialEq, Eq, Structural)]
pub struct ArrowKeys {
    pub left_was_down: bool,
    pub right_was_down: bool,
}

pub open spec fn arrow_press(pressed: bool, was_down: bool) -> ArrowPress {
    if !pressed {
        ArrowPress::Nothing
    } else if was_down {
        ArrowPress::Hold
    } else {
        ArrowPress::Tap
    }
}

impl ArrowKeys {
    /// Tells taps of the left and the right arrow key from their being held.
    pub fn frame(
        &mut self,
        left_pressed: bool,
        left_down: bool,
        right_pressed: bool,
        right_down: bool,
    ) -> (presses: (ArrowPress, ArrowPress))
        ensures
            presses.0 == arrow_press(left_pressed, old(self).left_was_down),
            presses.1 == arrow_press(right_pressed, old(self).right_was_down),
            *final(self) == (ArrowKeys { left_was_down: left_down, right_was_down: right_down }),
    {
        let left = if !left_pressed {
            ArrowPress::Nothing
        } else if self.left_was_down {
            ArrowPress::Hold
        } else {
            ArrowPress::Tap
        };
        let right = if !right_pressed {
            ArrowPress::Nothing
        } else if self.right_was_down {
            ArrowPress::Hold
        } else {
            ArrowPress::Tap
        };
        self.left_was_down = left_down;
        self.right_was_down = right_down;
        (left, right)
    }
}

/// How a zoom action is carried out.
#[derive(Clone, Copy, Debug, PartialEq, Eq, Structural)]
pub enum ZoomManner {
    /// As a step of the strip.
    Strip,
    /// At once.
    AtOnce,
    /// Gradually.
    Gradual,
}

/// What an action does.
#[derive(Clone, Copy, Debug, PartialEq, Eq, Structural)]
pub enum ActionEffect {
    Nothing,
    Exit,
    ToggleFullscreen,
    Navigate(Navigate),
    /// Turn the image by a quarter.
    Rotate { clockwise: bool },
    /// Go back to full size, at once or gradually.
    ResetZoom { at_once: bool },
    Zoom { direction: ZoomDirection, manner: ZoomManner },
    PlayPause,
    Mute,
}

pub open spec fn zoom_manner(fullscreen: bool, manga_mode: bool) -> ZoomManner {
    if fullscreen && manga_mode {
        ZoomManner::Strip
    } else if fullscreen {
        ZoomManner::AtOnce
    } else {
        ZoomManner::Gradual
    }
}

/// What an action does.
pub fn run_action(
    action: Action,
    fullscreen: bool,
    manga_mode: bool,
    image_loaded: bool,
    video_loaded: bool,
) -> (effect: ActionEffect)
    ensures
        effect == (match action {
            Action::Exit => ActionEffect::Exit,
            Action::ToggleFullscreen => ActionEffect::ToggleFullscreen,
            Action::NextImage => ActionEffect::Navigate(Navigate::Next),
            Action::PreviousImage => ActionEffect::Navigate(Navigate::Previous),
            Action::RotateClockwise => if image_loaded {
                ActionEffect::Rotate { clockwise: true }
            } else {
                ActionEffect::Nothing
            },
            Action::RotateCounterClockwise => if image_loaded {
                ActionEffect::Rotate { clockwise: false }
            } else {
                ActionEffect::Nothing
            },
            Action::ResetZoom => ActionEffect::ResetZoom { at_once: fullscreen },
            Action::ZoomIn => ActionEffect::Zoom {
                direction: ZoomDirection::In,
                manner: zoom_manner(fullscreen, manga_mode),
            },
            Action::ZoomOut => ActionEffect::Zoom {
                direction: ZoomDirection::Out,
                manner: zoom_manner(fullscreen, manga_mode),
            },
            Action::VideoPlayPause => if video_loaded {
                ActionEffect::PlayPause
            } else {
                ActionEffect::Nothing
            },
            Action::VideoMute => if video_loaded {
                ActionEffect::Mute
            } else {
                ActionEffect::Nothing
            },
            Action::MangaZoomIn => ActionEffect::Nothing,
            Action::MangaZoomOut => ActionEffect::Nothing,
        }),
{
    let manner = if fullscreen && manga_mode {
        ZoomManner::Strip
    } else if fullscreen {
        ZoomManner::AtOnce
    } else {
        ZoomManner::Gradual
    };
    match action {
        Action::Exit => ActionEffect::Exit,
        Action::ToggleFullscreen => ActionEffect::ToggleFullscreen,
        Action::NextImage => ActionEffect::Navigate(Navigate::Next),
        Action::PreviousImage => ActionEffect::Navigate(Navigate::Previous),
        Action::RotateClockwise => {
            if image_loaded {
                ActionEffect::Rotate { clockwise: true }
            } else {
                ActionEffect::Nothing
            }
        },
        Action::RotateCounterClockwise => {
            if image_loaded {
                ActionEffect::Rotate { clockwise: false }
            } else {
                ActionEffect::Nothing
            }
        },
        Action::ResetZoom => ActionEffect::ResetZoom { at_once: fullscreen },
        Action::ZoomIn => ActionEffect::Zoom { direction: ZoomDirection::In, manner },
        Action::ZoomOut => ActionEffect::Zoom { direction: ZoomDirection::Out, manner },
        Action::VideoPlayPause => {
            if video_loaded {
                ActionEffect::PlayPause
            } else {
                ActionEffect::Nothing
            }
        },
        Action::VideoMute => {
            if video_loaded {
                ActionEffect::Mute
            } else {
                ActionEffect::Nothing
            }
        },
        Action::MangaZoomIn => ActionEffect::Nothing,
        Action::MangaZoomOut => ActionEffect::Nothing,
    }
}

/// From left to right a position lies in the left part, the middle and the right part.
pub proof fn law_zones_follow_from_left_to_right(
    x: Coordinate,
    left_edge: Coordinate,
    right_edge: Coordinate,
    zone: ClickZone,
)
    requires
        call_ensures(click_zone, (x, left_edge, right_edge), zone),
        left_edge <= right_edge,
    ensures
        zone == ClickZone::Left <==> x < left_edge,
        zone == ClickZone::Right <==> right_edge < x,
        zone == ClickZone::Center <==> left_edge <= x <= right_edge,
{
}

/// A click to the left of the picture goes back and one to the right of it goes on, where
/// there is room; a click on the picture does neither.
pub proof fn law_bars_lead_to_the_neighbours(
    x: Coordinate,
    left: Coordinate,
    right: Coordinate,
    left_bar: bool,
    right_bar: bool,
    action: Option<Action>,
)
    requires
        call_ensures(right_click_black_bar_action, (x, left, right, left_bar, right_bar), action),
        left <= right,
    ensures
        left <= x <= right ==> action is None,
        x < left ==> (action is Some <==> left_bar),
        x > right ==> (action is Some <==> right_bar),
        action is Some && x < left ==> action == Some(Action::PreviousImage),
        action is Some && x > right ==> action == Some(Action::NextImage),
{
}

/// A key calls for its action exactly when it is pressed with the modifiers that it is
/// bound with and no others, outside a strip.
pub proof fn law_keys_need_their_modifiers(
    key: KeyCode,
    action: Action,
    frame: &InputFrame,
    context: &ViewerContext,
    plain: bool,
    ctrl: bool,
    shift: bool,
    alt: bool,
)
    requires
        call_ensures(binding_fires, (&InputBinding::Key(key), action, frame, context), plain),
        call_ensures(binding_fires, (&InputBinding::KeyWithCtrl(key), action, frame, context), ctrl),
        call_ensures(binding_fires, (&InputBinding::KeyWithShift(key), action, frame, context), shift),
        call_ensures(binding_fires, (&InputBinding::KeyWithAlt(key), action, frame, context), alt),
        !context.manga_mode || !context.fullscreen,
    ensures
        plain <==> frame.pressed@.contains(key) && !frame.ctrl && !frame.shift && !frame.alt,
        ctrl <==> frame.pressed@.contains(key) && frame.ctrl && !frame.shift && !frame.alt,
        shift <==> frame.pressed@.contains(key) && !frame.ctrl && frame.shift && !frame.alt,
        alt <==> frame.pressed@.contains(key) && !frame.ctrl && !frame.shift && frame.alt,
{
}

/// The further buttons of a mouse call for what they are bound to; the wheel does so
/// outside a strip, but for zooming; the left and the right button never do.
pub proof fn law_buttons_call_for_their_actions(
    action: Action,
    frame: &InputFrame,
    context: &ViewerContext,
    fourth: bool,
    fifth: bool,
    up: bool,
    down: bool,
    left: bool,
    right: bool,
    middle: bool,
)
    requires
        call_ensures(binding_fires, (&InputBinding::Mouse4, action, frame, context), fourth),
        call_ensures(binding_fires, (&InputBinding::Mouse5, action, frame, context), fifth),
        call_ensures(binding_fires, (&InputBinding::ScrollUp, action, frame, context), up),
        call_ensures(binding_fires, (&InputBinding::ScrollDown, action, frame, context), down),
        call_ensures(binding_fires, (&InputBinding::MouseLeft, action, frame, context), left),
        call_ensures(binding_fires, (&InputBinding::MouseRight, action, frame, context), right),
        call_ensures(binding_fires, (&InputBinding::MouseMiddle, action, frame, context), middle),
        !context.manga_mode || !context.fullscreen,
    ensures
        fourth == frame.extra1_pressed,
        fifth == frame.extra2_pressed,
        up <==> frame.scrolled_up && action != Action::ZoomIn && action != Action::ZoomOut,
        down <==> frame.scrolled_down && action != Action::ZoomIn && action != Action::ZoomOut,
        !left && !right,
        middle <==> frame.middle_pressed && context.manga_mode && !context.fullscreen,
{
}

/// What opens a page of a strip is heeded as it is bound.
pub proof fn law_pages_are_opened_as_bound(
    key: KeyCode,
    frame: &InputFrame,
    right: bool,
    middle: bool,
    plain: bool,
    ctrl: bool,
    left: bool,
)
    requires
        call_ensures(
            strip_item_open_binding_triggered,
            (&InputBinding::MouseRight, frame),
            right,
        ),
        call_ensures(
            strip_item_open_binding_triggered,
            (&InputBinding::MouseMiddle, frame),
            middle,
        ),
        call_ensures(strip_item_open_binding_triggered, (&InputBinding::Key(key), frame), plain),
        call_ensures(strip_item_open_binding_triggered, (&InputBinding::KeyWithCtrl(key), frame), ctrl),
        call_ensures(strip_item_open_binding_triggered, (&InputBinding::MouseLeft, frame), left),
    ensures
        right == frame.secondary_clicked,
        middle == frame.middle_pressed,
        plain <==> frame.pressed@.contains(key) && !frame.ctrl && !frame.shift && !frame.alt,
        ctrl <==> frame.pressed@.contains(key) && frame.ctrl && !frame.shift && !frame.alt,
        !left,
{
}

/// A right click outside a strip goes to the file on the side that was clicked, or else,
/// in the middle, to full screen, or back to the strip that one came from.  A click that
/// stops automatic scrolling, or that something else takes, does none of this.
pub proof fn law_right_clicks_go_where_they_are(
    bindings: &Vec<(InputBinding, Action)>,
    frame: &InputFrame,
    context: &ViewerContext,
    outcome: (InputCommand, Vec<Action>),
    place: PointerPlace,
)
    requires
        call_ensures(handle_input, (bindings, frame, context), outcome),
        !context.manga_mode,
        frame.secondary_clicked,
        frame.pointer == Some(place),
    ensures
        !context.autoscroll_active && !frame.pointer_blocked && place.bar_action is None && place.zone
            == ClickZone::Left ==> outcome.1@.len() > 0 && outcome.1@.last() == Action::PreviousImage,
        !context.autoscroll_active && !frame.pointer_blocked && place.bar_action is None && place.zone
            == ClickZone::Right ==> outcome.1@.len() > 0 && outcome.1@.last() == Action::NextImage,
        !context.autoscroll_active && !frame.pointer_blocked && place.bar_action is None && place.zone
            == ClickZone::Center ==> (if context.fullscreen && context.has_strip_return {
            outcome.0 is ReturnToStrip
        } else {
            outcome.0 is ToggleFullscreen
        }),
        !context.autoscroll_active && !frame.pointer_blocked ==> (place.bar_action matches Some(action)
            ==> outcome.1@.len() > 0 && outcome.1@.last() == action),
        context.autoscroll_active ==> outcome.1@.len() == 0 && outcome.0 is RunActions,
        frame.pointer_blocked ==> outcome.0 is RunActions,
{
}

/// The binding that opens a page of a strip opens it, and calls for nothing else.
pub proof fn law_opening_a_page_does_nothing_else(
    bindings: &Vec<(InputBinding, Action)>,
    frame: &InputFrame,
    context: &ViewerContext,
    outcome: (InputCommand, Vec<Action>),
    triggered: bool,
)
    requires
        call_ensures(handle_input, (bindings, frame, context), outcome),
        call_ensures(
            strip_item_open_binding_triggered,
            (&context.strip_item_open, frame),
            triggered,
        ),
    ensures
        outcome.0 is OpenStripItem ==> triggered && context.manga_mode && context.fullscreen
            && outcome.1@.len() == 0,
        triggered && context.manga_mode && context.fullscreen && !frame.pointer_blocked
            && !context.autoscroll_active ==> outcome.0 is OpenStripItem,
{
}

/// What is bound and fires is called for, in the order of the bindings, and nothing that
/// does not.
pub proof fn law_bound_actions_are_called_for(
    bindings: &Vec<(InputBinding, Action)>,
    frame: &InputFrame,
    context: &ViewerContext,
    outcome: (InputCommand, Vec<Action>),
    i: int,
    called: bool,
)
    requires
        call_ensures(handle_input, (bindings, frame, context), outcome),
        0 <= i < bindings@.len(),
        call_ensures(binding_fires, (&bindings@[i].0, bindings@[i].1, frame, context), called),
        !frame.secondary_clicked,
        !(context.autoscroll_active && frame.primary_clicked),
        !(context.manga_mode && context.fullscreen),
    ensures
        called ==> outcome.1@.contains(bindings@[i].1),
        outcome.1@.len() <= bindings@.len(),
{
    lemma_fired_actions(bindings@, *frame, *context, bindings@.len() as int, i);
}

proof fn lemma_fired_actions(
    bindings: Seq<(InputBinding, Action)>,
    frame: InputFrame,
    context: ViewerContext,
    count: int,
    i: int,
)
    requires
        0 <= count <= bindings.len(),
        0 <= i < bindings.len(),
    ensures
        fired_actions(bindings, frame, context, count).len() <= count,
        i < count && fires(bindings[i].0, bindings[i].1, frame, context) ==> fired_actions(
            bindings,
            frame,
            context,
            count,
        ).contains(bindings[i].1),
    decreases count,
{
    if count > 0 {
        lemma_fired_actions(bindings, frame, context, count - 1, i);
        let before = fired_actions(bindings, frame, context, count - 1);
        let all = fired_actions(bindings, frame, context, count);
        if i == count - 1 {
            if fires(bindings[i].0, bindings[i].1, frame, context) {
                assert(all[all.len() - 1] == bindings[i].1);
            }
        } else if i < count - 1 && fires(bindings[i].0, bindings[i].1, frame, context) {
            let k = choose|k: int| 0 <= k < before.len() && before[k] == bindings[i].1;
            assert(all[k] == bindings[i].1);
        }
    }
}

/// Enter toggles full screen unless it is bound.
pub proof fn law_enter_toggles_unless_bound(
    bindings: &Vec<(InputBinding, Action)>,
    frame: &InputFrame,
    toggles: bool,
    i: int,
)
    requires
        call_ensures(enter_toggles_fullscreen, (bindings, frame), toggles),
    ensures
        toggles ==> frame.pressed@.contains(KeyCode::Enter),
        0 <= i < bindings@.len() && bindings@[i].0 == InputBinding::Key(KeyCode::Enter) ==> !toggles,
        bindings@.len() == 0 ==> toggles == frame.pressed@.contains(KeyCode::Enter),
{
}

/// The keys that turn pages do so unless they are bound.
pub proof fn law_page_keys_turn_pages(
    bindings: &Vec<(InputBinding, Action)>,
    frame: &InputFrame,
    steps: Vec<Navigate>,
)
    requires
        call_ensures(navigation_keys, (bindings, frame), steps),
        bindings@.len() == 0,
    ensures
        frame.pressed@.contains(KeyCode::PageUp) ==> steps@.len() > 0 && steps@[0]
            == Navigate::Previous,
        frame.pressed@.contains(KeyCode::End) ==> steps@.len() > 0 && steps@.last() == Navigate::Last,
        frame.pressed@.contains(KeyCode::PageDown) && !frame.pressed@.contains(KeyCode::PageUp)
            ==> steps@.len() > 0 && steps@[0] == Navigate::Next,
        frame.pressed@.contains(KeyCode::Home) && !frame.pressed@.contains(KeyCode::PageUp)
            && !frame.pressed@.contains(KeyCode::PageDown) ==> steps@.len() > 0 && steps@[0]
            == Navigate::First,
        !frame.pressed@.contains(KeyCode::PageUp) && !frame.pressed@.contains(KeyCode::PageDown)
            && !frame.pressed@.contains(KeyCode::Home) && !frame.pressed@.contains(KeyCode::End)
            ==> steps@.len() == 0,
{
}

/// A page key that is bound turns no page.
pub proof fn law_bound_page_keys_turn_no_pages(
    bindings: &Vec<(InputBinding, Action)>,
    frame: &InputFrame,
    steps: Vec<Navigate>,
    i: int,
)
    requires
        call_ensures(navigation_keys, (bindings, frame), steps),
        0 <= i < bindings@.len(),
        bindings@[i].0 == InputBinding::Key(KeyCode::PageDown),
    ensures
        !steps@.contains(Navigate::Next),
{
    assert(is_bound(bindings@, InputBinding::Key(KeyCode::PageDown)));
}

/// Ctrl and the wheel zoom where an entry binds them to the zoom of their direction.
pub proof fn law_ctrl_wheel_zooms_where_bound(
    bindings: &Vec<(InputBinding, Action)>,
    bound: bool,
    i: int,
)
    requires
        call_ensures(ctrl_scroll_zoom_is_bound, (bindings,), bound),
    ensures
        0 <= i < bindings@.len() && bindings@[i].0 == InputBinding::CtrlScrollUp && bindings@[i].1
            == Action::ZoomIn ==> bound,
        0 <= i < bindings@.len() && bindings@[i].0 == InputBinding::CtrlScrollDown && bindings@[i].1
            == Action::ZoomOut ==> bound,
        0 <= i < bindings@.len() && bindings@[i].0 == InputBinding::CtrlScrollUp && bindings@[i].1
            == Action::MangaZoomIn ==> bound,
        0 <= i < bindings@.len() && bindings@[i].0 == InputBinding::CtrlScrollDown && bindings@[i].1
            == Action::MangaZoomOut ==> bound,
        bindings@.len() == 0 ==> !bound,
        bindings@.len() == 1 && bindings@[0].0 == InputBinding::CtrlScrollUp && bindings@[0].1
            == Action::ZoomOut ==> !bound,
        bindings@.len() == 1 && bindings@[0].0 != InputBinding::CtrlScrollUp && bindings@[0].0
            != InputBinding::CtrlScrollDown ==> !bound,
{
    if 0 <= i < bindings@.len() {
        assert(is_ctrl_zoom(bindings@[i]) ==> bound);
    }
}

/// An arrow key that was down before is held; one that was not is tapped.
pub proof fn law_arrows_are_tapped_or_held(
    keys: &mut ArrowKeys,
    left_pressed: bool,
    left_down: bool,
    right_pressed: bool,
    right_down: bool,
    presses: (ArrowPress, ArrowPress),
)
    requires
        call_ensures(
            ArrowKeys::frame,
            (keys, left_pressed, left_down, right_pressed, right_down),
            presses,
        ),
    ensures
        presses.0 == ArrowPress::Tap <==> left_pressed && !old(keys).left_was_down,
        presses.0 == ArrowPress::Hold <==> left_pressed && old(keys).left_was_down,
        presses.1 == ArrowPress::Tap <==> right_pressed && !old(keys).right_was_down,
        presses.1 == ArrowPress::Hold <==> right_pressed && old(keys).right_was_down,
        final(keys).left_was_down == left_down,
        final(keys).right_was_down == right_down,
{
}

/// Actions do what they are called: files are gone through in their direction, images are
/// turned and zoomed in theirs, and what needs an image or a video does nothing without
/// one.
pub proof fn law_actions_do_what_they_are_called(
    fullscreen: bool,
    manga_mode: bool,
    image: bool,
    video: bool,
    on: ActionEffect,
    back: ActionEffect,
    clockwise: ActionEffect,
    counter: ActionEffect,
    zoom_in: ActionEffect,
    zoom_out: ActionEffect,
    play: ActionEffect,
    mute: ActionEffect,
)
    requires
        call_ensures(run_action, (Action::NextImage, fullscreen, manga_mode, image, video), on),
        call_ensures(run_action, (Action::PreviousImage, fullscreen, manga_mode, image, video), back),
        call_ensures(
            run_action,
            (Action::RotateClockwise, fullscreen, manga_mode, image, video),
            clockwise,
        ),
        call_ensures(
            run_action,
            (Action::RotateCounterClockwise, fullscreen, manga_mode, image, video),
            counter,
        ),
        call_ensures(run_action, (Action::ZoomIn, fullscreen, manga_mode, image, video), zoom_in),
        call_ensures(run_action, (Action::ZoomOut, fullscreen, manga_mode, image, video), zoom_out),
        call_ensures(run_action, (Action::VideoPlayPause, fullscreen, manga_mode, image, video), play),
        call_ensures(run_action, (Action::VideoMute, fullscreen, manga_mode, image, video), mute),
    ensures
        on == ActionEffect::Navigate(Navigate::Next),
        back == ActionEffect::Navigate(Navigate::Previous),
        clockwise is Nothing <==> !image,
        counter is Nothing <==> !image,
        clockwise matches ActionEffect::Rotate { clockwise } ==> clockwise,
        counter matches ActionEffect::Rotate { clockwise } ==> !clockwise,
        clockwise is Rotate <==> image,
        zoom_in matches ActionEffect::Zoom { direction, manner } && direction == ZoomDirection::In && (
        manner == ZoomManner::Strip <==> fullscreen && manga_mode) && (manner == ZoomManner::Gradual
            <==> !fullscreen),
        zoom_out matches ActionEffect::Zoom { direction, .. } && direction == ZoomDirection::Out,
        play is PlayPause <==> video,
        play is Nothing <==> !video,
        mute is Mute <==> video,
        mute is Nothing <==> !video,
{
}

/// A key is pressed if it is among those that are.
pub proof fn law_pressed_keys_are_listed(frame: &InputFrame, key: KeyCode, pressed: bool)
    requires
        call_ensures(InputFrame::key_pressed, (frame, key), pressed),
    ensures
        pressed <==> frame.pressed@.contains(key),
{
}

/// Full screen is toggled, and a strip is gone back to, only by a right click in the
/// middle, outside a strip, that stops nothing; a strip is gone back to only in full
/// screen and if there is one.  Otherwise actions run, and what moves is paused by a right
/// click over the middle that goes nowhere.
pub proof fn law_commands_have_their_cause(
    bindings: &Vec<(InputBinding, Action)>,
    frame: &InputFrame,
    context: &ViewerContext,
    outcome: (InputCommand, Vec<Action>),
)
    requires
        call_ensures(handle_input, (bindings, frame, context), outcome),
    ensures
        outcome.0 is ToggleFullscreen || outcome.0 is ReturnToStrip ==> frame.secondary_clicked
            && !frame.pointer_blocked && !context.manga_mode && !context.autoscroll_active && (
        frame.pointer matches Some(place) && place.zone == ClickZone::Center && place.bar_action
            is None),
        outcome.0 is ReturnToStrip ==> context.fullscreen && context.has_strip_return,
        outcome.0 is ToggleFullscreen ==> !(context.fullscreen && context.has_strip_return),
        outcome.0 matches InputCommand::RunActions { toggle_media } ==> toggle_media
            ==> frame.secondary_clicked && frame.hover_zone == Some(ClickZone::Center),
        outcome.0 matches InputCommand::RunActions { toggle_media } ==> frame.secondary_clicked
            && frame.hover_zone == Some(ClickZone::Center) && (context.autoscroll_active
            || frame.pointer is None) ==> toggle_media,
        !frame.secondary_clicked && !frame.middle_pressed && frame.pressed@.len() == 0 ==> (
        outcome.0 matches InputCommand::RunActions { toggle_media } && !toggle_media),
{
}

} // verus!
