//! What the driver does, as the simulation reads it: which actions are
//! under way, which have just begun or ended, how far the pedals are down
//! and where the hand is asked to go.

use std::collections::HashMap;
use vstd::prelude::*;
use crate::fixed::{clamped, trunc_div, ONE};

verus! {

broadcast use vstd::std_specs::hash::group_hash_axioms;

/// How an action stands: at rest, under way, or changed since the edges
/// were last settled.
#[derive(Clone, Copy, Debug, PartialEq, Eq, Structural)]
pub enum ActionState {
    Inactive,
    Active,
    JustActive,
    JustInactive,
}

/// What the driver can do.
#[derive(Clone, Copy, Debug, PartialEq, Eq, Structural, Hash)]
pub enum Action {
    Grab,
    Accelerate,
    Brake,
    Clutch,
    Quit,
}

/// The keys of the keyboard that are told apart.
#[derive(Clone, Copy, Debug, PartialEq, Eq, Structural, Hash)]
pub enum Key {
    W,
    A,
    S,
    D,
    Up,
    Down,
    Left,
    Right,
    Space,
    LShift,
    Escape,
    Other,
}

/// The buttons of a game controller that are told apart.
#[derive(Clone, Copy, Debug, PartialEq, Eq, Structural, Hash)]
pub enum Button {
    RightShoulder,
    LeftShoulder,
    Other,
}

/// The buttons of the mouse that are told apart.
#[derive(Clone, Copy, Debug, PartialEq, Eq, Structural, Hash)]
pub enum MouseButton {
    Left,
    Other,
}

/// The axes of a game controller that are told apart.
#[derive(Clone, Copy, Debug, PartialEq, Eq, Structural, Hash)]
pub enum Axis {
    RightX,
    RightY,
    Other,
}

/// One thing that a device reports.
#[derive(Clone, Copy, Debug, PartialEq, Eq, Structural)]
pub enum Event {
    Quit,
    KeyDown(Key),
    KeyUp(Key),
    ControllerButtonDown(Button),
    ControllerButtonUp(Button),
    MouseButtonDown(MouseButton),
    MouseButtonUp(MouseButton),
    ControllerAxisMotion(Axis, i16),
    MouseMotion(i32, i32),
    Other,
}

/// The action bound to a key, if any.
pub open spec fn key_action(key: Key) -> Option<Action> {
    match key {
        Key::W | Key::Up => Some(Action::Accelerate),
        Key::S | Key::Down => Some(Action::Brake),
        Key::Space => Some(Action::Grab),
        Key::LShift => Some(Action::Clutch),
        _ => None,
    }
}

/// The action bound to a controller button, if any.
pub open spec fn button_action(button: Button) -> Option<Action> {
    match button {
        Button::RightShoulder => Some(Action::Grab),
        Button::LeftShoulder => Some(Action::Clutch),
        Button::Other => None,
    }
}

/// The action bound to a mouse button, if any.
pub open spec fn mouse_action(button: MouseButton) -> Option<Action> {
    match button {
        MouseButton::Left => Some(Action::Grab),
        MouseButton::Other => None,
    }
}

impl Action {
    /// The action bound to a key, if any.
    pub fn from_key(key: Key) -> (action: Option<Action>)
        ensures
            action == key_action(key),
    {
        match key {
            Key::W | Key::Up => Some(Action::Accelerate),
            Key::S | Key::Down => Some(Action::Brake),
            Key::Space => Some(Action::Grab),
            Key::LShift => Some(Action::Clutch),
            _ => None,
        }
    }

    /// The action bound to a controller button, if any.
    pub fn from_button(button: Button) -> (action: Option<Action>)
        ensures
            action == button_action(button),
    {
        match button {
            Button::RightShoulder => Some(Action::Grab),
            Button::LeftShoulder => Some(Action::Clutch),
            Button::Other => None,
        }
    }

    /// The action bound to a mouse button, if any.
    pub fn from_mouse_button(button: MouseButton) -> (action: Option<Action>)
        ensures
            action == mouse_action(button),
    {
        match button {
            MouseButton::Left => Some(Action::Grab),
            MouseButton::Other => None,
        }
    }
}

/// The number under which an action is filed.
pub open spec fn slot_of(action: Action) -> u64 {
    match action {
        Action::Grab => 0,
        Action::Accelerate => 1,
        Action::Brake => 2,
        Action::Clutch => 3,
        Action::Quit => 4,
    }
}

fn slot(action: &Action) -> (out: u64)
    ensures
        out == slot_of(*action),
{
    match action {
        Action::Grab => 0,
        Action::Accelerate => 1,
        Action::Brake => 2,
        Action::Clutch => 3,
        Action::Quit => 4,
    }
}

/// Whether a recorded state means that the action is under way.
pub open spec fn is_active(state: Option<ActionState>) -> bool {
    state == Some(ActionState::JustActive) || state == Some(ActionState::Active)
}

/// Whether a recorded state means that the action has just begun or ended.
pub open spec fn is_changed(state: Option<ActionState>) -> bool {
    state == Some(ActionState::JustActive) || state == Some(ActionState::JustInactive)
}

/// A state once its edge is settled: what had just begun is under way, what
/// had just ended is at rest, and so is what was never recorded.
pub open spec fn settled(state: Option<ActionState>) -> ActionState {
    match state {
        Some(ActionState::JustActive) | Some(ActionState::Active) => ActionState::Active,
        _ => ActionState::Inactive,
    }
}

/// A state after its key went down: it has just begun, unless it was under
/// way already.
pub open spec fn pressed(state: Option<ActionState>) -> ActionState {
    match state {
        Some(ActionState::JustActive) | Some(ActionState::Active) => ActionState::Active,
        _ => ActionState::JustActive,
    }
}

/// A state after its key went up: it has just ended, unless it was at rest
/// already. An action never recorded counts as just ended.
pub open spec fn released(state: Option<ActionState>) -> ActionState {
    match state {
        Some(ActionState::Inactive) | Some(ActionState::JustInactive) => ActionState::Inactive,
        _ => ActionState::JustInactive,
    }
}

/// What a map records of an action.
pub open spec fn recorded(actions: Map<Action, ActionState>, action: Action) -> Option<
    ActionState,
> {
    if actions.contains_key(action) {
        Some(actions[action])
    } else {
        None
    }
}

/// Where a hand at `at` on one axis gets to when the mouse moves `moved`
/// steps at a sensitivity of `sensitivity` steps per unit: `at + moved /
/// sensitivity`, held between minus one and one. A negative sensitivity
/// mirrors the motion. At sensitivity zero any motion throws the hand to the
/// end of the axis.
pub open spec fn nudged(at: int, moved: int, sensitivity: int) -> int {
    if sensitivity > 0 {
        clamped(at + trunc_div(moved * ONE * ONE, sensitivity), -ONE as int, ONE as int)
    } else if sensitivity < 0 {
        clamped(at - trunc_div(moved * ONE * ONE, -sensitivity), -ONE as int, ONE as int)
    } else if moved > 0 {
        ONE as int
    } else if moved < 0 {
        -ONE as int
    } else {
        clamped(at, -ONE as int, ONE as int)
    }
}

/// Where a controller's stick puts the hand on one axis: one and a half
/// times the raw reading over its full scale, held between minus one and
/// one.
pub open spec fn from_raw(value: int) -> int {
    clamped(trunc_div(value * 1500, i16::MAX as int), -ONE as int, ONE as int)
}

/// What is recorded of each action: a map from actions to their states.
pub struct ActionMap {
    slots: HashMap<u64, ActionState>,
}

impl View for ActionMap {
    type V = Map<Action, ActionState>;

    closed spec fn view(&self) -> Map<Action, ActionState> {
        Map::new(
            |action: Action| self.slots@.contains_key(slot_of(action)),
            |action: Action| self.slots@[slot_of(action)],
        )
    }
}

impl ActionMap {
    /// A map with nothing recorded.
    pub fn new() -> (map: ActionMap)
        ensures
            map@ == Map::<Action, ActionState>::empty(),
    {
        let map = ActionMap { slots: HashMap::new() };
        assert(map@ =~= Map::<Action, ActionState>::empty());
        map
    }

    /// What is recorded of `action`.
    pub fn get(&self, action: &Action) -> (state: Option<&ActionState>)
        ensures
            match state {
                Some(found) => recorded(self@, *action) == Some(*found),
                None => recorded(self@, *action).is_none(),
            },
    {
        let key = slot(action);
        self.slots.get(&key)
    }

    /// Records `state` of `action` and returns what was recorded before.
    pub fn insert(&mut self, action: Action, state: ActionState) -> (before: Option<ActionState>)
        ensures
            final(self)@ == old(self)@.insert(action, state),
            before == recorded(old(self)@, action),
    {
        let before = self.slots.insert(slot(&action), state);
        assert(final(self)@ =~= old(self)@.insert(action, state));
        before
    }
}

/// The driver's input.
pub struct Input {
    pub action_map: ActionMap,
    pub mouse_sensitivity: i64,
    pub brake_alpha: i64,
    pub speeder_alpha: i64,
    pub hand: (i64, i64),
}

/// An [`Input`] as the contracts see it: the action map by what it records.
pub struct InputView {
    pub actions: Map<Action, ActionState>,
    pub mouse_sensitivity: i64,
    pub brake_alpha: i64,
    pub speeder_alpha: i64,
    pub hand: (i64, i64),
}

impl View for Input {
    type V = InputView;

    open spec fn view(&self) -> InputView {
        InputView {
            actions: self.action_map@,
            mouse_sensitivity: self.mouse_sensitivity,
            brake_alpha: self.brake_alpha,
            speeder_alpha: self.speeder_alpha,
            hand: self.hand,
        }
    }
}

impl InputView {
    /// What is recorded of one action.
    pub open spec fn state(self, action: Action) -> Option<ActionState> {
        recorded(self.actions, action)
    }

    /// Whether `action` is under way.
    pub open spec fn active(self, action: Action) -> bool {
        is_active(self.state(action))
    }

    /// Whether `action` has just begun or ended.
    pub open spec fn changed(self, action: Action) -> bool {
        is_changed(self.state(action))
    }

    /// The same input with `state` recorded of `action`.
    pub open spec fn with_state(self, action: Action, state: ActionState) -> InputView {
        InputView { actions: self.actions.insert(action, state), ..self }
    }

    /// The same input with the hand at `hand`.
    pub open spec fn with_hand(self, hand: (i64, i64)) -> InputView {
        InputView { hand, ..self }
    }

    /// The input after the key of an action went down; a key bound to no
    /// action changes nothing.
    pub open spec fn press(self, action: Option<Action>) -> InputView {
        match action {
            Some(action) => self.with_state(action, pressed(self.state(action))),
            None => self,
        }
    }

    /// The input after the key of an action went up; a key bound to no
    /// action changes nothing.
    pub open spec fn release(self, action: Option<Action>) -> InputView {
        match action {
            Some(action) => self.with_state(action, released(self.state(action))),
            None => self,
        }
    }

    /// The input after the edge of `action` is settled.
    pub open spec fn settle(self, action: Action) -> InputView {
        self.with_state(action, settled(self.state(action)))
    }

    /// The input after the mouse moved by `x` and `y` steps.
    pub open spec fn moved(self, x: i32, y: i32) -> InputView {
        self.with_hand(
            (
                nudged(self.hand.0 as int, x as int, self.mouse_sensitivity as int) as i64,
                nudged(self.hand.1 as int, y as int, self.mouse_sensitivity as int) as i64,
            ),
        )
    }

    /// The input after one event. Closing the window and the escape key ask
    /// to leave. Keys and buttons begin and end the actions bound to them.
    /// The right stick of a controller places the hand, the mouse moves it.
    /// Anything else is ignored.
    pub open spec fn after(self, event: Event) -> InputView {
        match event {
            Event::Quit | Event::KeyDown(Key::Escape) => self.with_state(
                Action::Quit,
                ActionState::Active,
            ),
            Event::KeyDown(key) => self.press(key_action(key)),
            Event::ControllerButtonDown(button) => self.press(button_action(button)),
            Event::MouseButtonDown(button) => self.press(mouse_action(button)),
            Event::KeyUp(key) => self.release(key_action(key)),
            Event::ControllerButtonUp(button) => self.release(button_action(button)),
            Event::MouseButtonUp(button) => self.release(mouse_action(button)),
            Event::ControllerAxisMotion(Axis::RightX, value) => self.with_hand(
                (from_raw(value as int) as i64, self.hand.1),
            ),
            Event::ControllerAxisMotion(Axis::RightY, value) => self.with_hand(
                (self.hand.0, from_raw(value as int) as i64),
            ),
            Event::ControllerAxisMotion(Axis::Other, _) => self,
            Event::MouseMotion(x, y) => self.moved(x, y),
            Event::Other => self,
        }
    }

    /// The input after a run of events, the first of them first.
    pub open spec fn after_all(self, events: Seq<Event>) -> InputView
        decreases events.len(),
    {
        if events.len() == 0 {
            self
        } else {
            self.after_all(events.drop_last()).after(events.last())
        }
    }
}

impl Input {
    /// An input with nothing recorded, both pedals' alpha at one and the hand
    /// in the middle.
    pub fn with_sensitivity(mouse_sensitivity: i64) -> (input: Input)
        ensures
            input@ == (InputView {
                actions: Map::empty(),
                mouse_sensitivity,
                brake_alpha: ONE,
                speeder_alpha: ONE,
                hand: (0, 0),
            }),
    {
        Input {
            action_map: ActionMap::new(),
            hand: (0, 0),
            mouse_sensitivity,
            brake_alpha: ONE,
            speeder_alpha: ONE,
        }
    }

    /// Moves the hand by what the mouse moved.
    pub fn update_hand_relatively(&mut self, x: i32, y: i32)
        ensures
            final(self)@ == old(self)@.moved(x, y),
            -ONE <= final(self).hand.0 <= ONE,
            -ONE <= final(self).hand.1 <= ONE,
    {
        let reduced_x = nudge(self.hand.0, x, self.mouse_sensitivity);
        let reduced_y = nudge(self.hand.1, y, self.mouse_sensitivity);
        self.hand = (reduced_x, reduced_y);
    }

    /// Puts the hand where a controller's stick points sideways.
    pub fn update_hand_from_raw_x(&mut self, value: i16)
        ensures
            final(self)@ == old(self)@.with_hand((from_raw(value as int) as i64, old(self).hand.1)),
            -ONE <= final(self).hand.0 <= ONE,
    {
        self.hand.0 = raw_axis(value);
    }

    /// Puts the hand where a controller's stick points along the rows.
    pub fn update_hand_from_raw_y(&mut self, value: i16)
        ensures
            final(self)@ == old(self)@.with_hand((old(self).hand.0, from_raw(value as int) as i64)),
            -ONE <= final(self).hand.1 <= ONE,
    {
        self.hand.1 = raw_axis(value);
    }

    /// What is recorded of `action`.
    pub fn get(&self, action: &Action) -> (state: Option<&ActionState>)
        ensures
            match state {
                Some(found) => self@.state(*action) == Some(*found),
                None => self@.state(*action).is_none(),
            },
    {
        self.action_map.get(action)
    }

    /// Records `state` of `action` and returns what was recorded before.
    pub fn insert(&mut self, action: Action, state: ActionState) -> (before: Option<ActionState>)
        ensures
            final(self)@ == old(self)@.with_state(action, state),
            before == old(self)@.state(action),
    {
        self.action_map.insert(action, state)
    }

    /// Whether `action` is under way.
    pub fn action_active(&self, action: &Action) -> (active: bool)
        ensures
            active == self@.active(*action),
    {
        match self.get(action) {
            Some(ActionState::JustActive) | Some(ActionState::Active) => true,
            _ => false,
        }
    }

    /// Whether `action` has begun or ended since its edge was last settled.
    pub fn action_changed(&self, action: &Action) -> (changed: bool)
        ensures
            changed == self@.changed(*action),
    {
        match self.get(action) {
            Some(ActionState::JustActive) | Some(ActionState::JustInactive) => true,
            _ => false,
        }
    }

    /// Settles the edge of `action`: afterwards it is under way or at rest,
    /// and no longer changed.
    pub fn action_tick(&mut self, action: Action)
        ensures
            final(self)@ == old(self)@.settle(action),
            !final(self)@.changed(action),
            final(self)@.active(action) == old(self)@.active(action),
    {
        let state = match self.get(&action) {
            Some(ActionState::JustActive) | Some(ActionState::Active) => ActionState::Active,
            _ => ActionState::Inactive,
        };
        self.insert(action, state);
    }

    /// Records that the key of `action` went down.
    pub fn key_down(&mut self, action: Action)
        ensures
            final(self)@ == old(self)@.press(Some(action)),
            final(self)@.active(action),
    {
        let state = match self.get(&action) {
            Some(ActionState::JustActive) | Some(ActionState::Active) => ActionState::Active,
            _ => ActionState::JustActive,
        };
        self.insert(action, state);
    }

    /// Records that the key of `action` went up.
    pub fn key_up(&mut self, action: Action)
        ensures
            final(self)@ == old(self)@.release(Some(action)),
            !final(self)@.active(action),
    {
        let state = match self.get(&action) {
            Some(ActionState::Inactive) | Some(ActionState::JustInactive) => ActionState::Inactive,
            _ => ActionState::JustInactive,
        };
        self.insert(action, state);
    }

    /// Whether the driver has asked to leave.
    pub fn quit_requested(&self) -> (quit: bool)
        ensures
            quit == self@.state(Action::Quit).is_some(),
    {
        self.get(&Action::Quit).is_some()
    }

    /// Takes in one event of a device.
    pub fn apply_event(&mut self, event: Event)
        ensures
            final(self)@ == old(self)@.after(event),
    {
        match event {
            Event::Quit | Event::KeyDown(Key::Escape) => {
                self.insert(Action::Quit, ActionState::Active);
            },
            Event::KeyDown(key) => {
                if let Some(action) = Action::from_key(key) {
                    self.key_down(action);
                }
            },
            Event::ControllerButtonDown(button) => {
                if let Some(action) = Action::from_button(button) {
                    self.key_down(action);
                }
            },
            Event::MouseButtonDown(button) => {
                if let Some(action) = Action::from_mouse_button(button) {
                    self.key_down(action);
                }
            },
            Event::KeyUp(key) => {
                if let Some(action) = Action::from_key(key) {
                    self.key_up(action);
                }
            },
            Event::ControllerButtonUp(button) => {
                if let Some(action) = Action::from_button(button) {
                    self.key_up(action);
                }
            },
            Event::MouseButtonUp(button) => {
                if let Some(action) = Action::from_mouse_button(button) {
                    self.key_up(action);
                }
            },
            Event::ControllerAxisMotion(axis, value) => match axis {
                Axis::RightX => self.update_hand_from_raw_x(value),
                Axis::RightY => self.update_hand_from_raw_y(value),
                Axis::Other => {},
            },
            Event::MouseMotion(x, y) => {
                self.update_hand_relatively(x, y);
            },
            Event::Other => {},
        }
    }

    /// Takes in the events that have come since the last tick, in their
    /// order.
    pub fn poll_events(&mut self, events: &Vec<Event>)
        ensures
            final(self)@ == old(self)@.after_all(events@),
    {
        let mut taken: usize = 0;
        while taken < events.len()
            invariant
                taken <= events.len(),
                self@ == old(self)@.after_all(events@.take(taken as int)),
            decreases events.len() - taken,
        {
            let event = events[taken];
            assert(events@.take(taken + 1).drop_last() == events@.take(taken as int));
            self.apply_event(event);
            taken += 1;
        }
        assert(events@.take(taken as int) == events@);
    }
}

/// Moves one axis of the hand: see [`nudged`].
pub fn nudge(at: i64, moved: i32, sensitivity: i64) -> (out: i64)
    ensures
        out == nudged(at as int, moved as int, sensitivity as int),
        -ONE <= out <= ONE,
{
    let travel: i128 = (moved as i128) * 1_000_000i128;
    assert(travel == moved * ONE * ONE);
    let to: i128 = if sensitivity > 0 {
        (at as i128) + travel / (sensitivity as i128)
    } else if sensitivity < 0 {
        (at as i128) - travel / (-(sensitivity as i128))
    } else if moved > 0 {
        ONE as i128
    } else if moved < 0 {
        -(ONE as i128)
    } else {
        at as i128
    };
    if to < -(ONE as i128) {
        -ONE
    } else if to > ONE as i128 {
        ONE
    } else {
        to as i64
    }
}

/// Reads one axis of a controller's stick: see [`from_raw`].
pub fn raw_axis(value: i16) -> (out: i64)
    ensures
        out == from_raw(value as int),
        -ONE <= out <= ONE,
{
    let reading: i64 = ((value as i64) * 1500) / 32767;
    if reading > ONE {
        ONE
    } else if reading < -ONE {
        -ONE
    } else {
        reading
    }
}

} // verus!
