//! Per-action button state, reduced once per frame from the input events of that frame.
//!
//! A frame starts from the state the last frame left: what was held stays held, and the
//! `press` and `release` marks are cleared. Each event of the frame then changes at most
//! one button. At the end `press` says that the button went down at some point of the
//! frame, `release` that it went up, and `held` what the last change left.

use vstd::prelude::*;

verus! {

/// What the controller can be asked to do. Each action has one button.
#[derive(Debug, Clone, Copy, PartialEq, Eq, Structural)]
pub enum Action {
    Quit,
    MoveLeft,
    MoveRight,
    MoveUp,
    MoveDown,
    MoveForward,
    MoveBackward,
    LookLeft,
    LookRight,
    LookUp,
    LookDown,
    LookCw,
    LookCcw,
}

/// The keys the controller listens to; every other key is `Other`.
#[derive(Debug, Clone, Copy, PartialEq, Eq, Structural)]
pub enum KeyCode {
    W,
    A,
    S,
    D,
    R,
    F,
    Q,
    Left,
    Right,
    Up,
    Down,
    PageDown,
    PageUp,
    Other,
}

/// One event of the window, as far as the controller reads it.
#[derive(Debug, Clone, Copy, PartialEq, Eq, Structural)]
pub enum InputEvent {
    /// The window was asked to close.
    Closed,
    /// A key went down.
    KeyPressed { code: KeyCode },
    /// A key went up.
    KeyReleased { code: KeyCode },
    /// Anything else: the mouse, a resize, the focus.
    Other,
}

/// What is known of one button within a frame.
#[derive(Debug, Clone, Copy, PartialEq, Eq, Structural)]
pub struct ButtonState {
    /// The button is down.
    pub held: bool,
    /// The button went down during the frame.
    pub press: bool,
    /// The button went up during the frame.
    pub release: bool,
}

/// The state of every button of the controller.
#[derive(Debug, Clone, Copy, PartialEq, Eq, Structural)]
pub struct ControllerState {
    pub quit: ButtonState,
    pub move_left: ButtonState,
    pub move_right: ButtonState,
    pub move_up: ButtonState,
    pub move_down: ButtonState,
    pub move_forward: ButtonState,
    pub move_backward: ButtonState,
    pub look_left: ButtonState,
    pub look_right: ButtonState,
    pub look_up: ButtonState,
    pub look_down: ButtonState,
    pub look_cw: ButtonState,
    pub look_ccw: ButtonState,
}

impl KeyCode {
    /// The action a key is bound to, if any.
    pub open spec fn binding(self) -> Option<Action> {
        match self {
            KeyCode::W => Some(Action::MoveForward),
            KeyCode::A => Some(Action::MoveLeft),
            KeyCode::S => Some(Action::MoveBackward),
            KeyCode::D => Some(Action::MoveRight),
            KeyCode::R => Some(Action::MoveUp),
            KeyCode::F => Some(Action::MoveDown),
            KeyCode::Q => Some(Action::Quit),
            KeyCode::Left => Some(Action::LookLeft),
            KeyCode::Right => Some(Action::LookRight),
            KeyCode::Up => Some(Action::LookUp),
            KeyCode::Down => Some(Action::LookDown),
            KeyCode::PageDown => Some(Action::LookCw),
            KeyCode::PageUp => Some(Action::LookCcw),
            KeyCode::Other => None,
        }
    }

    /// Looks up the action this key is bound to.
    pub fn action(self) -> (bound: Option<Action>)
        ensures
            bound == self.binding(),
    {
        match self {
            KeyCode::W => Some(Action::MoveForward),
            KeyCode::A => Some(Action::MoveLeft),
            KeyCode::S => Some(Action::MoveBackward),
            KeyCode::D => Some(Action::MoveRight),
            KeyCode::R => Some(Action::MoveUp),
            KeyCode::F => Some(Action::MoveDown),
            KeyCode::Q => Some(Action::Quit),
            KeyCode::Left => Some(Action::LookLeft),
            KeyCode::Right => Some(Action::LookRight),
            KeyCode::Up => Some(Action::LookUp),
            KeyCode::Down => Some(Action::LookDown),
            KeyCode::PageDown => Some(Action::LookCw),
            KeyCode::PageUp => Some(Action::LookCcw),
            KeyCode::Other => None,
        }
    }
}

/// No two keys are bound to the same action.
pub proof fn lemma_binding_one_key(first: KeyCode, second: KeyCode)
    requires
        first.binding() is Some,
        first.binding() == second.binding(),
    ensures
        first == second,
{
}

/// Every action has a key bound to it.
pub proof fn lemma_action_has_key(action: Action) -> (code: KeyCode)
    ensures
        code.binding() == Some(action),
{
    match action {
        Action::MoveForward => KeyCode::W,
        Action::MoveLeft => KeyCode::A,
        Action::MoveBackward => KeyCode::S,
        Action::MoveRight => KeyCode::D,
        Action::MoveUp => KeyCode::R,
        Action::MoveDown => KeyCode::F,
        Action::Quit => KeyCode::Q,
        Action::LookLeft => KeyCode::Left,
        Action::LookRight => KeyCode::Right,
        Action::LookUp => KeyCode::Up,
        Action::LookDown => KeyCode::Down,
        Action::LookCw => KeyCode::PageDown,
        Action::LookCcw => KeyCode::PageUp,
    }
}

impl InputEvent {
    /// Whether this event puts the button of `action` down. Closing the window
    /// counts as pressing quit.
    pub open spec fn presses(self, action: Action) -> bool {
        match self {
            InputEvent::Closed => action == Action::Quit,
            InputEvent::KeyPressed { code } => code.binding() == Some(action),
            InputEvent::KeyReleased { .. } => false,
            InputEvent::Other => false,
        }
    }

    /// Whether this event lets the button of `action` up.
    pub open spec fn releases(self, action: Action) -> bool {
        match self {
            InputEvent::KeyReleased { code } => code.binding() == Some(action),
            InputEvent::Closed => false,
            InputEvent::KeyPressed { .. } => false,
            InputEvent::Other => false,
        }
    }

    /// Whether this event changes the button of `action` at all.
    pub open spec fn concerns(self, action: Action) -> bool {
        self.presses(action) || self.releases(action)
    }
}

/// An event concerns at most one button, and does not both press and release it.
pub proof fn lemma_event_concerns_one(event: InputEvent, first: Action, second: Action)
    requires
        event.concerns(first),
        event.concerns(second),
    ensures
        first == second,
        event.presses(first) != event.releases(first),
{
}

/// Whether some event of the frame puts the button of `action` down.
pub open spec fn pressed_in(events: Seq<InputEvent>, action: Action) -> bool {
    exists|i: int| 0 <= i < events.len() && #[trigger] events[i].presses(action)
}

/// Whether some event of the frame lets the button of `action` up.
pub open spec fn released_in(events: Seq<InputEvent>, action: Action) -> bool {
    exists|i: int| 0 <= i < events.len() && #[trigger] events[i].releases(action)
}

/// Whether the button of `action` is down after the events, given whether it was
/// down before them: the last event that concerns the button decides.
pub open spec fn held_after(before: bool, events: Seq<InputEvent>, action: Action) -> bool
    decreases events.len(),
{
    if events.len() == 0 {
        before
    } else if events.last().presses(action) {
        true
    } else if events.last().releases(action) {
        false
    } else {
        held_after(before, events.drop_last(), action)
    }
}

/// One more event at the end of a frame acts on what the frame had made of the button.
pub proof fn lemma_frame_step(
    start: ButtonState,
    events: Seq<InputEvent>,
    event: InputEvent,
    action: Action,
)
    ensures
        start.after_frame(events.push(event), action) == start.after_frame(events, action).after(
            event,
            action,
        ),
{
    let longer = events.push(event);
    assert(longer.last() == event);
    assert(longer.drop_last() =~= events);
    if event.presses(action) {
        assert(longer[events.len() as int].presses(action));
    }
    if event.releases(action) {
        assert(longer[events.len() as int].releases(action));
    }
    if pressed_in(events, action) {
        let i = choose|i: int| 0 <= i < events.len() && #[trigger] events[i].presses(action);
        assert(longer[i].presses(action));
    }
    if released_in(events, action) {
        let i = choose|i: int| 0 <= i < events.len() && #[trigger] events[i].releases(action);
        assert(longer[i].releases(action));
    }
    if pressed_in(longer, action) && !event.presses(action) {
        let i = choose|i: int| 0 <= i < longer.len() && #[trigger] longer[i].presses(action);
        assert(events[i].presses(action));
    }
    if released_in(longer, action) && !event.releases(action) {
        let i = choose|i: int| 0 <= i < longer.len() && #[trigger] longer[i].releases(action);
        assert(events[i].releases(action));
    }
}

/// A frame without events leaves each button down or up as it was, with no mark.
pub proof fn lemma_frame_of_nothing(start: ButtonState, action: Action)
    ensures
        start.after_frame(Seq::empty(), action) == start.settled(),
{
}

/// Where no event of the frame concerns a button, it stays down or up as it was.
pub proof fn lemma_held_kept_without_change(
    before: bool,
    events: Seq<InputEvent>,
    action: Action,
)
    requires
        forall|k: int| 0 <= k < events.len() ==> !(#[trigger] events[k]).concerns(action),
    ensures
        held_after(before, events, action) == before,
    decreases events.len(),
{
    if events.len() > 0 {
        assert(!events[events.len() - 1].concerns(action));
        lemma_held_kept_without_change(before, events.drop_last(), action);
    }
}

/// The last event that concerns a button decides whether it is down after the
/// frame: it is down exactly if that event pressed it.
pub proof fn lemma_held_follows_last_change(
    before: bool,
    events: Seq<InputEvent>,
    action: Action,
    last: int,
)
    requires
        0 <= last < events.len(),
        events[last].concerns(action),
        forall|k: int| last < k < events.len() ==> !(#[trigger] events[k]).concerns(action),
    ensures
        held_after(before, events, action) == events[last].presses(action),
    decreases events.len(),
{
    if last < events.len() - 1 {
        assert(!events[events.len() - 1].concerns(action));
        lemma_held_follows_last_change(before, events.drop_last(), action, last);
    }
}

/// The marks of a frame bound where it ends: a button that went down and never up
/// is down, and one that went up and never down is up.
pub proof fn lemma_marks_bound_held(before: bool, events: Seq<InputEvent>, action: Action)
    ensures
        pressed_in(events, action) && !released_in(events, action) ==> held_after(
            before,
            events,
            action,
        ),
        released_in(events, action) && !pressed_in(events, action) ==> !held_after(
            before,
            events,
            action,
        ),
        !pressed_in(events, action) && !released_in(events, action) ==> held_after(
            before,
            events,
            action,
        ) == before,
    decreases events.len(),
{
    if events.len() > 0 {
        let start = ButtonState { held: before, press: false, release: false };
        let shorter = events.drop_last();
        assert(shorter.push(events.last()) =~= events);
        lemma_frame_step(start, shorter, events.last(), action);
        lemma_marks_bound_held(before, shorter, action);
    }
}

impl ButtonState {
    /// The button that is up and saw no change.
    pub open spec fn idle() -> ButtonState {
        ButtonState { held: false, press: false, release: false }
    }

    /// The button as a new frame finds it: down or up as before, with no change seen.
    pub open spec fn settled(self) -> ButtonState {
        ButtonState { held: self.held, press: false, release: false }
    }

    /// The button after one event, where it is the button of `action`.
    pub open spec fn after(self, event: InputEvent, action: Action) -> ButtonState {
        if event.presses(action) {
            ButtonState { held: true, press: true, release: self.release }
        } else if event.releases(action) {
            ButtonState { held: false, press: self.press, release: true }
        } else {
            self
        }
    }

    /// The button at the end of a frame that brought `events`, where it is the
    /// button of `action` and `self` is what the last frame left.
    pub open spec fn after_frame(self, events: Seq<InputEvent>, action: Action) -> ButtonState {
        ButtonState {
            held: held_after(self.held, events, action),
            press: pressed_in(events, action),
            release: released_in(events, action),
        }
    }

    /// A button that is up and saw no change.
    pub fn default() -> (state: ButtonState)
        ensures
            state == ButtonState::idle(),
    {
        ButtonState { held: false, press: false, release: false }
    }
}

impl ControllerState {
    /// The button of an action.
    pub open spec fn button(self, action: Action) -> ButtonState {
        match action {
            Action::Quit => self.quit,
            Action::MoveLeft => self.move_left,
            Action::MoveRight => self.move_right,
            Action::MoveUp => self.move_up,
            Action::MoveDown => self.move_down,
            Action::MoveForward => self.move_forward,
            Action::MoveBackward => self.move_backward,
            Action::LookLeft => self.look_left,
            Action::LookRight => self.look_right,
            Action::LookUp => self.look_up,
            Action::LookDown => self.look_down,
            Action::LookCw => self.look_cw,
            Action::LookCcw => self.look_ccw,
        }
    }

    /// This controller with the button of one action replaced.
    pub open spec fn with(self, action: Action, state: ButtonState) -> ControllerState {
        match action {
            Action::Quit => ControllerState { quit: state, ..self },
            Action::MoveLeft => ControllerState { move_left: state, ..self },
            Action::MoveRight => ControllerState { move_right: state, ..self },
            Action::MoveUp => ControllerState { move_up: state, ..self },
            Action::MoveDown => ControllerState { move_down: state, ..self },
            Action::MoveForward => ControllerState { move_forward: state, ..self },
            Action::MoveBackward => ControllerState { move_backward: state, ..self },
            Action::LookLeft => ControllerState { look_left: state, ..self },
            Action::LookRight => ControllerState { look_right: state, ..self },
            Action::LookUp => ControllerState { look_up: state, ..self },
            Action::LookDown => ControllerState { look_down: state, ..self },
            Action::LookCw => ControllerState { look_cw: state, ..self },
            Action::LookCcw => ControllerState { look_ccw: state, ..self },
        }
    }

    /// The controller whose button of each action is `change` of that action and of
    /// its button here.
    pub open spec fn each(
        self,
        change: spec_fn(Action, ButtonState) -> ButtonState,
    ) -> ControllerState {
        ControllerState {
            quit: change(Action::Quit, self.quit),
            move_left: change(Action::MoveLeft, self.move_left),
            move_right: change(Action::MoveRight, self.move_right),
            move_up: change(Action::MoveUp, self.move_up),
            move_down: change(Action::MoveDown, self.move_down),
            move_forward: change(Action::MoveForward, self.move_forward),
            move_backward: change(Action::MoveBackward, self.move_backward),
            look_left: change(Action::LookLeft, self.look_left),
            look_right: change(Action::LookRight, self.look_right),
            look_up: change(Action::LookUp, self.look_up),
            look_down: change(Action::LookDown, self.look_down),
            look_cw: change(Action::LookCw, self.look_cw),
            look_ccw: change(Action::LookCcw, self.look_ccw),
        }
    }

    /// The controller with every button up and unmarked.
    pub open spec fn idle() -> ControllerState {
        ControllerState {
            quit: ButtonState::idle(),
            move_left: ButtonState::idle(),
            move_right: ButtonState::idle(),
            move_up: ButtonState::idle(),
            move_down: ButtonState::idle(),
            move_forward: ButtonState::idle(),
            move_backward: ButtonState::idle(),
            look_left: ButtonState::idle(),
            look_right: ButtonState::idle(),
            look_up: ButtonState::idle(),
            look_down: ButtonState::idle(),
            look_cw: ButtonState::idle(),
            look_ccw: ButtonState::idle(),
        }
    }

    /// The controller as a new frame finds it: no button keeps a mark.
    pub open spec fn settled(self) -> ControllerState {
        self.each(|action: Action, button: ButtonState| button.settled())
    }

    /// The controller after one event.
    pub open spec fn after(self, event: InputEvent) -> ControllerState {
        self.each(|action: Action, button: ButtonState| button.after(event, action))
    }

    /// The controller at the end of a frame that brought `events`, where `self` is
    /// what the last frame left.
    pub open spec fn after_frame(self, events: Seq<InputEvent>) -> ControllerState {
        self.each(|action: Action, button: ButtonState| button.after_frame(events, action))
    }

    /// A change made to each button shows on the button of every action.
    pub proof fn lemma_each_button(
        self,
        change: spec_fn(Action, ButtonState) -> ButtonState,
        action: Action,
    )
        ensures
            self.each(change).button(action) == change(action, self.button(action)),
    {
    }

    /// Replacing one button changes that button and no other.
    pub proof fn lemma_with_changes_one(self, action: Action, state: ButtonState)
        ensures
            self.with(action, state).button(action) == state,
            forall|other: Action|
                other != action ==> #[trigger] self.with(action, state).button(other)
                    == self.button(other),
    {
        match action {
            Action::Quit => {},
            Action::MoveLeft => {},
            Action::MoveRight => {},
            Action::MoveUp => {},
            Action::MoveDown => {},
            Action::MoveForward => {},
            Action::MoveBackward => {},
            Action::LookLeft => {},
            Action::LookRight => {},
            Action::LookUp => {},
            Action::LookDown => {},
            Action::LookCw => {},
            Action::LookCcw => {},
        }
    }

    /// An event changes the one button it concerns, and nothing where it concerns
    /// none.
    pub proof fn lemma_event_changes_one(self, event: InputEvent, action: Action)
        requires
            event.concerns(action),
        ensures
            self.after(event) == self.with(action, self.button(action).after(event, action)),
    {
        match action {
            Action::Quit => {},
            Action::MoveLeft => {},
            Action::MoveRight => {},
            Action::MoveUp => {},
            Action::MoveDown => {},
            Action::MoveForward => {},
            Action::MoveBackward => {},
            Action::LookLeft => {},
            Action::LookRight => {},
            Action::LookUp => {},
            Action::LookDown => {},
            Action::LookCw => {},
            Action::LookCcw => {},
        }
    }

    /// An event that concerns no button leaves the controller as it is.
    pub proof fn lemma_event_changes_none(self, event: InputEvent)
        requires
            forall|action: Action| !event.concerns(action),
        ensures
            self.after(event) == self,
    {
        assert(!event.concerns(Action::Quit));
        assert(!event.concerns(Action::MoveLeft));
        assert(!event.concerns(Action::MoveRight));
        assert(!event.concerns(Action::MoveUp));
        assert(!event.concerns(Action::MoveDown));
        assert(!event.concerns(Action::MoveForward));
        assert(!event.concerns(Action::MoveBackward));
        assert(!event.concerns(Action::LookLeft));
        assert(!event.concerns(Action::LookRight));
        assert(!event.concerns(Action::LookUp));
        assert(!event.concerns(Action::LookDown));
        assert(!event.concerns(Action::LookCw));
        assert(!event.concerns(Action::LookCcw));
    }

    /// One more event at the end of a frame acts on what the frame had made of the
    /// controller.
    pub proof fn lemma_frame_step(self, events: Seq<InputEvent>, event: InputEvent)
        ensures
            self.after_frame(events.push(event)) == self.after_frame(events).after(event),
    {
        lemma_frame_step(self.quit, events, event, Action::Quit);
        lemma_frame_step(self.move_left, events, event, Action::MoveLeft);
        lemma_frame_step(self.move_right, events, event, Action::MoveRight);
        lemma_frame_step(self.move_up, events, event, Action::MoveUp);
        lemma_frame_step(self.move_down, events, event, Action::MoveDown);
        lemma_frame_step(self.move_forward, events, event, Action::MoveForward);
        lemma_frame_step(self.move_backward, events, event, Action::MoveBackward);
        lemma_frame_step(self.look_left, events, event, Action::LookLeft);
        lemma_frame_step(self.look_right, events, event, Action::LookRight);
        lemma_frame_step(self.look_up, events, event, Action::LookUp);
        lemma_frame_step(self.look_down, events, event, Action::LookDown);
        lemma_frame_step(self.look_cw, events, event, Action::LookCw);
        lemma_frame_step(self.look_ccw, events, event, Action::LookCcw);
    }

    /// A frame without events only clears the marks.
    pub proof fn lemma_frame_of_nothing(self)
        ensures
            self.after_frame(Seq::empty()) == self.settled(),
    {
        lemma_frame_of_nothing(self.quit, Action::Quit);
        lemma_frame_of_nothing(self.move_left, Action::MoveLeft);
        lemma_frame_of_nothing(self.move_right, Action::MoveRight);
        lemma_frame_of_nothing(self.move_up, Action::MoveUp);
        lemma_frame_of_nothing(self.move_down, Action::MoveDown);
        lemma_frame_of_nothing(self.move_forward, Action::MoveForward);
        lemma_frame_of_nothing(self.move_backward, Action::MoveBackward);
        lemma_frame_of_nothing(self.look_left, Action::LookLeft);
        lemma_frame_of_nothing(self.look_right, Action::LookRight);
        lemma_frame_of_nothing(self.look_up, Action::LookUp);
        lemma_frame_of_nothing(self.look_down, Action::LookDown);
        lemma_frame_of_nothing(self.look_cw, Action::LookCw);
        lemma_frame_of_nothing(self.look_ccw, Action::LookCcw);
    }

    /// A controller with every button up.
    pub fn default() -> (state: ControllerState)
        ensures
            state == ControllerState::idle(),
    {
        ControllerState {
            quit: ButtonState::default(),
            move_left: ButtonState::default(),
            move_right: ButtonState::default(),
            move_up: ButtonState::default(),
            move_down: ButtonState::default(),
            move_forward: ButtonState::default(),
            move_backward: ButtonState::default(),
            look_left: ButtonState::default(),
            look_right: ButtonState::default(),
            look_up: ButtonState::default(),
            look_down: ButtonState::default(),
            look_cw: ButtonState::default(),
            look_ccw: ButtonState::default(),
        }
    }

    /// Reads the button of an action.
    pub fn get(&self, action: Action) -> (state: ButtonState)
        ensures
            state == self.button(action),
    {
        match action {
            Action::Quit => self.quit,
            Action::MoveLeft => self.move_left,
            Action::MoveRight => self.move_right,
            Action::MoveUp => self.move_up,
            Action::MoveDown => self.move_down,
            Action::MoveForward => self.move_forward,
            Action::MoveBackward => self.move_backward,
            Action::LookLeft => self.look_left,
            Action::LookRight => self.look_right,
            Action::LookUp => self.look_up,
            Action::LookDown => self.look_down,
            Action::LookCw => self.look_cw,
            Action::LookCcw => self.look_ccw,
        }
    }

    /// Replaces the button of one action and leaves the others as they are.
    pub fn set(&mut self, action: Action, state: ButtonState)
        ensures
            *final(self) == old(self).with(action, state),
    {
        match action {
            Action::Quit => self.quit = state,
            Action::MoveLeft => self.move_left = state,
            Action::MoveRight => self.move_right = state,
            Action::MoveUp => self.move_up = state,
            Action::MoveDown => self.move_down = state,
            Action::MoveForward => self.move_forward = state,
            Action::MoveBackward => self.move_backward = state,
            Action::LookLeft => self.look_left = state,
            Action::LookRight => self.look_right = state,
            Action::LookUp => self.look_up = state,
            Action::LookDown => self.look_down = state,
            Action::LookCw => self.look_cw = state,
            Action::LookCcw => self.look_ccw = state,
        }
    }

    /// Takes in one event: the button it concerns, if any, goes down or up and
    /// keeps the mark of it; every other button stays as it is.
    pub fn apply(&mut self, event: InputEvent)
        ensures
            *final(self) == old(self).after(event),
    {
        match event {
            InputEvent::Closed => {
                let before = self.quit;
                let down = ButtonState { held: true, press: true, release: before.release };
                proof {
                    self.lemma_event_changes_one(event, Action::Quit);
                }
                self.quit = down;
            },
            InputEvent::KeyPressed { code } => {
                if let Some(action) = code.action() {
                    let before = self.get(action);
                    let down = ButtonState { held: true, press: true, release: before.release };
                    proof {
                        self.lemma_event_changes_one(event, action);
                    }
                    self.set(action, down);
                } else {
                    proof {
                        self.lemma_event_changes_none(event);
                    }
                }
            },
            InputEvent::KeyReleased { code } => {
                if let Some(action) = code.action() {
                    let before = self.get(action);
                    let up = ButtonState { held: false, press: before.press, release: true };
                    proof {
                        self.lemma_event_changes_one(event, action);
                    }
                    self.set(action, up);
                } else {
                    proof {
                        self.lemma_event_changes_none(event);
                    }
                }
            },
            InputEvent::Other => {
                proof {
                    self.lemma_event_changes_none(event);
                }
            },
        }
    }

    /// Starts a frame: every button stays down or up as it was and loses its marks.
    pub fn begin_frame(&mut self)
        ensures
            *final(self) == old(self).settled(),
    {
        let last = *self;
        *self = ControllerState {
            quit: ButtonState { held: last.quit.held, press: false, release: false },
            move_left: ButtonState { held: last.move_left.held, press: false, release: false },
            move_right: ButtonState { held: last.move_right.held, press: false, release: false },
            move_up: ButtonState { held: last.move_up.held, press: false, release: false },
            move_down: ButtonState { held: last.move_down.held, press: false, release: false },
            move_forward: ButtonState { held: last.move_forward.held, press: false, release: false },
            move_backward: ButtonState { held: last.move_backward.held, press: false, release: false },
            look_left: ButtonState { held: last.look_left.held, press: false, release: false },
            look_right: ButtonState { held: last.look_right.held, press: false, release: false },
            look_up: ButtonState { held: last.look_up.held, press: false, release: false },
            look_down: ButtonState { held: last.look_down.held, press: false, release: false },
            look_cw: ButtonState { held: last.look_cw.held, press: false, release: false },
            look_ccw: ButtonState { held: last.look_ccw.held, press: false, release: false },
        };
    }

    /// Runs one frame over the events that it brought, in their order: the marks of
    /// the last frame are cleared, then each event is taken in.
    ///
    /// Afterwards `press` of a button says whether some event pressed it, `release`
    /// whether some event released it, and `held` follows the last event that
    /// concerned it, or stays as it was where none did.
    pub fn update(&mut self, events: &[InputEvent])
        ensures
            *final(self) == old(self).after_frame(events@),
    {
        self.begin_frame();
        let mut done: usize = 0;
        proof {
            old(self).lemma_frame_of_nothing();
            assert(events@.take(0) =~= Seq::empty());
        }
        while done < events.len()
            invariant
                done <= events.len(),
                *self == old(self).after_frame(events@.take(done as int)),
            decreases events.len() - done,
        {
            proof {
                let seen = events@.take(done as int);
                assert(events@.take(done + 1) =~= seen.push(events@[done as int]));
                old(self).lemma_frame_step(seen, events@[done as int]);
            }
            self.apply(events[done]);
            done += 1;
        }
        proof {
            assert(events@.take(events.len() as int) =~= events@);
        }
    }
}

} // verus!
