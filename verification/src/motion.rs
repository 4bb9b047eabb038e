//! What the held buttons ask of the camera in one tick.
//!
//! The camera can change in six ways: it moves forward, to the right or down, and it
//! turns in yaw, pitch or roll. Each action but quit is one step along one of these,
//! ahead or in reverse. A tick takes the steps of the held buttons in a fixed order;
//! how far a step goes, and where forward lies, is for the caller to compute.

use crate::control::{Action, ControllerState};
use vstd::prelude::*;

verus! {

/// A way the camera pose can change.
#[derive(Debug, Clone, Copy, PartialEq, Eq, Structural)]
pub enum Motion {
    /// Along the view direction, kept level.
    Forward,
    /// Along the level direction a quarter turn from forward.
    Right,
    /// Along the vertical axis, which grows downward.
    Down,
    /// About the vertical axis.
    Yaw,
    /// About the lateral axis.
    Pitch,
    /// About the depth axis.
    Roll,
}

impl Motion {
    /// Whether the motion turns the camera; the others move it.
    pub open spec fn is_turn(self) -> bool {
        self is Yaw || self is Pitch || self is Roll
    }

    /// Tells whether the motion turns the camera rather than moving it.
    pub fn turns(self) -> (turn: bool)
        ensures
            turn == self.is_turn(),
    {
        match self {
            Motion::Forward => false,
            Motion::Right => false,
            Motion::Down => false,
            Motion::Yaw => true,
            Motion::Pitch => true,
            Motion::Roll => true,
        }
    }
}

/// One step of the camera: a motion, taken ahead or in reverse.
#[derive(Debug, Clone, Copy, PartialEq, Eq, Structural)]
pub struct Step {
    pub motion: Motion,
    pub reverse: bool,
}

impl Action {
    /// The step an action asks for while its button is held. Quit asks for none.
    pub open spec fn step(self) -> Option<Step> {
        match self {
            Action::MoveForward => Some(Step { motion: Motion::Forward, reverse: false }),
            Action::MoveBackward => Some(Step { motion: Motion::Forward, reverse: true }),
            Action::MoveDown => Some(Step { motion: Motion::Down, reverse: false }),
            Action::MoveUp => Some(Step { motion: Motion::Down, reverse: true }),
            Action::MoveLeft => Some(Step { motion: Motion::Right, reverse: true }),
            Action::MoveRight => Some(Step { motion: Motion::Right, reverse: false }),
            Action::LookLeft => Some(Step { motion: Motion::Yaw, reverse: false }),
            Action::LookRight => Some(Step { motion: Motion::Yaw, reverse: true }),
            Action::LookUp => Some(Step { motion: Motion::Pitch, reverse: true }),
            Action::LookDown => Some(Step { motion: Motion::Pitch, reverse: false }),
            Action::LookCw => Some(Step { motion: Motion::Roll, reverse: true }),
            Action::LookCcw => Some(Step { motion: Motion::Roll, reverse: false }),
            Action::Quit => None,
        }
    }

    /// The step of each action that asks for one.
    pub open spec fn asked() -> spec_fn(Action) -> Step {
        |action: Action| action.step()->0
    }

    /// The actions that move or turn the camera, in the order a tick takes them:
    /// every move comes before every turn.
    pub open spec fn tick_order() -> Seq<Action> {
        seq![
            Action::MoveForward,
            Action::MoveBackward,
            Action::MoveDown,
            Action::MoveUp,
            Action::MoveLeft,
            Action::MoveRight,
            Action::LookLeft,
            Action::LookRight,
            Action::LookUp,
            Action::LookDown,
            Action::LookCw,
            Action::LookCcw,
        ]
    }

    /// Looks up the step this action asks for.
    pub fn motion(self) -> (step: Option<Step>)
        ensures
            step == self.step(),
    {
        match self {
            Action::MoveForward => Some(Step { motion: Motion::Forward, reverse: false }),
            Action::MoveBackward => Some(Step { motion: Motion::Forward, reverse: true }),
            Action::MoveDown => Some(Step { motion: Motion::Down, reverse: false }),
            Action::MoveUp => Some(Step { motion: Motion::Down, reverse: true }),
            Action::MoveLeft => Some(Step { motion: Motion::Right, reverse: true }),
            Action::MoveRight => Some(Step { motion: Motion::Right, reverse: false }),
            Action::LookLeft => Some(Step { motion: Motion::Yaw, reverse: false }),
            Action::LookRight => Some(Step { motion: Motion::Yaw, reverse: true }),
            Action::LookUp => Some(Step { motion: Motion::Pitch, reverse: true }),
            Action::LookDown => Some(Step { motion: Motion::Pitch, reverse: false }),
            Action::LookCw => Some(Step { motion: Motion::Roll, reverse: true }),
            Action::LookCcw => Some(Step { motion: Motion::Roll, reverse: false }),
            Action::Quit => None,
        }
    }
}

/// The order in which a tick takes the actions.
fn tick_order() -> (order: [Action; 12])
    ensures
        order@ == Action::tick_order(),
{
    let order = [
        Action::MoveForward,
        Action::MoveBackward,
        Action::MoveDown,
        Action::MoveUp,
        Action::MoveLeft,
        Action::MoveRight,
        Action::LookLeft,
        Action::LookRight,
        Action::LookUp,
        Action::LookDown,
        Action::LookCw,
        Action::LookCcw,
    ];
    assert(order@ =~= Action::tick_order());
    order
}

impl ControllerState {
    /// Whether the button of an action is down, as a predicate on actions.
    pub open spec fn holds(self) -> spec_fn(Action) -> bool {
        |action: Action| self.button(action).held
    }

    /// What one action adds to a tick: its step where its button is held.
    pub open spec fn step_if_held(self, action: Action) -> Seq<Step> {
        if self.button(action).held {
            seq![action.step()->0]
        } else {
            Seq::empty()
        }
    }

    /// The steps of those actions of a list whose button is held, in the order of
    /// the list.
    pub open spec fn steps_among(self, actions: Seq<Action>) -> Seq<Step> {
        actions.filter(self.holds()).map_values(Action::asked())
    }

    /// The steps of one tick: one for each held button, in the order of the tick.
    pub open spec fn held_steps(self) -> Seq<Step> {
        self.steps_among(Action::tick_order())
    }

    /// Lists the steps that the held buttons ask for in this tick.
    pub fn steps(&self) -> (steps: Vec<Step>)
        ensures
            steps@ == self.held_steps(),
    {
        let order = tick_order();
        let mut steps: Vec<Step> = Vec::new();
        proof {
            assert(order@.take(0).filter(self.holds()) =~= Seq::<Action>::empty()) by {
                reveal(Seq::filter);
            }
        }
        for taken in 0..12
            invariant
                order@ == Action::tick_order(),
                steps@ == self.steps_among(order@.take(taken as int)),
        {
            let action = order[taken];
            proof {
                let seen = order@.take(taken as int);
                assert(order@.take(taken + 1) =~= seen.push(action));
                lemma_one_more_action(*self, seen, action);
            }
            if self.get(action).held {
                if let Some(step) = action.motion() {
                    steps.push(step);
                }
            }
        }
        proof {
            assert(order@.take(12) =~= order@);
        }
        steps
    }
}

/// Keeping some items of a list in which no move follows a turn gives such a list.
proof fn lemma_kept_in_order(order: Seq<Action>, keep: spec_fn(Action) -> bool)
    requires
        forall|i: int, j: int|
            0 <= i < j < order.len() && (#[trigger] order[i]).step()->0.motion.is_turn()
                ==> (#[trigger] order[j]).step()->0.motion.is_turn(),
    ensures
        forall|i: int|
            0 <= i < order.filter(keep).len() ==> order.contains(
                #[trigger] order.filter(keep)[i],
            ),
        forall|i: int, j: int|
            0 <= i < j < order.filter(keep).len() && (#[trigger] order.filter(
                keep,
            )[i]).step()->0.motion.is_turn() ==> (#[trigger] order.filter(
                keep,
            )[j]).step()->0.motion.is_turn(),
    decreases order.len(),
{
    reveal(Seq::filter);
    if order.len() > 0 {
        let front = order.drop_last();
        assert forall|i: int, j: int|
            0 <= i < j < front.len() && (#[trigger] front[i]).step()->0.motion.is_turn()
                implies (#[trigger] front[j]).step()->0.motion.is_turn() by {
            assert(front[i] == order[i] && front[j] == order[j]);
        }
        lemma_kept_in_order(front, keep);
        let kept = order.filter(keep);
        assert forall|i: int| 0 <= i < kept.len() implies order.contains(#[trigger] kept[i]) by {
            if i < front.filter(keep).len() {
                let at = choose|at: int| 0 <= at < front.len() && front[at] == front.filter(keep)[i];
                assert(order[at] == kept[i]);
            } else {
                assert(order[order.len() - 1] == kept[i]);
            }
        }
        assert forall|i: int, j: int|
            0 <= i < j < kept.len() && (#[trigger] kept[i]).step()->0.motion.is_turn()
                implies (#[trigger] kept[j]).step()->0.motion.is_turn() by {
            if j == front.filter(keep).len() {
                let at = choose|at: int| 0 <= at < front.len() && front[at] == front.filter(keep)[i];
                assert(order[at] == kept[i]);
                assert(order[order.len() - 1] == kept[j]);
            }
        }
    }
}

/// Within a tick every move is taken before every turn, so each move of the tick
/// sees the camera turned as the last tick left it.
pub proof fn lemma_moves_before_turns(state: ControllerState, earlier: int, later: int)
    requires
        0 <= earlier < later < state.held_steps().len(),
        state.held_steps()[earlier].motion.is_turn(),
    ensures
        state.held_steps()[later].motion.is_turn(),
{
    lemma_kept_in_order(Action::tick_order(), state.holds());
    let kept = Action::tick_order().filter(state.holds());
    assert(kept[earlier].step()->0.motion.is_turn());
    assert(kept[later].step()->0.motion.is_turn());
}

/// One more action at the end of a list adds its step where its button is held.
proof fn lemma_one_more_action(state: ControllerState, seen: Seq<Action>, action: Action)
    ensures
        state.steps_among(seen.push(action)) == state.steps_among(seen) + state.step_if_held(
            action,
        ),
{
    seen.lemma_filter_push(action, state.holds());
    seen.filter(state.holds()).lemma_push_map_commute(Action::asked(), action);
    assert(state.steps_among(seen.push(action)) =~= state.steps_among(seen)
        + state.step_if_held(action));
}

/// The steps of a tick, action by action: each held button adds its step, in the
/// order of the tick.
pub proof fn lemma_steps_by_action(state: ControllerState)
    ensures
        state.held_steps() == state.step_if_held(Action::MoveForward)
            + state.step_if_held(Action::MoveBackward)
            + state.step_if_held(Action::MoveDown)
            + state.step_if_held(Action::MoveUp)
            + state.step_if_held(Action::MoveLeft)
            + state.step_if_held(Action::MoveRight)
            + state.step_if_held(Action::LookLeft)
            + state.step_if_held(Action::LookRight)
            + state.step_if_held(Action::LookUp)
            + state.step_if_held(Action::LookDown)
            + state.step_if_held(Action::LookCw)
            + state.step_if_held(Action::LookCcw),
{
    let taken0 = Seq::<Action>::empty();
    assert(taken0.filter(state.holds()) =~= taken0) by {
        reveal(Seq::filter);
    }
    assert(state.steps_among(taken0) =~= Seq::<Step>::empty());
    lemma_one_more_action(state, taken0, Action::MoveForward);
    let taken1 = taken0.push(Action::MoveForward);
    assert(state.steps_among(taken1) =~= state.step_if_held(Action::MoveForward));
    lemma_one_more_action(state, taken1, Action::MoveBackward);
    let taken2 = taken1.push(Action::MoveBackward);
    lemma_one_more_action(state, taken2, Action::MoveDown);
    let taken3 = taken2.push(Action::MoveDown);
    lemma_one_more_action(state, taken3, Action::MoveUp);
    let taken4 = taken3.push(Action::MoveUp);
    lemma_one_more_action(state, taken4, Action::MoveLeft);
    let taken5 = taken4.push(Action::MoveLeft);
    lemma_one_more_action(state, taken5, Action::MoveRight);
    let taken6 = taken5.push(Action::MoveRight);
    lemma_one_more_action(state, taken6, Action::LookLeft);
    let taken7 = taken6.push(Action::LookLeft);
    lemma_one_more_action(state, taken7, Action::LookRight);
    let taken8 = taken7.push(Action::LookRight);
    lemma_one_more_action(state, taken8, Action::LookUp);
    let taken9 = taken8.push(Action::LookUp);
    lemma_one_more_action(state, taken9, Action::LookDown);
    let taken10 = taken9.push(Action::LookDown);
    lemma_one_more_action(state, taken10, Action::LookCw);
    let taken11 = taken10.push(Action::LookCw);
    lemma_one_more_action(state, taken11, Action::LookCcw);
    let taken12 = taken11.push(Action::LookCcw);
    assert(taken12 =~= Action::tick_order());
}

/// Where exactly one button is held, the tick takes the step of its action and no
/// other; where it is the button of quit, the tick takes none.
pub proof fn lemma_one_held(state: ControllerState, action: Action)
    requires
        forall|other: Action| state.button(other).held <==> other == action,
    ensures
        state.held_steps() == match action.step() {
            Some(step) => seq![step],
            None => Seq::empty(),
        },
{
    lemma_steps_by_action(state);
    assert(state.button(action).held);
    match action.step() {
        Some(step) => {
            assert(state.held_steps() =~= seq![step]);
        },
        None => {
            assert(state.held_steps() =~= Seq::<Step>::empty());
        },
    }
}

/// No two actions ask for the same step.
pub proof fn lemma_steps_differ(first: Action, second: Action)
    requires
        first != second,
        first.step() is Some,
    ensures
        first.step() != second.step(),
{
}

/// Every step is asked for by an action: each motion can be taken both ways.
pub proof fn lemma_step_has_action(step: Step) -> (action: Action)
    ensures
        action.step() == Some(step),
{
    match (step.motion, step.reverse) {
        (Motion::Forward, false) => Action::MoveForward,
        (Motion::Forward, true) => Action::MoveBackward,
        (Motion::Down, false) => Action::MoveDown,
        (Motion::Down, true) => Action::MoveUp,
        (Motion::Right, true) => Action::MoveLeft,
        (Motion::Right, false) => Action::MoveRight,
        (Motion::Yaw, false) => Action::LookLeft,
        (Motion::Yaw, true) => Action::LookRight,
        (Motion::Pitch, true) => Action::LookUp,
        (Motion::Pitch, false) => Action::LookDown,
        (Motion::Roll, true) => Action::LookCw,
        (Motion::Roll, false) => Action::LookCcw,
    }
}

} // verus!
