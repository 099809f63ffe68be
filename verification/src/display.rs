//! The display cycle: wake and clear the screen, then for every pair of
//! readings erase the block drawn before, draw the new one and pause; after
//! any display fault back off and begin again with wake and clear.

use crate::layout::{plan_frame, planned_frame, zero_rect, zero_rectangle, Frame};
use embedded_graphics::primitives::Rectangle;
use vstd::prelude::*;

verus! {

/// Delay before the display is initialised again after a fault, in
/// milliseconds.
pub const DISPLAY_RETRY_DELAY_MS: u64 = 1000;

/// Pause after each redraw, in milliseconds.
pub const UPDATE_DELAY_MS: u64 = 1000;

/// Where the display cycle stands: the operation whose outcome it awaits.
#[derive(Clone, Copy, Debug, PartialEq, Eq)]
pub enum DisplayPhase {
    /// Nothing was requested yet.
    Idle,
    /// The display is being woken.
    Waking,
    /// The whole screen is being cleared.
    Clearing,
    /// Both channels are being waited on.
    Waiting,
    /// The block drawn before is being erased; `frame` is drawn next.
    Erasing { frame: Frame },
    /// A block with these bounds is being drawn.
    Drawing { bounds: Rectangle },
    /// The pause after a redraw.
    Pausing,
    /// The delay after a fault.
    Recovering,
}

/// What the firmware reports back to the display cycle.
#[derive(Clone, Copy, Debug, PartialEq, Eq)]
pub enum DisplayEvent {
    /// The requested operation is done; in `Idle`, the task has started.
    Ready,
    /// Both channels have delivered a new value.
    Readings { light: u16, moisture: u16 },
    /// The requested display operation failed.
    Faulted,
}

/// An event after the layout has been computed for it.
#[derive(Clone, Copy, Debug, PartialEq, Eq)]
pub enum DisplayInput {
    Ready,
    /// A pair of readings, with the bounds of their block.
    Planned(Frame),
    Faulted,
}

/// What the display cycle asks the firmware to do next.
#[derive(Clone, Copy, Debug, PartialEq, Eq)]
pub enum DisplayAction {
    /// Wake the display from any low-power state.
    Wake,
    /// Fill the whole screen with the background colour.
    Clear,
    /// Suspend until both channels have delivered a new value.
    AwaitReadings,
    /// Fill this rectangle with the background colour.
    Fill(Rectangle),
    /// Draw the block of this frame.
    Draw(Frame),
    /// Suspend for this many milliseconds.
    Wait(u64),
}

/// The display cycle's state.
#[derive(Clone, Copy, Debug, PartialEq, Eq)]
pub struct DisplayDriver {
    pub phase: DisplayPhase,
    /// Width of the drawable area.
    pub width: u16,
    /// Height of the drawable area.
    pub height: u16,
    /// Bounds of the block that the last completed redraw left on the screen.
    pub last_bounds: Rectangle,
}

impl DisplayDriver {
    /// The cycle before its first step.
    pub open spec fn fresh(width: u16, height: u16) -> DisplayDriver {
        DisplayDriver { phase: DisplayPhase::Idle, width, height, last_bounds: zero_rect() }
    }

    /// The same cycle in another phase.
    pub open spec fn at(self, phase: DisplayPhase) -> DisplayDriver {
        DisplayDriver { phase, ..self }
    }

    /// The same cycle in another phase, with nothing on the screen.
    pub open spec fn blank(self, phase: DisplayPhase) -> DisplayDriver {
        DisplayDriver { phase, last_bounds: zero_rect(), ..self }
    }

    /// Whether a fault can be reported in this phase: only display operations
    /// fail, waits and delays do not.
    pub open spec fn on_display(self) -> bool {
        self.phase is Waking || self.phase is Clearing || self.phase is Erasing
            || self.phase is Drawing
    }

    /// The transition of the cycle: the state and the action that follow an
    /// input, or `None` where the phase does not await that input.
    pub open spec fn next(self, input: DisplayInput) -> Option<(DisplayDriver, DisplayAction)> {
        match input {
            DisplayInput::Ready => match self.phase {
                DisplayPhase::Idle => Some((self.at(DisplayPhase::Waking), DisplayAction::Wake)),
                DisplayPhase::Waking => Some(
                    (self.at(DisplayPhase::Clearing), DisplayAction::Clear),
                ),
                DisplayPhase::Clearing => Some(
                    (self.blank(DisplayPhase::Waiting), DisplayAction::AwaitReadings),
                ),
                DisplayPhase::Waiting => None,
                DisplayPhase::Erasing { frame } => Some(
                    (
                        self.at(DisplayPhase::Drawing { bounds: frame.bounds }),
                        DisplayAction::Draw(frame),
                    ),
                ),
                DisplayPhase::Drawing { bounds } => Some(
                    (
                        DisplayDriver { phase: DisplayPhase::Pausing, last_bounds: bounds, ..self },
                        DisplayAction::Wait(UPDATE_DELAY_MS),
                    ),
                ),
                DisplayPhase::Pausing => Some(
                    (self.at(DisplayPhase::Waiting), DisplayAction::AwaitReadings),
                ),
                DisplayPhase::Recovering => Some(
                    (self.at(DisplayPhase::Waking), DisplayAction::Wake),
                ),
            },
            DisplayInput::Planned(frame) => if self.phase is Waiting {
                Some((self.at(DisplayPhase::Erasing { frame }), DisplayAction::Fill(self.last_bounds)))
            } else {
                None
            },
            DisplayInput::Faulted => if self.on_display() {
                Some(
                    (
                        self.blank(DisplayPhase::Recovering),
                        DisplayAction::Wait(DISPLAY_RETRY_DELAY_MS),
                    ),
                )
            } else {
                None
            },
        }
    }

    /// The input that an event becomes once its readings are laid out on this
    /// cycle's screen.
    pub open spec fn plan(self, event: DisplayEvent) -> DisplayInput {
        match event {
            DisplayEvent::Ready => DisplayInput::Ready,
            DisplayEvent::Readings { light, moisture } => DisplayInput::Planned(
                planned_frame(light, moisture, self.width, self.height),
            ),
            DisplayEvent::Faulted => DisplayInput::Faulted,
        }
    }

    /// The state and the actions after a sequence of inputs, or `None` where
    /// one of them is not awaited when it comes.
    pub open spec fn run(self, inputs: Seq<DisplayInput>) -> Option<
        (DisplayDriver, Seq<DisplayAction>),
    >
        decreases inputs.len(),
    {
        if inputs.len() == 0 {
            Some((self, Seq::empty()))
        } else {
            match self.run(inputs.drop_last()) {
                Some((driver, actions)) => match driver.next(inputs.last()) {
                    Some((after, action)) => Some((after, actions.push(action))),
                    None => None,
                },
                None => None,
            }
        }
    }

    /// A cycle for a screen of the given size, before its first step.
    pub fn new(width: u16, height: u16) -> (driver: DisplayDriver)
        ensures
            driver == DisplayDriver::fresh(width, height),
    {
        DisplayDriver { phase: DisplayPhase::Idle, width, height, last_bounds: zero_rectangle() }
    }

    /// Takes one input. Returns the next action, or `None`, leaving the cycle
    /// as it was, where the phase does not await that input.
    pub fn advance(&mut self, input: DisplayInput) -> (action: Option<DisplayAction>)
        ensures
            match old(self).next(input) {
                Some((driver, act)) => *final(self) == driver && action == Some(act),
                None => *final(self) == *old(self) && action is None,
            },
    {
        match input {
            DisplayInput::Ready => match self.phase {
                DisplayPhase::Idle | DisplayPhase::Recovering => {
                    self.phase = DisplayPhase::Waking;
                    Some(DisplayAction::Wake)
                },
                DisplayPhase::Waking => {
                    self.phase = DisplayPhase::Clearing;
                    Some(DisplayAction::Clear)
                },
                DisplayPhase::Clearing => {
                    self.phase = DisplayPhase::Waiting;
                    self.last_bounds = zero_rectangle();
                    Some(DisplayAction::AwaitReadings)
                },
                DisplayPhase::Waiting => None,
                DisplayPhase::Erasing { frame } => {
                    self.phase = DisplayPhase::Drawing { bounds: frame.bounds };
                    Some(DisplayAction::Draw(frame))
                },
                DisplayPhase::Drawing { bounds } => {
                    self.phase = DisplayPhase::Pausing;
                    self.last_bounds = bounds;
                    Some(DisplayAction::Wait(UPDATE_DELAY_MS))
                },
                DisplayPhase::Pausing => {
                    self.phase = DisplayPhase::Waiting;
                    Some(DisplayAction::AwaitReadings)
                },
            },
            DisplayInput::Planned(frame) => match self.phase {
                DisplayPhase::Waiting => {
                    self.phase = DisplayPhase::Erasing { frame };
                    Some(DisplayAction::Fill(self.last_bounds))
                },
                _ => None,
            },
            DisplayInput::Faulted => match self.phase {
                DisplayPhase::Waking
                | DisplayPhase::Clearing
                | DisplayPhase::Erasing { .. }
                | DisplayPhase::Drawing { .. } => {
                    self.phase = DisplayPhase::Recovering;
                    self.last_bounds = zero_rectangle();
                    Some(DisplayAction::Wait(DISPLAY_RETRY_DELAY_MS))
                },
                _ => None,
            },
        }
    }

    /// Takes one event: lays out the readings it carries, if any, and
    /// advances. Returns the next action, or `None`, leaving the cycle as it
    /// was, where the phase does not await that event.
    pub fn step(&mut self, event: DisplayEvent) -> (action: Option<DisplayAction>)
        ensures
            match old(self).next(old(self).plan(event)) {
                Some((driver, act)) => *final(self) == driver && action == Some(act),
                None => *final(self) == *old(self) && action is None,
            },
    {
        let input = match event {
            DisplayEvent::Ready => DisplayInput::Ready,
            DisplayEvent::Readings { light, moisture } => DisplayInput::Planned(
                plan_frame(light, moisture, self.width, self.height),
            ),
            DisplayEvent::Faulted => DisplayInput::Faulted,
        };
        self.advance(input)
    }
}

/// The bounds of the block that a sequence of actions leaves on the screen:
/// those of the frame drawn last, and nothing once the screen was cleared.
pub open spec fn shown(actions: Seq<DisplayAction>) -> Rectangle
    decreases actions.len(),
{
    if actions.len() == 0 {
        zero_rect()
    } else {
        match actions.last() {
            DisplayAction::Draw(frame) => frame.bounds,
            DisplayAction::Clear => zero_rect(),
            _ => shown(actions.drop_last()),
        }
    }
}

/// Every draw comes directly after a fill of exactly the rectangle that the
/// actions before that fill left on the screen.
pub open spec fn erases_before_drawing(actions: Seq<DisplayAction>) -> bool {
    forall|i: int|
        0 <= i < actions.len() && (#[trigger] actions[i]) is Draw ==> i >= 1 && actions[i - 1]
            == DisplayAction::Fill(shown(actions.take(i - 1)))
}

/// Every draw shows the frame that was planned for the readings received
/// just before the erase.
pub open spec fn draws_what_was_planned(
    inputs: Seq<DisplayInput>,
    actions: Seq<DisplayAction>,
) -> bool {
    forall|i: int|
        0 <= i < actions.len() && (#[trigger] actions[i]) is Draw ==> 1 <= i < inputs.len()
            && DisplayInput::Planned(actions[i]->Draw_0) == inputs[i - 1]
}

/// What holds between a cycle started in `Idle` and the actions it has
/// issued.
spec fn in_step(driver: DisplayDriver, inputs: Seq<DisplayInput>, actions: Seq<DisplayAction>) -> bool {
    &&& actions.len() == inputs.len()
    &&& erases_before_drawing(actions)
    &&& draws_what_was_planned(inputs, actions)
    &&& match driver.phase {
        DisplayPhase::Waiting | DisplayPhase::Pausing => driver.last_bounds == shown(actions),
        DisplayPhase::Clearing => actions.len() >= 1 && actions.last() is Clear,
        DisplayPhase::Erasing { frame } => actions.len() >= 1 && actions.last()
            == DisplayAction::Fill(shown(actions.drop_last())) && inputs.last()
            == DisplayInput::Planned(frame),
        DisplayPhase::Drawing { bounds } => bounds == shown(actions),
        _ => true,
    }
}

/// What one more action leaves on the screen.
proof fn lemma_shown_push(actions: Seq<DisplayAction>, action: DisplayAction)
    ensures
        shown(actions.push(action)) == match action {
            DisplayAction::Draw(frame) => frame.bounds,
            DisplayAction::Clear => zero_rect(),
            _ => shown(actions),
        },
{
    assert(actions.push(action).drop_last() =~= actions);
}

proof fn lemma_push_keeps_erasing(actions: Seq<DisplayAction>, action: DisplayAction)
    requires
        erases_before_drawing(actions),
        action is Draw ==> actions.len() >= 1 && actions.last() == DisplayAction::Fill(
            shown(actions.drop_last()),
        ),
    ensures
        erases_before_drawing(actions.push(action)),
{
    let pushed = actions.push(action);
    assert forall|i: int| 0 <= i < pushed.len() && (#[trigger] pushed[i]) is Draw implies i >= 1
        && pushed[i - 1] == DisplayAction::Fill(shown(pushed.take(i - 1))) by {
        if i < actions.len() {
            assert(actions[i] is Draw);
            assert(pushed.take(i - 1) =~= actions.take(i - 1));
        } else {
            assert(pushed.take(i - 1) =~= actions.drop_last());
        }
    }
}

proof fn lemma_push_keeps_planned(
    inputs: Seq<DisplayInput>,
    actions: Seq<DisplayAction>,
    input: DisplayInput,
    action: DisplayAction,
)
    requires
        actions.len() == inputs.len(),
        draws_what_was_planned(inputs, actions),
        action is Draw ==> inputs.len() >= 1 && inputs.last() == DisplayInput::Planned(
            action->Draw_0,
        ),
    ensures
        draws_what_was_planned(inputs.push(input), actions.push(action)),
{
    let pushed = actions.push(action);
    let fed = inputs.push(input);
    assert forall|i: int| 0 <= i < pushed.len() && (#[trigger] pushed[i]) is Draw implies 1 <= i
        < fed.len() && DisplayInput::Planned(pushed[i]->Draw_0) == fed[i - 1] by {
        if i < actions.len() {
            assert(actions[i] is Draw);
        }
    }
}

proof fn lemma_step_keeps_in_step(
    driver: DisplayDriver,
    inputs: Seq<DisplayInput>,
    actions: Seq<DisplayAction>,
    input: DisplayInput,
)
    requires
        in_step(driver, inputs, actions),
        driver.next(input) is Some,
    ensures
        in_step(
            driver.next(input).unwrap().0,
            inputs.push(input),
            actions.push(driver.next(input).unwrap().1),
        ),
{
    let (after, action) = driver.next(input).unwrap();
    assert(action is Draw ==> driver.phase is Erasing);
    lemma_push_keeps_erasing(actions, action);
    lemma_push_keeps_planned(inputs, actions, input, action);
    lemma_shown_push(actions, action);
    assert(actions.push(action).drop_last() =~= actions);
    assert(actions.push(action).last() == action);
    assert(inputs.push(input).last() == input);
}

proof fn lemma_run_in_step(start: DisplayDriver, inputs: Seq<DisplayInput>)
    requires
        start.phase is Idle,
        start.run(inputs) is Some,
    ensures
        in_step(start.run(inputs).unwrap().0, inputs, start.run(inputs).unwrap().1),
    decreases inputs.len(),
{
    if inputs.len() > 0 {
        lemma_run_in_step(start, inputs.drop_last());
        let (driver, actions) = start.run(inputs.drop_last()).unwrap();
        lemma_step_keeps_in_step(driver, inputs.drop_last(), actions, inputs.last());
        assert(inputs.drop_last().push(inputs.last()) =~= inputs);
    }
}

/// Partial redraw: in every run of the cycle from its start, each draw comes
/// directly after a fill of exactly the bounds of the block drawn before it
/// (of nothing, where the screen was cleared since), and shows the frame
/// planned for the readings that were received just before that fill.
pub proof fn lemma_erase_precedes_draw(start: DisplayDriver, inputs: Seq<DisplayInput>)
    requires
        start.phase is Idle,
        start.run(inputs) is Some,
    ensures
        erases_before_drawing(start.run(inputs).unwrap().1),
        draws_what_was_planned(inputs, start.run(inputs).unwrap().1),
{
    lemma_run_in_step(start, inputs);
}

/// Recovery: a fault in any display operation leaves a state that keeps
/// nothing of the session it interrupted, and from there the cycle waits for
/// the retry delay, wakes the display and clears the whole screen before it
/// waits for readings again, exactly as a cycle does from its start.
pub proof fn lemma_fault_restarts_session(driver: DisplayDriver)
    requires
        driver.on_display(),
    ensures
        driver.next(DisplayInput::Faulted) == Some(
            (
                DisplayDriver::fresh(driver.width, driver.height).at(DisplayPhase::Recovering),
                DisplayAction::Wait(DISPLAY_RETRY_DELAY_MS),
            ),
        ),
        driver.run(
            seq![DisplayInput::Faulted, DisplayInput::Ready, DisplayInput::Ready, DisplayInput::Ready],
        ) == Some(
            (
                DisplayDriver::fresh(driver.width, driver.height).at(DisplayPhase::Waiting),
                seq![
                    DisplayAction::Wait(DISPLAY_RETRY_DELAY_MS),
                    DisplayAction::Wake,
                    DisplayAction::Clear,
                    DisplayAction::AwaitReadings,
                ],
            ),
        ),
        DisplayDriver::fresh(driver.width, driver.height).run(
            seq![DisplayInput::Ready, DisplayInput::Ready, DisplayInput::Ready],
        ) == Some(
            (
                DisplayDriver::fresh(driver.width, driver.height).at(DisplayPhase::Waiting),
                seq![DisplayAction::Wake, DisplayAction::Clear, DisplayAction::AwaitReadings],
            ),
        ),
{
    let fault = DisplayInput::Faulted;
    let ready = DisplayInput::Ready;
    let i4 = seq![fault, ready, ready, ready];
    let i3 = seq![fault, ready, ready];
    let i2 = seq![fault, ready];
    let i1 = seq![fault];
    reveal_with_fuel(DisplayDriver::run, 2);
    assert(i1.drop_last() =~= Seq::<DisplayInput>::empty());
    assert(i2.drop_last() =~= i1);
    assert(i3.drop_last() =~= i2);
    assert(i4.drop_last() =~= i3);
    let r1 = driver.run(i1).unwrap();
    assert(r1.1 =~= seq![DisplayAction::Wait(DISPLAY_RETRY_DELAY_MS)]);
    let r2 = driver.run(i2).unwrap();
    assert(r2.1 =~= seq![DisplayAction::Wait(DISPLAY_RETRY_DELAY_MS), DisplayAction::Wake]);
    let r3 = driver.run(i3).unwrap();
    assert(r3.1 =~= seq![
        DisplayAction::Wait(DISPLAY_RETRY_DELAY_MS),
        DisplayAction::Wake,
        DisplayAction::Clear,
    ]);
    let r4 = driver.run(i4).unwrap();
    assert(r4.1 =~= seq![
        DisplayAction::Wait(DISPLAY_RETRY_DELAY_MS),
        DisplayAction::Wake,
        DisplayAction::Clear,
        DisplayAction::AwaitReadings,
    ]);

    let start = DisplayDriver::fresh(driver.width, driver.height);
    let j3 = seq![ready, ready, ready];
    let j2 = seq![ready, ready];
    let j1 = seq![ready];
    assert(j1.drop_last() =~= Seq::<DisplayInput>::empty());
    assert(j2.drop_last() =~= j1);
    assert(j3.drop_last() =~= j2);
    let s1 = start.run(j1).unwrap();
    assert(s1.1 =~= seq![DisplayAction::Wake]);
    let s2 = start.run(j2).unwrap();
    assert(s2.1 =~= seq![DisplayAction::Wake, DisplayAction::Clear]);
    let s3 = start.run(j3).unwrap();
    assert(s3.1 =~= seq![DisplayAction::Wake, DisplayAction::Clear, DisplayAction::AwaitReadings]);
}

} // verus!
