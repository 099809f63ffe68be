//! The light acquisition cycle: configure the sensor, let a high-resolution
//! measurement settle, read it, publish it and cool down; back off for longer
//! when the sensor does not acknowledge.

use crate::COOLDOWN_MS;
use vstd::prelude::*;

verus! {

/// Delay before the next attempt when the sensor does not acknowledge, in
/// milliseconds.
pub const UNRESPONSIVE_RETRY_DELAY_MS: u64 = 5000;

/// The time a high-resolution measurement takes by default, in milliseconds.
pub const HIGH_RES_MT_MS: u64 = 120;

/// The default value of the measurement time register.
pub const MTREG_DEFAULT: u8 = 69;

/// The lowest value that the sensor takes for the measurement time register.
pub const MTREG_MIN: u8 = 31;

/// The highest value that the sensor takes for the measurement time register.
pub const MTREG_MAX: u8 = 254;

/// How a bus transfer failed.
#[derive(Clone, Copy, Debug, PartialEq, Eq, Structural)]
pub enum BusFault {
    /// The device did not acknowledge: it is disconnected or powered down.
    NoAcknowledge,
    /// Any other failure of the transfer.
    Other,
}

/// How a sensor operation failed.
#[derive(Clone, Copy, Debug, PartialEq, Eq, Structural)]
pub enum SensorFault {
    /// The bus transfer failed.
    Bus(BusFault),
    /// The sensor driver refused the measurement time as out of range.
    MeasurementTimeOutOfRange,
}

/// Where the light cycle stands: the operation whose outcome it awaits.
#[derive(Clone, Copy, Debug, PartialEq, Eq, Structural)]
pub enum LightPhase {
    /// Nothing was requested yet.
    Idle,
    /// The measurement time register is being written.
    Configuring,
    /// Continuous high-resolution measurement is being started.
    Starting,
    /// The measurement is settling.
    Measuring,
    /// The measurement is being read.
    Reading,
    /// The reading is being published.
    Publishing,
    /// The pause between two samples.
    Cooldown,
    /// The longer pause after the sensor did not acknowledge.
    Backoff,
    /// The firmware is defective and the device has been told to halt.
    Halted,
}

/// What the firmware reports back to the light cycle.
#[derive(Clone, Copy, Debug, PartialEq, Eq)]
pub enum LightEvent<R> {
    /// The requested operation is done; in `Idle`, the task has started.
    Ready,
    /// The sensor delivered a measurement.
    Measured(R),
    /// The requested sensor operation failed.
    Faulted(SensorFault),
}

/// What the light cycle asks the firmware to do next.
#[derive(Clone, Copy, Debug, PartialEq, Eq)]
pub enum LightAction<R> {
    /// Write this value to the measurement time register.
    SetMeasurementTime(u8),
    /// Start continuous measurement at high resolution.
    StartContinuous,
    /// Suspend for this many milliseconds.
    Wait(u64),
    /// Read the current measurement at high resolution.
    Read,
    /// Publish this reading to the light channel.
    Publish(R),
    /// Halt the device.
    Halt,
}

/// Whether a phase awaits the outcome of a sensor operation, which can fail.
pub open spec fn on_sensor(phase: LightPhase) -> bool {
    phase is Configuring || phase is Starting || phase is Reading
}

/// What follows a failed sensor operation: a long delay when the device did
/// not acknowledge, the ordinary cooldown after any other bus failure, and a
/// halt when the driver refused the measurement time, which cannot happen
/// unless the firmware is wrong.
pub open spec fn after_fault<R>(fault: SensorFault) -> (LightPhase, LightAction<R>) {
    match fault {
        SensorFault::Bus(BusFault::NoAcknowledge) => (
            LightPhase::Backoff,
            LightAction::Wait(UNRESPONSIVE_RETRY_DELAY_MS),
        ),
        SensorFault::Bus(BusFault::Other) => (LightPhase::Cooldown, LightAction::Wait(COOLDOWN_MS)),
        SensorFault::MeasurementTimeOutOfRange => (LightPhase::Halted, LightAction::Halt),
    }
}

/// The transition of the cycle: the phase and the action that follow an
/// event, or `None` where the phase does not await that event.
pub open spec fn light_next<R>(phase: LightPhase, event: LightEvent<R>) -> Option<
    (LightPhase, LightAction<R>),
> {
    match event {
        LightEvent::Ready => match phase {
            LightPhase::Idle | LightPhase::Cooldown | LightPhase::Backoff => Some(
                (LightPhase::Configuring, LightAction::SetMeasurementTime(MTREG_DEFAULT)),
            ),
            LightPhase::Configuring => Some((LightPhase::Starting, LightAction::StartContinuous)),
            LightPhase::Starting => Some(
                (LightPhase::Measuring, LightAction::Wait(HIGH_RES_MT_MS)),
            ),
            LightPhase::Measuring => Some((LightPhase::Reading, LightAction::Read)),
            LightPhase::Publishing => Some((LightPhase::Cooldown, LightAction::Wait(COOLDOWN_MS))),
            LightPhase::Reading | LightPhase::Halted => None,
        },
        LightEvent::Measured(reading) => if phase is Reading {
            Some((LightPhase::Publishing, LightAction::Publish(reading)))
        } else {
            None
        },
        LightEvent::Faulted(fault) => if on_sensor(phase) {
            Some(after_fault(fault))
        } else {
            None
        },
    }
}

/// The phase and the actions after a sequence of events, or `None` where one
/// of them is not awaited when it comes.
pub open spec fn light_run<R>(phase: LightPhase, events: Seq<LightEvent<R>>) -> Option<
    (LightPhase, Seq<LightAction<R>>),
>
    decreases events.len(),
{
    if events.len() == 0 {
        Some((phase, Seq::empty()))
    } else {
        match light_run(phase, events.drop_last()) {
            Some((before, actions)) => match light_next(before, events.last()) {
                Some((after, action)) => Some((after, actions.push(action))),
                None => None,
            },
            None => None,
        }
    }
}

/// The light cycle's state.
#[derive(Clone, Copy, Debug, PartialEq, Eq)]
pub struct LightDriver {
    pub phase: LightPhase,
}

impl LightDriver {
    /// A cycle before its first step.
    pub fn new() -> (driver: LightDriver)
        ensures
            driver.phase is Idle,
    {
        LightDriver { phase: LightPhase::Idle }
    }

    /// Takes one event. Returns the next action, or `None`, leaving the cycle
    /// as it was, where the phase does not await that event.
    pub fn step<R>(&mut self, event: LightEvent<R>) -> (action: Option<LightAction<R>>)
        ensures
            match light_next(old(self).phase, event) {
                Some((phase, act)) => final(self).phase == phase && action == Some(act),
                None => final(self).phase == old(self).phase && action is None,
            },
    {
        match event {
            LightEvent::Ready => match self.phase {
                LightPhase::Idle | LightPhase::Cooldown | LightPhase::Backoff => {
                    self.phase = LightPhase::Configuring;
                    Some(LightAction::SetMeasurementTime(MTREG_DEFAULT))
                },
                LightPhase::Configuring => {
                    self.phase = LightPhase::Starting;
                    Some(LightAction::StartContinuous)
                },
                LightPhase::Starting => {
                    self.phase = LightPhase::Measuring;
                    Some(LightAction::Wait(HIGH_RES_MT_MS))
                },
                LightPhase::Measuring => {
                    self.phase = LightPhase::Reading;
                    Some(LightAction::Read)
                },
                LightPhase::Publishing => {
                    self.phase = LightPhase::Cooldown;
                    Some(LightAction::Wait(COOLDOWN_MS))
                },
                LightPhase::Reading | LightPhase::Halted => None,
            },
            LightEvent::Measured(reading) => match self.phase {
                LightPhase::Reading => {
                    self.phase = LightPhase::Publishing;
                    Some(LightAction::Publish(reading))
                },
                _ => None,
            },
            LightEvent::Faulted(fault) => match self.phase {
                LightPhase::Configuring | LightPhase::Starting | LightPhase::Reading => {
                    match fault {
                        SensorFault::Bus(BusFault::NoAcknowledge) => {
                            self.phase = LightPhase::Backoff;
                            Some(LightAction::Wait(UNRESPONSIVE_RETRY_DELAY_MS))
                        },
                        SensorFault::Bus(BusFault::Other) => {
                            self.phase = LightPhase::Cooldown;
                            Some(LightAction::Wait(COOLDOWN_MS))
                        },
                        SensorFault::MeasurementTimeOutOfRange => {
                            self.phase = LightPhase::Halted;
                            Some(LightAction::Halt)
                        },
                    }
                },
                _ => None,
            },
        }
    }
}

/// Whether the sensor driver takes a value for the measurement time register.
pub open spec fn measurement_time_accepted(value: u8) -> bool {
    MTREG_MIN <= value <= MTREG_MAX
}

/// The measurement time that the cycle writes is one that the sensor takes,
/// so a refusal of it is a defect of the firmware, never a condition of the
/// device.
pub proof fn lemma_default_measurement_time_accepted<R>()
    ensures
        measurement_time_accepted(MTREG_DEFAULT),
        forall|phase: LightPhase, event: LightEvent<R>|
            (#[trigger] light_next(phase, event)) matches Some((_, LightAction::SetMeasurementTime(value)))
                ==> measurement_time_accepted(value),
{
}

/// Unresponsive sensor: when a sensor operation fails because the device did
/// not acknowledge, the cycle waits for the long retry delay, which is longer
/// than the cooldown, and then starts the next attempt at once, without a
/// cooldown in between.
pub proof fn lemma_no_acknowledge_backs_off<R>(phase: LightPhase)
    requires
        on_sensor(phase),
    ensures
        light_run(
            phase,
            seq![LightEvent::<R>::Faulted(SensorFault::Bus(BusFault::NoAcknowledge)), LightEvent::Ready],
        ) == Some(
            (
                LightPhase::Configuring,
                seq![
                    LightAction::<R>::Wait(UNRESPONSIVE_RETRY_DELAY_MS),
                    LightAction::SetMeasurementTime(MTREG_DEFAULT),
                ],
            ),
        ),
        UNRESPONSIVE_RETRY_DELAY_MS > COOLDOWN_MS,
{
    let fault = LightEvent::<R>::Faulted(SensorFault::Bus(BusFault::NoAcknowledge));
    let e1 = seq![fault];
    let e2 = seq![fault, LightEvent::Ready];
    reveal_with_fuel(light_run, 3);
    assert(e1.drop_last() =~= Seq::<LightEvent<R>>::empty());
    assert(e2.drop_last() =~= e1);
    let r1 = light_run(phase, e1).unwrap();
    assert(r1.1 =~= seq![LightAction::<R>::Wait(UNRESPONSIVE_RETRY_DELAY_MS)]);
    let r2 = light_run(phase, e2).unwrap();
    assert(r2.1 =~= seq![
        LightAction::<R>::Wait(UNRESPONSIVE_RETRY_DELAY_MS),
        LightAction::SetMeasurementTime(MTREG_DEFAULT),
    ]);
}

/// Any other bus failure is transient: the cycle goes straight to the
/// ordinary cooldown and then starts the next attempt.
pub proof fn lemma_other_fault_cools_down<R>(phase: LightPhase)
    requires
        on_sensor(phase),
    ensures
        light_next::<R>(phase, LightEvent::Faulted(SensorFault::Bus(BusFault::Other))) == Some(
            (LightPhase::Cooldown, LightAction::<R>::Wait(COOLDOWN_MS)),
        ),
        light_next::<R>(LightPhase::Cooldown, LightEvent::Ready) == Some(
            (LightPhase::Configuring, LightAction::<R>::SetMeasurementTime(MTREG_DEFAULT)),
        ),
{
}

/// Every publish carries exactly the reading that the sensor has just
/// delivered, and a halt follows nothing but a refused measurement time.
pub open spec fn publishes_what_was_read<R>(
    events: Seq<LightEvent<R>>,
    actions: Seq<LightAction<R>>,
) -> bool {
    forall|i: int|
        0 <= i < actions.len() ==> {
            &&& (#[trigger] actions[i]) is Publish ==> i < events.len() && events[i]
                == LightEvent::Measured(actions[i]->Publish_0)
            &&& actions[i] is Halt ==> i < events.len() && events[i] == LightEvent::<R>::Faulted(
                SensorFault::MeasurementTimeOutOfRange,
            )
        }
}

/// In every run of the cycle, from any phase, a value is published only as
/// the answer to a measurement and is that measurement; the device is halted
/// only as the answer to a refused measurement time; and once halted the
/// cycle takes no further event.
pub proof fn lemma_publishes_what_was_read<R>(phase: LightPhase, events: Seq<LightEvent<R>>)
    requires
        light_run(phase, events) is Some,
    ensures
        light_run(phase, events).unwrap().1.len() == events.len(),
        publishes_what_was_read(events, light_run(phase, events).unwrap().1),
        forall|event: LightEvent<R>| light_next(LightPhase::Halted, event) is None,
    decreases events.len(),
{
    if events.len() > 0 {
        lemma_publishes_what_was_read(phase, events.drop_last());
        let (before, actions) = light_run(phase, events.drop_last()).unwrap();
        let (after, action) = light_next(before, events.last()).unwrap();
        let all = actions.push(action);
        assert forall|i: int| 0 <= i < all.len() implies {
            &&& (#[trigger] all[i]) is Publish ==> i < events.len() && events[i]
                == LightEvent::Measured(all[i]->Publish_0)
            &&& all[i] is Halt ==> i < events.len() && events[i] == LightEvent::<R>::Faulted(
                SensorFault::MeasurementTimeOutOfRange,
            )
        } by {
            if i < actions.len() {
                assert(all[i] == actions[i]);
                assert(events[i] == events.drop_last()[i]);
            }
        }
    }
}

} // verus!
