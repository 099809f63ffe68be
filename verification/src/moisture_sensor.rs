//! The soil moisture acquisition cycle: convert, classify, publish and cool
//! down. The band of a reading is for the log only; every reading that was
//! converted is published.

use crate::COOLDOWN_MS;
use vstd::prelude::*;

verus! {

/// Highest raw code still read as dry soil.
pub const MOISTURE_DRY_MAX: u16 = 300;

/// Highest raw code still read as wet soil.
pub const MOISTURE_WET_MAX: u16 = 700;

/// Highest raw code still read as a submerged probe.
pub const MOISTURE_SUB_MAX: u16 = 950;

/// The band a raw moisture code falls into.
#[derive(Clone, Copy, Debug, PartialEq, Eq, Structural)]
pub enum SoilBand {
    Dry,
    Wet,
    Submerged,
    Unknown,
}

/// The band of a raw code: three ascending thresholds, each inclusive.
pub open spec fn band_of(value: u16) -> SoilBand {
    if value <= MOISTURE_DRY_MAX {
        SoilBand::Dry
    } else if value <= MOISTURE_WET_MAX {
        SoilBand::Wet
    } else if value <= MOISTURE_SUB_MAX {
        SoilBand::Submerged
    } else {
        SoilBand::Unknown
    }
}

/// The words that the log uses for a band.
pub open spec fn label_of(band: SoilBand) -> Seq<char> {
    match band {
        SoilBand::Dry => "dry soil"@,
        SoilBand::Wet => "wet soil"@,
        SoilBand::Submerged => "submerged"@,
        SoilBand::Unknown => "unknown"@,
    }
}

/// Classifies a raw moisture code.
pub fn classify(value: u16) -> (band: SoilBand)
    ensures
        band == band_of(value),
{
    if value <= MOISTURE_DRY_MAX {
        SoilBand::Dry
    } else if value <= MOISTURE_WET_MAX {
        SoilBand::Wet
    } else if value <= MOISTURE_SUB_MAX {
        SoilBand::Submerged
    } else {
        SoilBand::Unknown
    }
}

impl SoilBand {
    /// The words that the log uses for this band.
    pub fn label(&self) -> (words: &'static str)
        ensures
            words@ == label_of(*self),
    {
        match self {
            SoilBand::Dry => "dry soil",
            SoilBand::Wet => "wet soil",
            SoilBand::Submerged => "submerged",
            SoilBand::Unknown => "unknown",
        }
    }
}

/// Where the moisture cycle stands: the operation whose outcome it awaits.
#[derive(Clone, Copy, Debug, PartialEq, Eq, Structural)]
pub enum MoisturePhase {
    /// Nothing was requested yet.
    Idle,
    /// A conversion is running.
    Reading,
    /// The reading is being published.
    Publishing,
    /// The pause between two samples.
    Cooldown,
}

/// What the firmware reports back to the moisture cycle.
#[derive(Clone, Copy, Debug, PartialEq, Eq, Structural)]
pub enum MoistureEvent {
    /// The requested operation is done; in `Idle`, the task has started.
    Ready,
    /// The conversion delivered this raw code.
    Converted(u16),
    /// The conversion failed.
    Faulted,
}

/// What the moisture cycle asks the firmware to do next.
#[derive(Clone, Copy, Debug, PartialEq, Eq, Structural)]
pub enum MoistureAction {
    /// Convert the sensor's channel.
    Convert,
    /// Publish this raw code to the moisture channel; `band` is for the log.
    Publish { value: u16, band: SoilBand },
    /// Suspend for this many milliseconds.
    Wait(u64),
}

/// The transition of the cycle: the phase and the action that follow an
/// event, or `None` where the phase does not await that event.
pub open spec fn moisture_next(phase: MoisturePhase, event: MoistureEvent) -> Option<
    (MoisturePhase, MoistureAction),
> {
    match event {
        MoistureEvent::Ready => match phase {
            MoisturePhase::Idle | MoisturePhase::Cooldown => Some(
                (MoisturePhase::Reading, MoistureAction::Convert),
            ),
            MoisturePhase::Publishing => Some(
                (MoisturePhase::Cooldown, MoistureAction::Wait(COOLDOWN_MS)),
            ),
            MoisturePhase::Reading => None,
        },
        MoistureEvent::Converted(value) => if phase is Reading {
            Some(
                (MoisturePhase::Publishing, MoistureAction::Publish { value, band: band_of(value) }),
            )
        } else {
            None
        },
        MoistureEvent::Faulted => if phase is Reading {
            Some((MoisturePhase::Cooldown, MoistureAction::Wait(COOLDOWN_MS)))
        } else {
            None
        },
    }
}

/// The moisture cycle's state.
#[derive(Clone, Copy, Debug, PartialEq, Eq)]
pub struct MoistureDriver {
    pub phase: MoisturePhase,
}

impl MoistureDriver {
    /// A cycle before its first step.
    pub fn new() -> (driver: MoistureDriver)
        ensures
            driver.phase is Idle,
    {
        MoistureDriver { phase: MoisturePhase::Idle }
    }

    /// Takes one event. Returns the next action, or `None`, leaving the cycle
    /// as it was, where the phase does not await that event.
    pub fn step(&mut self, event: MoistureEvent) -> (action: Option<MoistureAction>)
        ensures
            match moisture_next(old(self).phase, event) {
                Some((phase, act)) => final(self).phase == phase && action == Some(act),
                None => final(self).phase == old(self).phase && action is None,
            },
    {
        match event {
            MoistureEvent::Ready => match self.phase {
                MoisturePhase::Idle | MoisturePhase::Cooldown => {
                    self.phase = MoisturePhase::Reading;
                    Some(MoistureAction::Convert)
                },
                MoisturePhase::Publishing => {
                    self.phase = MoisturePhase::Cooldown;
                    Some(MoistureAction::Wait(COOLDOWN_MS))
                },
                MoisturePhase::Reading => None,
            },
            MoistureEvent::Converted(value) => match self.phase {
                MoisturePhase::Reading => {
                    self.phase = MoisturePhase::Publishing;
                    Some(MoistureAction::Publish { value, band: classify(value) })
                },
                _ => None,
            },
            MoistureEvent::Faulted => match self.phase {
                MoisturePhase::Reading => {
                    self.phase = MoisturePhase::Cooldown;
                    Some(MoistureAction::Wait(COOLDOWN_MS))
                },
                _ => None,
            },
        }
    }
}

/// Classification does not gate publication: whatever code a conversion
/// delivers is published unchanged, in every band, and a failed conversion
/// publishes nothing and goes to the cooldown.
pub proof fn lemma_every_reading_is_published(value: u16)
    ensures
        moisture_next(MoisturePhase::Reading, MoistureEvent::Converted(value)) == Some(
            (MoisturePhase::Publishing, MoistureAction::Publish { value, band: band_of(value) }),
        ),
        moisture_next(MoisturePhase::Reading, MoistureEvent::Faulted) == Some(
            (MoisturePhase::Cooldown, MoistureAction::Wait(COOLDOWN_MS)),
        ),
        forall|phase: MoisturePhase, event: MoistureEvent|
            (#[trigger] moisture_next(phase, event)) matches Some((_, MoistureAction::Publish { value: v, .. }))
                ==> phase is Reading && event == MoistureEvent::Converted(v),
{
}

} // verus!
