//! Control vocabulary: parameter indexes and links, path shapes, and the
//! [Timer] controller.

use vstd::prelude::*;
use crate::time::{MusicalTime, TimeRange};
use crate::uid::Uid;

verus! {

/// A human-readable name of a controlled parameter, for debugging.
#[derive(Clone, Debug, PartialEq, Eq)]
pub struct ControlName(pub String);

/// The zero-based index of a parameter of an entity, specific to the
/// entity's type.
#[derive(Clone, Copy, Debug, PartialEq, Eq, Hash, Structural)]
pub struct ControlIndex(pub usize);

/// Which parameter of which entity a control signal drives.
#[derive(Clone, Copy, Debug, PartialEq, Eq, Structural)]
pub struct ControlLink {
    pub uid: Uid,
    pub param: ControlIndex,
}

/// The shape of the path from one control step to the next.
#[derive(Clone, Copy, Debug, Default, PartialEq, Eq, Structural)]
pub enum ControlTripPath {
    /// No path: the step's value is ignored.
    #[default]
    NoPath,
    /// Level at the step's value.
    Flat,
    /// A straight line to the next step's value.
    Linear,
    /// Changes quickly at first, then slowly.
    Logarithmic,
    /// Changes slowly at first, then quickly.
    Exponential,
}

/// The path shape that an editor offers after `path`: Flat and Linear
/// alternate, the others stay as they are.
pub open spec fn next_path(path: ControlTripPath) -> ControlTripPath {
    match path {
        ControlTripPath::Flat => ControlTripPath::Linear,
        ControlTripPath::Linear => ControlTripPath::Flat,
        other => other,
    }
}

impl ControlTripPath {
    pub fn next(&self) -> (r: Self)
        ensures
            r == next_path(*self),
    {
        match self {
            ControlTripPath::NoPath => ControlTripPath::NoPath,
            ControlTripPath::Flat => ControlTripPath::Linear,
            ControlTripPath::Linear => ControlTripPath::Flat,
            ControlTripPath::Logarithmic => ControlTripPath::Logarithmic,
            ControlTripPath::Exponential => ControlTripPath::Exponential,
        }
    }
}

/// How a signal passthrough turns an audio sample into a control value.
#[derive(Clone, Copy, Debug, Default, PartialEq, Eq, Structural)]
pub enum SignalPassthroughType {
    /// Maps -1..=1 onto 0..=1: silence becomes one half.
    #[default]
    Compressed,
    /// The absolute value: silence is 0, full amplitude 1.
    Amplitude,
    /// One minus the absolute value: silence is 1, full amplitude 0.
    AmplitudeInverted,
}

/// The curve of one step of a stepped envelope.
#[derive(Clone, Copy, Debug, Default, PartialEq, Eq, Structural)]
pub enum SteppedEnvelopeFunction {
    #[default]
    Linear,
    Logarithmic,
    Exponential,
}

/// The shape of one step of a signal path.
#[derive(Clone, Copy, Debug, Default, PartialEq, Eq, Structural)]
pub enum SignalStepType {
    /// Stays at the value for the whole step.
    #[default]
    Flat,
    /// A straight line from the start value to the end value.
    Linear,
    /// Changes quickly at first, then slowly.
    Logarithmic,
    /// Changes slowly at first, then quickly.
    Exponential,
}

/// What the control-atlas view asks for.
#[derive(Clone, Copy, Debug, PartialEq, Eq, Structural)]
pub enum ControlAtlasWidgetAction {
    AddTrip,
}

/// What the control bar shows beside the transport.
#[derive(Clone, Copy, Debug, Default, PartialEq, Eq, Structural)]
pub enum ControlBarDisplayMode {
    #[default]
    Time,
    Frequency,
}

/// What the user asked for in the control bar.
#[derive(Clone, Debug, PartialEq, Eq)]
pub enum ControlBarAction {
    Play,
    Stop,
    /// Create a new project.
    New,
    /// Load the project with this file name.
    Open(String),
    /// Save the project under this file name.
    Save(String),
    ToggleSettings,
}

/// What the user asked for in the control panel.
#[derive(Clone, Debug, PartialEq, Eq)]
pub enum ControlPanelAction {
    Play,
    Stop,
    New,
    Open(String),
    Save(String),
    ToggleSettings,
}

/// The control panel's record of the last thing the user asked for, until
/// the application takes it.
#[derive(Debug, Default)]
pub struct ControlPanel {
    action: Option<ControlPanelAction>,
}

impl ControlPanel {
    pub closed spec fn action_spec(&self) -> Option<ControlPanelAction> {
        self.action
    }

    /// Records a request; it replaces any that was not taken yet.
    pub fn request(&mut self, action: ControlPanelAction)
        ensures
            final(self).action_spec() == Some(action),
    {
        self.action = Some(action);
    }

    /// Hands out the pending request, leaving none.
    pub fn take_action(&mut self) -> (r: Option<ControlPanelAction>)
        ensures
            r == old(self).action_spec(),
            final(self).action_spec() is None,
    {
        let mut taken: Option<ControlPanelAction> = None;
        std::mem::swap(&mut self.action, &mut taken);
        taken
    }
}

/// Runs for a set amount of musical time once performance starts, then
/// reports that it is finished.
#[derive(Clone, Copy, Debug, Default, PartialEq, Eq, Structural)]
pub struct Timer {
    uid: Uid,
    duration: MusicalTime,
    is_performing: bool,
    is_finished: bool,
    end_time: Option<MusicalTime>,
}

impl Timer {
    pub closed spec fn duration_spec(&self) -> MusicalTime {
        self.duration
    }

    pub closed spec fn performing_spec(&self) -> bool {
        self.is_performing
    }

    pub closed spec fn finished_spec(&self) -> bool {
        self.is_finished
    }

    /// When the timer fires, once its first time slice has fixed it.
    pub closed spec fn end_time_spec(&self) -> Option<MusicalTime> {
        self.end_time
    }

    pub fn new_with(duration: MusicalTime) -> (r: Self)
        ensures
            r.duration_spec() == duration,
            !r.performing_spec(),
            !r.finished_spec(),
            r.end_time_spec() is None,
    {
        Timer {
            uid: Uid(0),
            duration,
            is_performing: false,
            is_finished: false,
            end_time: None,
        }
    }

    pub fn duration(&self) -> (r: MusicalTime)
        ensures
            r == self.duration_spec(),
    {
        self.duration
    }

    pub fn set_duration(&mut self, duration: MusicalTime)
        ensures
            final(self).duration_spec() == duration,
            final(self).performing_spec() == old(self).performing_spec(),
            final(self).finished_spec() == old(self).finished_spec(),
            final(self).end_time_spec() == old(self).end_time_spec(),
    {
        self.duration = duration;
    }

    /// Takes in the time slice being performed. A zero-length timer finishes
    /// at once; otherwise the first slice fixes the end time as its start
    /// plus the duration, and the timer finishes on the slice that contains
    /// that end time. A timer that is not performing ignores time.
    pub fn update_time(&mut self, range: &TimeRange)
        requires
            old(self).performing_spec() && old(self).end_time_spec() is None ==> range.start.units_spec()
                + old(self).duration_spec().units_spec() <= usize::MAX,
        ensures
            final(self).duration_spec() == old(self).duration_spec(),
            final(self).performing_spec() == old(self).performing_spec(),
            if !old(self).performing_spec() {
                &&& final(self).finished_spec() == old(self).finished_spec()
                &&& final(self).end_time_spec() == old(self).end_time_spec()
            } else if old(self).duration_spec().units_spec() == 0 {
                &&& final(self).finished_spec()
                &&& final(self).end_time_spec() == old(self).end_time_spec()
            } else {
                match old(self).end_time_spec() {
                    Some(end) => {
                        &&& final(self).finished_spec() == (old(self).finished_spec()
                            || range.contains_spec(end))
                        &&& final(self).end_time_spec() == old(self).end_time_spec()
                    },
                    None => {
                        &&& final(self).finished_spec() == old(self).finished_spec()
                        &&& final(self).end_time_spec() is Some
                        &&& final(self).end_time_spec()->Some_0.units_spec()
                            == range.start.units_spec() + old(self).duration_spec().units_spec()
                    },
                }
            },
    {
        if self.is_performing {
            if self.duration.total_units() == 0 {
                self.is_finished = true;
            } else if let Some(end_time) = self.end_time {
                if range.contains(end_time) {
                    self.is_finished = true;
                }
            } else {
                self.end_time = Some(range.start.plus(self.duration));
            }
        }
    }

    pub fn is_finished(&self) -> (r: bool)
        ensures
            r == self.finished_spec(),
    {
        self.is_finished
    }

    pub fn play(&mut self)
        ensures
            final(self).performing_spec(),
            final(self).duration_spec() == old(self).duration_spec(),
            final(self).finished_spec() == old(self).finished_spec(),
            final(self).end_time_spec() == old(self).end_time_spec(),
    {
        self.is_performing = true;
    }

    pub fn stop(&mut self)
        ensures
            !final(self).performing_spec(),
            final(self).duration_spec() == old(self).duration_spec(),
            final(self).finished_spec() == old(self).finished_spec(),
            final(self).end_time_spec() == old(self).end_time_spec(),
    {
        self.is_performing = false;
    }

    pub fn is_performing(&self) -> (r: bool)
        ensures
            r == self.performing_spec(),
    {
        self.is_performing
    }
}

} // verus!
