use vstd::prelude::*;

verus! {

/// Default raw reading at or above which the soil counts as dry.
pub const DEFAULT_DRY_THRESHOLD: u16 = 2400;

/// Default raw reading at or below which the soil counts as wet.
pub const DEFAULT_WET_THRESHOLD: u16 = 2000;

/// The state the pump has last been commanded into.
#[derive(Clone, Copy, Debug, PartialEq, Eq, Structural)]
pub enum PumpState {
    Off,
    On,
}

/// A command issued to the pump actuator.
#[derive(Clone, Copy, Debug, PartialEq, Eq, Structural)]
pub enum PumpCommand {
    Start,
    Stop,
}

/// Dry/wet decision bounds, in raw converter units (higher is drier).
#[derive(Clone, Copy, Debug, PartialEq, Eq, Structural)]
pub struct Threshold {
    pub dry_threshold: u16,
    pub wet_threshold: u16,
}

impl Threshold {
    /// The wet bound lies strictly below the dry bound.
    pub open spec fn wf(self) -> bool {
        self.wet_threshold < self.dry_threshold
    }

    /// Builds a threshold pair; `None` unless `wet_threshold < dry_threshold`.
    pub fn new(dry_threshold: u16, wet_threshold: u16) -> (r: Option<Threshold>)
        ensures
            wet_threshold < dry_threshold <==> r is Some,
            r matches Some(t) ==> t.dry_threshold == dry_threshold && t.wet_threshold
                == wet_threshold,
    {
        if wet_threshold < dry_threshold {
            Some(Threshold { dry_threshold, wet_threshold })
        } else {
            None
        }
    }

    /// The default bounds as a value.
    pub open spec fn default_bounds_spec() -> Threshold {
        Threshold { dry_threshold: DEFAULT_DRY_THRESHOLD, wet_threshold: DEFAULT_WET_THRESHOLD }
    }

    /// The default bounds: dry at 2400, wet at 2000.
    pub fn default_bounds() -> (r: Threshold)
        ensures
            r == Threshold::default_bounds_spec(),
            r.wf(),
    {
        Threshold { dry_threshold: DEFAULT_DRY_THRESHOLD, wet_threshold: DEFAULT_WET_THRESHOLD }
    }
}

/// The command that drives the pump into `s`.
pub open spec fn command_for(s: PumpState) -> PumpCommand {
    match s {
        PumpState::On => PumpCommand::Start,
        PumpState::Off => PumpCommand::Stop,
    }
}

/// Two-sided hysteresis: switch on at or above the dry bound, off at or below
/// the wet bound, otherwise keep the current state.
pub open spec fn next_state(s: PumpState, sample: u16, t: Threshold) -> PumpState {
    match s {
        PumpState::Off => if sample >= t.dry_threshold { PumpState::On } else { PumpState::Off },
        PumpState::On => if sample <= t.wet_threshold { PumpState::Off } else { PumpState::On },
    }
}

/// The commands one sample causes: one command when the state changes, none otherwise.
pub open spec fn step_commands(s: PumpState, sample: u16, t: Threshold) -> Seq<PumpCommand> {
    if next_state(s, sample, t) != s {
        seq![command_for(next_state(s, sample, t))]
    } else {
        seq![]
    }
}

/// The state reached from `s` after deciding on each sample in turn.
pub open spec fn run_state(s: PumpState, samples: Seq<u16>, t: Threshold) -> PumpState
    decreases samples.len(),
{
    if samples.len() == 0 {
        s
    } else {
        next_state(run_state(s, samples.drop_last(), t), samples.last(), t)
    }
}

/// The commands issued from `s` while deciding on each sample in turn.
pub open spec fn run_commands(s: PumpState, samples: Seq<u16>, t: Threshold) -> Seq<PumpCommand>
    decreases samples.len(),
{
    if samples.len() == 0 {
        seq![]
    } else {
        run_commands(s, samples.drop_last(), t) + step_commands(
            run_state(s, samples.drop_last(), t),
            samples.last(),
            t,
        )
    }
}

/// Decides the next pump state from the current one and a fresh sample.
pub fn decide(s: PumpState, sample: u16, t: Threshold) -> (r: PumpState)
    ensures
        r == next_state(s, sample, t),
{
    match s {
        PumpState::Off => if sample >= t.dry_threshold {
            PumpState::On
        } else {
            PumpState::Off
        },
        PumpState::On => if sample <= t.wet_threshold {
            PumpState::Off
        } else {
            PumpState::On
        },
    }
}

} // verus!
