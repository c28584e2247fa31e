use vstd::prelude::*;
use crate::fault::Fault;
use crate::moisture_reader::MoistureReader;
use crate::policy::{
    command_for, decide, next_state, step_commands, PumpCommand, PumpState, Threshold,
};
use crate::waterer::Waterer;

verus! {

/// The state a pump is in after the commands `cmds`, oldest first: off until
/// the first command, then whatever the latest command asked for.
pub open spec fn level_after(cmds: Seq<PumpCommand>) -> PumpState {
    if cmds.len() == 0 {
        PumpState::Off
    } else if cmds.last() == PumpCommand::Start {
        PumpState::On
    } else {
        PumpState::Off
    }
}

/// A plant's controller: owns a moisture source and a pump, applies the
/// hysteresis policy, and remembers the last commanded pump state.
pub struct Plant<R, W> {
    moisture_sensor: R,
    pump: W,
    threshold: Threshold,
    state: PumpState,
    last_sample: Option<u16>,
    issued: Ghost<Seq<PumpCommand>>,
}

impl<R: MoistureReader, W: Waterer> Plant<R, W> {
    /// The threshold pair fixed at construction.
    pub closed spec fn threshold_spec(&self) -> Threshold {
        self.threshold
    }

    /// The last commanded pump state.
    pub closed spec fn state_spec(&self) -> PumpState {
        self.state
    }

    /// The most recent sample taken, if any.
    pub closed spec fn last_sample_spec(&self) -> Option<u16> {
        self.last_sample
    }

    /// Every command this controller has issued to its pump, oldest first.
    pub closed spec fn issued(&self) -> Seq<PumpCommand> {
        self.issued@
    }

    /// Bounds are ordered, at least one command has gone out, and the recorded
    /// state is the one the latest command put the pump in.
    pub open spec fn wf(&self) -> bool {
        &&& self.threshold_spec().wf()
        &&& self.issued().len() > 0
        &&& level_after(self.issued()) == self.state_spec()
    }

    /// A controller with the default bounds. The pump is commanded off before
    /// this returns, so a freshly built controller never leaves it running.
    pub fn new(moisture_sensor: R, pump: W) -> (r: Plant<R, W>)
        ensures
            r.wf(),
            r.threshold_spec() == Threshold::default_bounds_spec(),
            r.state_spec() == PumpState::Off,
            r.issued() == seq![PumpCommand::Stop],
            r.last_sample_spec() is None,
    {
        Self::with_threshold(moisture_sensor, pump, Threshold::default_bounds())
    }

    /// A controller with the given bounds; the pump is commanded off first.
    pub fn with_threshold(moisture_sensor: R, pump: W, threshold: Threshold) -> (r: Plant<R, W>)
        requires
            threshold.wf(),
        ensures
            r.wf(),
            r.threshold_spec() == threshold,
            r.state_spec() == PumpState::Off,
            r.issued() == seq![PumpCommand::Stop],
            r.last_sample_spec() is None,
    {
        let mut pump = pump;
        pump.stop_water();
        Plant {
            moisture_sensor,
            pump,
            threshold,
            state: PumpState::Off,
            last_sample: None,
            issued: Ghost(Seq::empty().push(PumpCommand::Stop)),
        }
    }

    /// The last commanded pump state.
    pub fn state(&self) -> (r: PumpState)
        ensures
            r == self.state_spec(),
    {
        self.state
    }

    /// The threshold pair fixed at construction.
    pub fn threshold(&self) -> (r: Threshold)
        ensures
            r == self.threshold_spec(),
    {
        self.threshold
    }

    /// The most recent sample taken, if any.
    pub fn last_sample(&self) -> (r: Option<u16>)
        ensures
            r == self.last_sample_spec(),
    {
        self.last_sample
    }

    /// The moisture source.
    pub fn sensor(&self) -> &R {
        &self.moisture_sensor
    }

    /// The pump.
    pub fn pump(&self) -> &W {
        &self.pump
    }

    /// Takes a fresh sample from the source and captures it for the next decision.
    pub fn read_moisture(&mut self) -> (r: Result<u16, Fault>)
        ensures
            final(self).threshold_spec() == old(self).threshold_spec(),
            final(self).state_spec() == old(self).state_spec(),
            final(self).issued() == old(self).issued(),
            r matches Ok(v) ==> final(self).last_sample_spec() == Some(v),
            r is Err ==> final(self).last_sample_spec() == old(self).last_sample_spec(),
    {
        let r = self.moisture_sensor.read_moisture();
        if let Ok(v) = r {
            self.last_sample = Some(v);
        }
        r
    }

    /// Whether the captured sample lies strictly above the dry bound; false
    /// before any sample has been taken.
    pub fn needs_water(&self) -> (r: bool)
        ensures
            r == (self.last_sample_spec() matches Some(v) && v > self.threshold_spec().dry_threshold),
    {
        match self.last_sample {
            Some(v) => v > self.threshold.dry_threshold,
            None => false,
        }
    }

    /// Commands the pump on and records it.
    pub fn water(&mut self)
        ensures
            water_post(*old(self), *final(self)),
    {
        self.pump.water();
        self.state = PumpState::On;
        self.issued = Ghost(self.issued@.push(PumpCommand::Start));
    }

    /// Commands the pump off and records it.
    pub fn stop_water(&mut self)
        ensures
            stop_water_post(*old(self), *final(self)),
    {
        self.pump.stop_water();
        self.state = PumpState::Off;
        self.issued = Ghost(self.issued@.push(PumpCommand::Stop));
    }

    /// Applies the hysteresis policy to the captured sample: the pump is
    /// commanded only when the decision changes its state. Returns the command
    /// issued, if any. Without a captured sample nothing changes.
    pub fn regulate(&mut self) -> (r: Option<PumpCommand>)
        requires
            old(self).wf(),
        ensures
            final(self).wf(),
            final(self).threshold_spec() == old(self).threshold_spec(),
            final(self).last_sample_spec() == old(self).last_sample_spec(),
            old(self).last_sample_spec() is None ==> final(self).state_spec() == old(
                self,
            ).state_spec() && final(self).issued() == old(self).issued() && r is None,
            old(self).last_sample_spec() matches Some(s) ==> {
                &&& final(self).state_spec() == next_state(
                    old(self).state_spec(),
                    s,
                    old(self).threshold_spec(),
                )
                &&& final(self).issued() == old(self).issued() + step_commands(
                    old(self).state_spec(),
                    s,
                    old(self).threshold_spec(),
                )
                &&& r == (if final(self).state_spec() != old(self).state_spec() {
                    Some(command_for(final(self).state_spec()))
                } else {
                    None
                })
            },
    {
        match self.last_sample {
            None => None,
            Some(s) => {
                let next = decide(self.state, s, self.threshold);
                if next == self.state {
                    assert(old(self).issued() + seq![] =~= old(self).issued());
                    None
                } else {
                    match next {
                        PumpState::On => {
                            self.water();
                            Some(PumpCommand::Start)
                        },
                        PumpState::Off => {
                            self.stop_water();
                            Some(PumpCommand::Stop)
                        },
                    }
                }
            },
        }
    }
}

/// What `water` does: the state is on, a start command is recorded, and
/// nothing else changes.
pub open spec fn water_post<R: MoistureReader, W: Waterer>(
    before: Plant<R, W>,
    after: Plant<R, W>,
) -> bool {
    &&& after.state_spec() == PumpState::On
    &&& after.issued() == before.issued().push(PumpCommand::Start)
    &&& after.threshold_spec() == before.threshold_spec()
    &&& after.last_sample_spec() == before.last_sample_spec()
}

/// What `stop_water` does: the state is off, a stop command is recorded, and
/// nothing else changes.
pub open spec fn stop_water_post<R: MoistureReader, W: Waterer>(
    before: Plant<R, W>,
    after: Plant<R, W>,
) -> bool {
    &&& after.state_spec() == PumpState::Off
    &&& after.issued() == before.issued().push(PumpCommand::Stop)
    &&& after.threshold_spec() == before.threshold_spec()
    &&& after.last_sample_spec() == before.last_sample_spec()
}

} // verus!
