use vstd::prelude::*;
use crate::decimal::{decimal_digits, decimal_text};
use crate::fault::Fault;
use crate::moisture_reader::MoistureReader;
use crate::oled::LineDisplay;
use crate::plant::{stop_water_post, Plant};
use crate::policy::{command_for, next_state, step_commands, PumpCommand, PumpState};
use crate::waterer::Waterer;

verus! {

/// Row holding the title.
pub const TITLE_ROW: u32 = 0;

/// Row holding the label above the reading.
pub const LABEL_ROW: u32 = 1;

/// Row holding the latest sample, in decimal.
pub const READING_ROW: u32 = 2;

/// Row holding the pump state.
pub const PUMP_ROW: u32 = 3;

/// The pump-state text shown on the pump row.
pub open spec fn pump_label(s: PumpState) -> Seq<char> {
    match s {
        PumpState::On => "Pump on"@,
        PumpState::Off => "Pump off"@,
    }
}

/// What one completed tick did: the sample taken and the command it caused.
#[derive(Clone, Copy, Debug, PartialEq, Eq, Structural)]
pub struct TickReport {
    pub sample: u16,
    pub command: Option<PumpCommand>,
}

/// The control loop's decisions: it owns the plant controller and the
/// display, and each tick samples, shows the sample, regulates the pump and
/// shows the pump state. Any fault stops the pump once before giving up.
pub struct ControlLoop<R, W, D> {
    plant: Plant<R, W>,
    display: D,
    rows: Ghost<Map<u32, Seq<char>>>,
}

impl<R: MoistureReader, W: Waterer, D: LineDisplay> ControlLoop<R, W, D> {
    /// The plant controller.
    pub closed spec fn plant_spec(&self) -> Plant<R, W> {
        self.plant
    }

    /// The text each row was last successfully given.
    pub closed spec fn shown(&self) -> Map<u32, Seq<char>> {
        self.rows@
    }

    /// A loop over a well-formed controller and a display that shows nothing yet.
    pub fn new(plant: Plant<R, W>, display: D) -> (r: ControlLoop<R, W, D>)
        requires
            plant.wf(),
        ensures
            r.plant_spec() == plant,
            r.shown() == Map::<u32, Seq<char>>::empty(),
    {
        ControlLoop { plant, display, rows: Ghost(Map::empty()) }
    }

    /// The plant controller.
    pub fn plant(&self) -> (r: &Plant<R, W>)
        ensures
            *r == self.plant_spec(),
    {
        &self.plant
    }

    /// The display.
    pub fn display(&self) -> &D {
        &self.display
    }

    /// Writes one row; on a display fault the pump is stopped once.
    fn show(&mut self, s: &str, line: u32) -> (r: Result<(), Fault>)
        requires
            old(self).plant_spec().wf(),
        ensures
            final(self).plant_spec().wf(),
            r is Ok ==> final(self).plant_spec() == old(self).plant_spec() && final(self).shown()
                == old(self).shown().insert(line, s@),
            r is Err ==> r == Err::<(), Fault>(Fault::Display) && stop_water_post(
                old(self).plant_spec(),
                final(self).plant_spec(),
            ) && final(self).shown() == old(self).shown(),
    {
        match self.display.write(s, line) {
            Ok(()) => {
                self.rows = Ghost(self.rows@.insert(line, s@));
                Ok(())
            },
            Err(_) => {
                self.plant.stop_water();
                Err(Fault::Display)
            },
        }
    }

    /// Writes the static labels and the current pump state. On a fault the
    /// pump is stopped once.
    pub fn start(&mut self) -> (r: Result<(), Fault>)
        requires
            old(self).plant_spec().wf(),
        ensures
            final(self).plant_spec().wf(),
            r is Ok ==> {
                &&& final(self).plant_spec() == old(self).plant_spec()
                &&& final(self).shown()[TITLE_ROW] == "Moisture Meter"@
                &&& final(self).shown()[LABEL_ROW] == "Current moisture:"@
                &&& final(self).shown()[PUMP_ROW] == pump_label(final(self).plant_spec().state_spec())
                &&& final(self).shown().contains_key(TITLE_ROW)
                &&& final(self).shown().contains_key(LABEL_ROW)
                &&& final(self).shown().contains_key(PUMP_ROW)
            },
            r is Err ==> r == Err::<(), Fault>(Fault::Display) && stop_water_post(
                old(self).plant_spec(),
                final(self).plant_spec(),
            ),
    {
        self.show("Moisture Meter", TITLE_ROW)?;
        self.show("Current moisture:", LABEL_ROW)?;
        let label = if self.plant.state() == PumpState::On {
            "Pump on"
        } else {
            "Pump off"
        };
        self.show(label, PUMP_ROW)
    }

    /// Takes a sample and shows it on the reading row. The sample is captured
    /// for the next decision, so the value shown is the value acted on. On a
    /// fault the pump is stopped once and nothing is decided.
    pub fn measure(&mut self) -> (r: Result<u16, Fault>)
        requires
            old(self).plant_spec().wf(),
        ensures
            final(self).plant_spec().wf(),
            final(self).plant_spec().threshold_spec() == old(self).plant_spec().threshold_spec(),
            r matches Ok(v) ==> {
                &&& final(self).plant_spec().last_sample_spec() == Some(v)
                &&& final(self).plant_spec().state_spec() == old(self).plant_spec().state_spec()
                &&& final(self).plant_spec().issued() == old(self).plant_spec().issued()
                &&& final(self).shown() == old(self).shown().insert(
                    READING_ROW,
                    decimal_digits(v as nat),
                )
            },
            r is Err ==> {
                &&& final(self).plant_spec().state_spec() == PumpState::Off
                &&& final(self).plant_spec().issued() == old(self).plant_spec().issued().push(
                    PumpCommand::Stop,
                )
            },
    {
        let sample = match self.plant.read_moisture() {
            Ok(v) => v,
            Err(e) => {
                self.plant.stop_water();
                return Err(e);
            },
        };
        let text = decimal_text(sample);
        self.show(text.as_str(), READING_ROW)?;
        Ok(sample)
    }

    /// Applies the hysteresis policy to the sample captured by `measure`,
    /// commanding the pump only on a change of state, then shows the pump
    /// state. The command goes out before the pump row is written. On a fault
    /// the pump is stopped once more.
    pub fn actuate(&mut self) -> (r: Result<Option<PumpCommand>, Fault>)
        requires
            old(self).plant_spec().wf(),
            old(self).plant_spec().last_sample_spec() is Some,
        ensures
            final(self).plant_spec().wf(),
            final(self).plant_spec().threshold_spec() == old(self).plant_spec().threshold_spec(),
            final(self).plant_spec().last_sample_spec() == old(
                self,
            ).plant_spec().last_sample_spec(),
            ({
                let s = old(self).plant_spec().last_sample_spec()->Some_0;
                let t = old(self).plant_spec().threshold_spec();
                let before = old(self).plant_spec().state_spec();
                let decided = old(self).plant_spec().issued() + step_commands(before, s, t);
                &&& r matches Ok(c) ==> {
                    &&& final(self).plant_spec().state_spec() == next_state(before, s, t)
                    &&& final(self).plant_spec().issued() == decided
                    &&& c == (if next_state(before, s, t) != before {
                        Some(command_for(next_state(before, s, t)))
                    } else {
                        None
                    })
                    &&& final(self).shown() == old(self).shown().insert(
                        PUMP_ROW,
                        pump_label(next_state(before, s, t)),
                    )
                }
                &&& r is Err ==> {
                    &&& r == Err::<Option<PumpCommand>, Fault>(Fault::Display)
                    &&& final(self).plant_spec().state_spec() == PumpState::Off
                    &&& final(self).plant_spec().issued() == decided.push(PumpCommand::Stop)
                }
            }),
    {
        let command = self.plant.regulate();
        let label = if self.plant.state() == PumpState::On {
            "Pump on"
        } else {
            "Pump off"
        };
        self.show(label, PUMP_ROW)?;
        Ok(command)
    }

    /// One control step: `measure`, then `actuate`. On success the sample
    /// shown on the reading row is the one the decision was made on. On a
    /// fault the pump receives exactly one stop command beyond whatever the
    /// decision itself issued, and ends off.
    pub fn tick(&mut self) -> (r: Result<TickReport, Fault>)
        requires
            old(self).plant_spec().wf(),
        ensures
            final(self).plant_spec().wf(),
            final(self).plant_spec().threshold_spec() == old(self).plant_spec().threshold_spec(),
            ({
                let t = old(self).plant_spec().threshold_spec();
                let before = old(self).plant_spec().state_spec();
                &&& r matches Ok(rep) ==> {
                    &&& final(self).plant_spec().last_sample_spec() == Some(rep.sample)
                    &&& final(self).plant_spec().state_spec() == next_state(before, rep.sample, t)
                    &&& final(self).plant_spec().issued() == old(self).plant_spec().issued()
                        + step_commands(before, rep.sample, t)
                    &&& rep.command == (if next_state(before, rep.sample, t) != before {
                        Some(command_for(next_state(before, rep.sample, t)))
                    } else {
                        None
                    })
                    &&& final(self).shown() == old(self).shown().insert(
                        READING_ROW,
                        decimal_digits(rep.sample as nat),
                    ).insert(PUMP_ROW, pump_label(next_state(before, rep.sample, t)))
                }
                &&& r is Err ==> {
                    &&& final(self).plant_spec().state_spec() == PumpState::Off
                    &&& final(self).plant_spec().issued() == old(self).plant_spec().issued().push(
                        PumpCommand::Stop,
                    ) || exists|s: u16|
                        final(self).plant_spec().last_sample_spec() == Some(s)
                            && #[trigger] final(self).plant_spec().issued() == (old(
                            self,
                        ).plant_spec().issued() + step_commands(before, s, t)).push(
                            PumpCommand::Stop,
                        )
                }
            }),
    {
        let sample = self.measure()?;
        let command = self.actuate()?;
        Ok(TickReport { sample, command })
    }
}

} // verus!
