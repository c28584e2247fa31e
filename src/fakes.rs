use vstd::prelude::*;
use crate::fault::Fault;
use crate::moisture_reader::MoistureReader;
use crate::oled::LineDisplay;
use crate::policy::PumpCommand;
use crate::waterer::Waterer;

verus! {

/// A moisture source that plays back a fixed list of samples, then fails.
pub struct ScriptedMoisture {
    samples: Vec<u16>,
    next: usize,
}

impl ScriptedMoisture {
    /// The samples not yet handed out, in order.
    pub closed spec fn remaining(&self) -> Seq<u16> {
        if self.next <= self.samples.len() {
            self.samples@.skip(self.next as int)
        } else {
            Seq::empty()
        }
    }

    /// A source that will hand out `samples` in order.
    pub fn new(samples: Vec<u16>) -> (r: ScriptedMoisture)
        ensures
            r.remaining() == samples@,
    {
        let r = ScriptedMoisture { samples, next: 0 };
        assert(r.samples@.skip(0) =~= r.samples@);
        r
    }

    /// Hands out the next sample, or reports a sensor fault once the list is spent.
    pub fn take(&mut self) -> (r: Result<u16, Fault>)
        ensures
            old(self).remaining().len() == 0 ==> r == Err::<u16, Fault>(Fault::Sensor)
                && final(self).remaining() == old(self).remaining(),
            old(self).remaining().len() > 0 ==> r == Ok::<u16, Fault>(old(self).remaining()[0])
                && final(self).remaining() == old(self).remaining().skip(1),
    {
        if self.next < self.samples.len() {
            let v = self.samples[self.next];
            assert(self.samples@.skip(self.next as int + 1) =~= self.samples@.skip(
                self.next as int,
            ).skip(1));
            self.next = self.next + 1;
            Ok(v)
        } else {
            Err(Fault::Sensor)
        }
    }
}

impl MoistureReader for ScriptedMoisture {
    fn read_moisture(&mut self) -> Result<u16, Fault> {
        self.take()
    }
}

/// A pump that records every command it receives.
pub struct RecordingPump {
    log: Vec<PumpCommand>,
}

impl RecordingPump {
    /// The commands received so far, oldest first.
    pub closed spec fn log_spec(&self) -> Seq<PumpCommand> {
        self.log@
    }

    /// A pump that has received no command.
    pub fn new() -> (r: RecordingPump)
        ensures
            r.log_spec() == Seq::<PumpCommand>::empty(),
    {
        RecordingPump { log: Vec::new() }
    }

    /// The commands received so far, oldest first.
    pub fn commands(&self) -> (r: &Vec<PumpCommand>)
        ensures
            r@ == self.log_spec(),
    {
        &self.log
    }

    /// Records one command.
    pub fn record(&mut self, c: PumpCommand)
        ensures
            final(self).log_spec() == old(self).log_spec().push(c),
    {
        self.log.push(c);
    }
}

impl Waterer for RecordingPump {
    fn water(&mut self) {
        self.record(PumpCommand::Start);
    }

    fn stop_water(&mut self) {
        self.record(PumpCommand::Stop);
    }
}

/// A display that keeps the text of each row, and can be told to fail its
/// bus after a number of successful writes.
pub struct RecordingDisplay {
    rows: Vec<String>,
    writes_left: Option<usize>,
}

impl RecordingDisplay {
    /// The text of each row, top first.
    pub closed spec fn rows_spec(&self) -> Seq<Seq<char>> {
        self.rows@.map_values(|s: String| s@)
    }

    /// How many more writes succeed before the bus fails; `None` for never.
    pub closed spec fn writes_left_spec(&self) -> Option<usize> {
        self.writes_left
    }

    /// A display of `line_count` empty rows that never fails.
    pub fn new(line_count: usize) -> (r: RecordingDisplay)
        ensures
            r.rows_spec().len() == line_count,
            forall|i: int| 0 <= i < line_count ==> (#[trigger] r.rows_spec()[i]).len() == 0,
            r.writes_left_spec() is None,
    {
        let mut rows: Vec<String> = Vec::new();
        let mut i: usize = 0;
        while i < line_count
            invariant
                i <= line_count,
                rows@.len() == i,
                forall|j: int| 0 <= j < i ==> (#[trigger] rows@[j])@.len() == 0,
            decreases line_count - i,
        {
            rows.push(String::new());
            i = i + 1;
        }
        RecordingDisplay { rows, writes_left: None }
    }

    /// A display of `line_count` empty rows whose bus fails after `writes`
    /// successful writes.
    pub fn failing_after(line_count: usize, writes: usize) -> (r: RecordingDisplay)
        ensures
            r.rows_spec().len() == line_count,
            forall|i: int| 0 <= i < line_count ==> (#[trigger] r.rows_spec()[i]).len() == 0,
            r.writes_left_spec() == Some(writes),
    {
        let mut r = RecordingDisplay::new(line_count);
        r.writes_left = Some(writes);
        r
    }

    /// The text of row `line`, or `None` past the last row.
    pub fn row(&self, line: usize) -> (r: Option<String>)
        ensures
            line < self.rows_spec().len() <==> r is Some,
            r matches Some(s) ==> s@ == self.rows_spec()[line as int],
    {
        if line < self.rows.len() {
            Some(self.rows[line].clone())
        } else {
            None
        }
    }

    /// Replaces the text of row `line`: fails past the last row or once the
    /// bus has used up its successful writes.
    pub fn show(&mut self, s: &str, line: u32) -> (r: Result<(), Fault>)
        ensures
            r is Ok <==> (line < old(self).rows_spec().len() && old(self).writes_left_spec() != Some(
                0usize,
            )),
            r is Ok ==> final(self).rows_spec() == old(self).rows_spec().update(line as int, s@),
            r is Err ==> r == Err::<(), Fault>(Fault::Display) && final(self).rows_spec() == old(
                self,
            ).rows_spec(),
    {
        if line as usize >= self.rows.len() {
            return Err(Fault::Display);
        }
        match self.writes_left {
            Some(0) => {
                return Err(Fault::Display);
            },
            Some(k) => {
                self.writes_left = Some(k - 1);
            },
            None => {},
        }
        self.rows.set(line as usize, s.to_owned());
        assert(self.rows@.map_values(|s: String| s@) =~= old(self).rows@.map_values(
            |s: String| s@,
        ).update(line as int, s@));
        Ok(())
    }
}

impl LineDisplay for RecordingDisplay {
    fn write(&mut self, s: &str, line: u32) -> Result<(), Fault> {
        self.show(s, line)
    }
}

} // verus!
