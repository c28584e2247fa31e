use vstd::prelude::*;

verus! {

/// Default raw reading above which a reading-driven waterer acts.
pub const WATERING_THRESHOLD: u16 = 2000;

/// Default pause between readings, in milliseconds.
pub const MOISTURE_DELAY: u8 = 200;

/// Something that can water a plant, reporting whether it did.
pub trait Waterer {
    fn water(&mut self) -> Option<()>;
}

/// A source of moisture readings of a caller-chosen sample type.
pub trait MoistureReader<W: From<u16>> {
    fn get_moisture(&mut self) -> W;
}

/// A waterer driven by a moisture reader, with a fixed threshold and delay.
pub struct MoistureLevelWaterer<R> {
    watering_threshold: u16,
    moisture_delay: u8,
    moisture_reader: R,
}

impl<R> MoistureLevelWaterer<R> {
    /// The threshold it was built with.
    pub closed spec fn watering_threshold_spec(&self) -> u16 {
        self.watering_threshold
    }

    /// The delay it was built with.
    pub closed spec fn moisture_delay_spec(&self) -> u8 {
        self.moisture_delay
    }

    /// The reader it owns.
    pub closed spec fn reader_spec(&self) -> R {
        self.moisture_reader
    }

    /// A waterer over `moisture_reader` with the default threshold of 2000
    /// and delay of 200.
    pub fn new(moisture_reader: R) -> (r: MoistureLevelWaterer<R>)
        ensures
            r.watering_threshold_spec() == WATERING_THRESHOLD,
            r.moisture_delay_spec() == MOISTURE_DELAY,
            r.reader_spec() == moisture_reader,
    {
        MoistureLevelWaterer {
            watering_threshold: WATERING_THRESHOLD,
            moisture_delay: MOISTURE_DELAY,
            moisture_reader,
        }
    }

    /// The threshold it was built with.
    pub fn watering_threshold(&self) -> (r: u16)
        ensures
            r == self.watering_threshold_spec(),
    {
        self.watering_threshold
    }

    /// The delay it was built with.
    pub fn moisture_delay(&self) -> (r: u8)
        ensures
            r == self.moisture_delay_spec(),
    {
        self.moisture_delay
    }

    /// The reader it owns.
    pub fn reader(&self) -> (r: &R)
        ensures
            *r == self.reader_spec(),
    {
        &self.moisture_reader
    }
}

} // verus!
