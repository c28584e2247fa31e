use vstd::prelude::*;
use crate::fault::Fault;

verus! {

/// A source of raw soil-moisture samples; higher values mean drier soil.
pub trait MoistureReader {
    /// Takes a fresh conversion, or reports that the source has failed.
    fn read_moisture(&mut self) -> Result<u16, Fault>;
}

} // verus!
