use vstd::prelude::*;

verus! {

/// A pump actuator with two idempotent commands.
pub trait Waterer {
    /// Commands the pump on.
    fn water(&mut self);

    /// Commands the pump off.
    fn stop_water(&mut self);
}

} // verus!
