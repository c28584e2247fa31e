use vstd::prelude::*;

verus! {

/// A fatal failure reported by a collaborator of the controller.
#[derive(Clone, Copy, Debug, PartialEq, Eq, Structural)]
pub enum Fault {
    /// The moisture source could not deliver a conversion.
    Sensor,
    /// The display's bus transport failed.
    Display,
}

} // verus!
