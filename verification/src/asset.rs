//! The capability an asset offers to the systems that consume it.

use vstd::prelude::*;

verus! {

/// An asset: a named piece of loaded data.  Implemented by the
/// application's asset types; the library only names the capability.
pub trait Asset {
    /// The data the asset carries.
    type D;

    /// The asset's name.
    fn name(&self) -> String;

    /// The asset's data.
    fn data(&self) -> &Self::D;
}

} // verus!
