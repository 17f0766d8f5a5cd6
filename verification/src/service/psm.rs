//! The interface of the power state service.

use vstd::prelude::*;
use crate::result::ResultCode;

verus! {

/// The power state service.
pub trait IPsmServer {
    /// The charge of the battery, in percent.
    fn get_battery_charge_percentage(&mut self) -> Result<u32, ResultCode>;
}

} // verus!
