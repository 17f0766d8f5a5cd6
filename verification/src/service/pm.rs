//! The interfaces of the process manager.

use vstd::prelude::*;
use crate::result::ResultCode;

verus! {

/// Information on running processes.
pub trait IInformationInterface {
    /// The program that a process runs.
    fn get_program_id(&mut self, process_id: u64) -> Result<u64, ResultCode>;
}

/// What a debugger asks of the process manager.
pub trait IDebugMonitorInterface {
    /// The process of the running application.
    fn get_application_process_id(&mut self) -> Result<u64, ResultCode>;
}

} // verus!
