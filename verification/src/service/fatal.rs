//! The interface of the system's fault service.

use vstd::prelude::*;
use crate::ipc::sf::ProcessId;
use crate::result::ResultCode;

verus! {

/// What the fault service does with a reported failure.
#[derive(Clone, Copy, Debug, PartialEq, Eq, Structural)]
pub enum Policy {
    ErrorReportAndErrorScreen,
    ErrorReport,
    ErrorScreen,
}

impl Policy {
    /// The number that stands for the policy in a message.
    pub open spec fn number(self) -> u32 {
        match self {
            Policy::ErrorReportAndErrorScreen => 0,
            Policy::ErrorReport => 1,
            Policy::ErrorScreen => 2,
        }
    }

    /// The number that stands for the policy in a message.
    pub fn to_number(&self) -> (n: u32)
        ensures
            n == self.number(),
    {
        match self {
            Policy::ErrorReportAndErrorScreen => 0,
            Policy::ErrorReport => 1,
            Policy::ErrorScreen => 2,
        }
    }

    /// The policy that a number stands for.
    pub fn from_number(n: u32) -> (p: Option<Policy>)
        ensures
            p matches Some(policy) ==> policy.number() == n,
            p is None <==> n > 2,
    {
        if n == 0 {
            Some(Policy::ErrorReportAndErrorScreen)
        } else if n == 1 {
            Some(Policy::ErrorReport)
        } else if n == 2 {
            Some(Policy::ErrorScreen)
        } else {
            None
        }
    }
}

/// The fault service.
pub trait IService {
    /// Reports a failure under a policy on behalf of the calling process.
    fn throw_with_policy(&mut self, rc: ResultCode, policy: Policy, process_id: ProcessId) -> Result<
        (),
        ResultCode,
    >;
}

} // verus!
