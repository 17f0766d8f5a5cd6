//! What to do about a failed status value.
//!
//! The policy decides; the caller carries the decision out, since every
//! one of the actions ends or interrupts the process.

use vstd::prelude::*;
use crate::ipc::sf::ProcessId;
use crate::result::ResultCode;
use crate::service::fatal::Policy;
use crate::wire::{push_u32, u32_le};

verus! {

/// How a failure is to be made known.
#[derive(Clone, Copy, Debug, PartialEq, Eq, Structural)]
pub enum AssertMode {
    /// End the process with the status as its exit status.
    ProcessExit,
    /// Report the status through the system's fault service.
    FatalThrow,
    /// Trap into the kernel with the status as diagnostic payload.
    SvcBreak,
    /// Abort locally.
    Panic,
}

/// Why a kernel trap is requested.
#[derive(Clone, Copy, Debug, PartialEq, Eq, Structural)]
pub enum BreakReason {
    Panic,
    Assert,
    User,
}

/// The action that a policy asks for.
#[derive(Debug, PartialEq, Eq)]
pub enum AssertAction {
    /// The status is success: go on.
    Nothing,
    /// End the process with this exit status.
    ExitProcess { rc: ResultCode },
    /// Ask the fault service to report the status under this policy, with
    /// a zero process id slot, and ignore whether that succeeds.
    ThrowFatal { rc: ResultCode, policy: Policy, process_id: ProcessId },
    /// Trap into the kernel for this reason with these payload bytes.
    Break { reason: BreakReason, payload: Vec<u8> },
    /// Abort with the status as the message.
    Panic { rc: ResultCode },
}

/// Decides what is to be done about a status value under a policy.
///
/// Success asks for nothing, under every policy. A failure asks for the
/// action that the policy names: the exit status, the report and the
/// panic carry the failing status itself, the kernel trap carries its
/// four bytes.
pub fn assert_action(mode: AssertMode, rc: ResultCode) -> (action: AssertAction)
    ensures
        rc.succeeded() ==> action == AssertAction::Nothing,
        !rc.succeeded() ==> match mode {
            AssertMode::ProcessExit => action == (AssertAction::ExitProcess { rc }),
            AssertMode::FatalThrow => action == (AssertAction::ThrowFatal {
                rc,
                policy: Policy::ErrorScreen,
                process_id: ProcessId { process_id: 0 },
            }),
            AssertMode::SvcBreak => action matches AssertAction::Break { reason, payload }
                && reason == BreakReason::Panic && payload@ == u32_le(rc.value),
            AssertMode::Panic => action == (AssertAction::Panic { rc }),
        },
{
    if rc.is_failure() {
        match mode {
            AssertMode::ProcessExit => AssertAction::ExitProcess { rc },
            AssertMode::FatalThrow => AssertAction::ThrowFatal {
                rc,
                policy: Policy::ErrorScreen,
                process_id: ProcessId::new(),
            },
            AssertMode::SvcBreak => {
                let mut payload: Vec<u8> = Vec::new();
                push_u32(&mut payload, rc.get_value());
                assert(payload@ =~= u32_le(rc.value));
                AssertAction::Break { reason: BreakReason::Panic, payload }
            },
            AssertMode::Panic => AssertAction::Panic { rc },
        }
    } else {
        AssertAction::Nothing
    }
}

} // verus!
