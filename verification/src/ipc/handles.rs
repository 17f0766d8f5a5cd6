//! The sender's account of its kernel handles.
//!
//! A handle that was sent in move mode belongs to the receiver once the
//! send has succeeded: the sender must not act on it any more. The ledger
//! records which handles the process may still act on, so that a release
//! of a handle that has left is answered with the invalid-handle status
//! instead of reaching the kernel.

use vstd::prelude::*;
use crate::ipc::message::{Message, MessageView};
use crate::ipc::sf::CloseAction;
use crate::result::{invalid_handle, spec_invalid_handle, ResultCode};

verus! {

/// The handles that remain after a message was sent with the given
/// outcome: a successful send takes the move handles of the message away;
/// copy handles stay, and a failed send takes nothing.
pub open spec fn after_send(live: Set<u32>, m: MessageView, status: ResultCode) -> Set<u32> {
    if status.succeeded() {
        Set::new(|h: u32| live.contains(h) && !m.move_handles.contains(h))
    } else {
        live
    }
}

/// The status of the release of a handle: success for a live handle, the
/// invalid-handle status for any other.
pub open spec fn release_status(live: Set<u32>, handle: u32) -> ResultCode {
    if live.contains(handle) {
        ResultCode { value: 0 }
    } else {
        spec_invalid_handle()
    }
}

/// The handles that a process may act on.
pub struct HandleLedger {
    live: Vec<u32>,
}

impl HandleLedger {
    /// The handles that the process may act on.
    pub closed spec fn view(self) -> Set<u32> {
        Set::new(|h: u32| self.live@.contains(h))
    }

    /// A ledger without handles.
    pub fn new() -> (ledger: Self)
        ensures
            ledger@ == Set::<u32>::empty(),
    {
        let ledger = Self { live: Vec::new() };
        assert(ledger@ =~= Set::<u32>::empty());
        ledger
    }

    /// Whether the process may act on the handle.
    pub fn is_live(&self, handle: u32) -> (b: bool)
        ensures
            b == self@.contains(handle),
    {
        let mut i: usize = 0;
        while i < self.live.len()
            invariant
                i <= self.live@.len(),
                forall|j: int| 0 <= j < i ==> self.live@[j] != handle,
            decreases self.live@.len() - i,
        {
            if self.live[i] == handle {
                return true;
            }
            i += 1;
        }
        false
    }

    /// Records a handle that the process has got, by a connection or
    /// from a message it received.
    pub fn acquire(&mut self, handle: u32)
        ensures
            final(self)@ == old(self)@.insert(handle),
    {
        self.live.push(handle);
        assert forall|h: u32| self@.contains(h) <==> old(self)@.insert(handle).contains(h) by {
            if old(self).live@.contains(h) {
                let j = choose|j: int| 0 <= j < old(self).live@.len() && old(self).live@[j] == h;
                assert(self.live@[j] == h);
            }
            if h == handle {
                assert(self.live@[self.live@.len() - 1] == h);
            }
        }
        assert(self@ =~= old(self)@.insert(handle));
    }

    /// Forgets a handle, wherever it is recorded.
    fn forget(&mut self, handle: u32)
        ensures
            final(self)@ == old(self)@.remove(handle),
    {
        let mut kept: Vec<u32> = Vec::new();
        let mut i: usize = 0;
        while i < self.live.len()
            invariant
                i <= self.live@.len(),
                self.live == old(self).live,
                forall|j: int| 0 <= j < kept@.len() ==> kept@[j] != handle && self.live@.contains(
                    #[trigger] kept@[j],
                ),
                forall|j: int|
                    0 <= j < i && self.live@[j] != handle ==> kept@.contains(#[trigger] self.live@[j]),
            decreases self.live@.len() - i,
        {
            let h: u32 = self.live[i];
            if h != handle {
                let ghost before = kept@;
                kept.push(h);
                assert(kept@[kept@.len() - 1] == h);
                assert forall|j: int|
                    0 <= j < i + 1 && self.live@[j] != handle implies kept@.contains(
                    #[trigger] self.live@[j],
                ) by {
                    if j < i {
                        let at = choose|at: int| 0 <= at < before.len() && before[at] == self.live@[j];
                        assert(kept@[at] == self.live@[j]);
                    }
                }
            }
            i += 1;
        }
        self.live = kept;
        assert forall|h: u32| self@.contains(h) <==> old(self)@.remove(handle).contains(h) by {
            if self.live@.contains(h) {
                let j = choose|j: int| 0 <= j < self.live@.len() && self.live@[j] == h;
                assert(old(self).live@.contains(self.live@[j]));
            }
            if old(self).live@.contains(h) && h != handle {
                let j = choose|j: int| 0 <= j < old(self).live@.len() && old(self).live@[j] == h;
                assert(kept@.contains(old(self).live@[j]));
            }
        }
        assert(self@ =~= old(self)@.remove(handle));
    }

    /// Releases a handle.
    ///
    /// A live handle is released and is live no longer. A handle that is
    /// not live, because it was never got, was released before or has
    /// left with a message, is refused with the invalid-handle status.
    pub fn release(&mut self, handle: u32) -> (status: ResultCode)
        ensures
            status == release_status(old(self)@, handle),
            final(self)@ == old(self)@.remove(handle),
    {
        if self.is_live(handle) {
            self.forget(handle);
            ResultCode::success()
        } else {
            assert(self@.remove(handle) =~= self@);
            invalid_handle()
        }
    }

    /// Records the outcome of sending a message: after a successful
    /// send, the handles that the message moved are live no longer.
    pub fn sent(&mut self, message: &Message, status: ResultCode)
        ensures
            final(self)@ == after_send(old(self)@, message@, status),
    {
        if status.is_failure() {
            return ;
        }
        let mut i: usize = 0;
        assert(self@ =~= Set::new(
            |h: u32| old(self)@.contains(h) && !message.move_handles@.subrange(0, 0).contains(h),
        ));
        while i < message.move_handles.len()
            invariant
                i <= message.move_handles@.len(),
                self@ == Set::new(
                    |h: u32|
                        old(self)@.contains(h) && !message.move_handles@.subrange(
                            0,
                            i as int,
                        ).contains(h),
                ),
            decreases message.move_handles@.len() - i,
        {
            let gone: u32 = message.move_handles[i];
            let ghost before = self@;
            self.forget(gone);
            proof {
                let prefix = message.move_handles@.subrange(0, i as int);
                let longer = message.move_handles@.subrange(0, i + 1);
                assert forall|h: u32| longer.contains(h) <==> (prefix.contains(h) || h == gone) by {
                    if prefix.contains(h) {
                        let j = choose|j: int| 0 <= j < prefix.len() && prefix[j] == h;
                        assert(longer[j] == h);
                    }
                    if h == gone {
                        assert(longer[i as int] == h);
                    }
                    if longer.contains(h) {
                        let j = choose|j: int| 0 <= j < longer.len() && longer[j] == h;
                        if j < i {
                            assert(prefix[j] == h);
                        }
                    }
                }
                assert(self@ =~= Set::new(
                    |h: u32| old(self)@.contains(h) && !longer.contains(h),
                ));
            }
            i += 1;
        }
        assert(message.move_handles@.subrange(0, i as int) =~= message.move_handles@);
    }
}

/// Decides which calls are made for a closed session.
///
/// A session that asks for nothing gets no call. A session that asks for
/// its handle to be released gets its notice sent and its handle
/// released if the handle is on the account, and the handle is then off
/// the account. A handle that is not on the account, because it was
/// released before or has left with a message, gets no call at all.
pub fn plan_close(ledger: &mut HandleLedger, action: CloseAction) -> (calls: Option<
    (u32, Option<Vec<u8>>),
>)
    ensures
        match action {
            CloseAction::Nothing => calls is None && final(ledger)@ == old(ledger)@,
            CloseAction::Release { handle, notice } => {
                &&& final(ledger)@ == old(ledger)@.remove(handle)
                &&& old(ledger)@.contains(handle) ==> calls == Some((handle, notice))
                &&& !old(ledger)@.contains(handle) ==> calls is None
            },
        },
{
    match action {
        CloseAction::Nothing => None,
        CloseAction::Release { handle, notice } => {
            if ledger.release(handle).is_success() {
                Some((handle, notice))
            } else {
                None
            }
        },
    }
}

/// After a successful send, the release of a handle that the message
/// moved is refused with the invalid-handle status, never answered with
/// success. A handle that the message copied is as live as it was, and a
/// send that failed takes nothing away.
pub proof fn lemma_moved_handle_is_gone(
    live: Set<u32>,
    m: MessageView,
    status: ResultCode,
    handle: u32,
)
    ensures
        status.succeeded() && m.move_handles.contains(handle) ==> release_status(
            after_send(live, m, status),
            handle,
        ) == spec_invalid_handle() && !spec_invalid_handle().succeeded(),
        !m.move_handles.contains(handle) ==> after_send(live, m, status).contains(handle)
            == live.contains(handle),
        !status.succeeded() ==> after_send(live, m, status) == live,
{
}

} // verus!
