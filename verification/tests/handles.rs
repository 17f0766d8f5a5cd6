use nx::ipc::handles::{plan_close, HandleLedger};
use nx::ipc::message::{Command, Message};
use nx::ipc::sf::{CloseAction, Session};
use nx::result::{invalid_handle, ResultCode};

fn sending(copy_handles: Vec<u32>, move_handles: Vec<u32>) -> Message {
    Message {
        command: Command::Request { id: 1 },
        domain_object_id: None,
        process_id: None,
        copy_handles,
        move_handles,
        buffers: Vec::new(),
        payload: Vec::new(),
    }
}

#[test]
fn a_moved_handle_cannot_be_closed_by_the_sender() {
    let mut ledger = HandleLedger::new();
    ledger.acquire(10);
    ledger.acquire(20);
    ledger.sent(&sending(vec![10], vec![20]), ResultCode::success());
    assert_eq!(ledger.release(20), invalid_handle());
    assert!(ledger.release(20).is_failure());
    assert!(ledger.is_live(10));
    assert_eq!(ledger.release(10), ResultCode::success());
}

#[test]
fn a_failed_send_moves_nothing() {
    let mut ledger = HandleLedger::new();
    ledger.acquire(20);
    ledger.sent(&sending(vec![], vec![20]), ResultCode::from_parts(1, 114));
    assert!(ledger.is_live(20));
    assert_eq!(ledger.release(20), ResultCode::success());
}

#[test]
fn a_handle_is_released_once() {
    let mut ledger = HandleLedger::new();
    assert_eq!(ledger.release(5), invalid_handle());
    ledger.acquire(5);
    ledger.acquire(5);
    assert!(ledger.is_live(5));
    assert_eq!(ledger.release(5), ResultCode::success());
    assert!(!ledger.is_live(5));
    assert_eq!(ledger.release(5), invalid_handle());
}

#[test]
fn every_moved_handle_leaves() {
    let mut ledger = HandleLedger::new();
    for h in 1..=6 {
        ledger.acquire(h);
    }
    ledger.sent(&sending(vec![1, 2], vec![3, 5, 3]), ResultCode::success());
    assert_eq!(
        (1..=6).map(|h| ledger.is_live(h)).collect::<Vec<bool>>(),
        vec![true, true, false, true, false, true]
    );
}

#[test]
fn a_close_is_carried_out_once_for_a_handle_on_the_account() {
    let mut ledger = HandleLedger::new();
    ledger.acquire(7);
    let mut session = Session::from_handle(7);
    let action = session.close();
    let calls = plan_close(&mut ledger, action);
    assert_eq!(calls, Some((7, Some(vec![2, 0, 0, 0, 0, 0, 0, 0, 0, 0, 0, 0]))));
    assert!(!ledger.is_live(7));
    assert_eq!(plan_close(&mut ledger, session.close()), None);
    let again = CloseAction::Release { handle: 7, notice: Some(vec![1]) };
    assert_eq!(plan_close(&mut ledger, again), None);
}

#[test]
fn a_close_makes_no_call_for_a_handle_that_has_left() {
    let mut ledger = HandleLedger::new();
    ledger.acquire(7);
    ledger.acquire(8);
    ledger.sent(&sending(vec![], vec![7]), ResultCode::success());
    let mut session = Session::from_handle(7);
    assert_eq!(plan_close(&mut ledger, session.close()), None);
    assert!(ledger.is_live(8));
    assert_eq!(plan_close(&mut ledger, CloseAction::Nothing), None);
    assert!(ledger.is_live(8));
    let other = CloseAction::Release { handle: 8, notice: None };
    assert_eq!(plan_close(&mut ledger, other), Some((8, None)));
    assert!(!ledger.is_live(8));
}
