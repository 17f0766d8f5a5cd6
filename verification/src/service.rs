//! The interfaces of system services and the client proxies that speak
//! them.
//!
//! A proxy holds no state but its session. For each command it has one
//! function that encodes the request and one that decodes the response;
//! the call that carries the one to the service and brings the other back
//! is made by the owner of the transport.

use vstd::prelude::*;
use crate::ipc::client::{
    read_single_response, request_of, single_response_of, write_request,
};
use crate::ipc::codec::{encodable, encode_error, encode_spec};
use crate::ipc::context::{Argument, ArgumentKind};
use crate::ipc::server::IObject;
use crate::ipc::sf::{CopyHandle, ObjectInfo, Session};
use crate::result::ResultCode;

pub mod fatal;
pub mod hid;
pub mod lm;
pub mod mii;
pub mod pm;
pub mod psm;
pub mod spl;

verus! {

/// A proxy that a client makes from the session of a remote object.
pub trait IClientObject: IObject + Sized {
    /// The proxy of the object behind the session.
    fn new(session: Session) -> (object: Self)
        ensures
            object.session_of() == session,
    ;
}

/// A proxy of a service that is found by its name.
pub trait INamedService: IClientObject {
    /// The name under which the service is registered, with its
    /// terminating zero.
    fn get_name() -> &'static str;

    /// Whether the session of the service is turned into a domain.
    fn as_domain() -> bool;

    /// What is done once, after the session was opened.
    fn post_initialize(&mut self) -> Result<(), ResultCode>;
}

/// Whether `r` is the outcome of encoding the request `rq_id` with the
/// arguments `args` for the object of a session: the bytes of the request
/// in the session's protocol, or the reason why it cannot be sent.
pub open spec fn is_request(
    session: Session,
    rq_id: u32,
    args: Seq<Argument>,
    r: Result<Vec<u8>, ResultCode>,
) -> bool {
    let m = request_of(session.info_of(), rq_id, args);
    let p = session.protocol_of();
    &&& r is Ok <==> encodable(p, m)
    &&& r matches Ok(bytes) ==> bytes@ == encode_spec(p, m)
    &&& r matches Err(e) ==> e == encode_error(p, m)
}

/// Whether `r` is what a client makes of a response that brings a new
/// object: the owning session of the handle that the response moves, in
/// the protocol of the session that asked, or the failure.
pub open spec fn is_session_response(
    parent: Session,
    reply: Seq<u8>,
    r: Result<Session, ResultCode>,
) -> bool {
    match single_response_of(parent.protocol_of(), reply, ArgumentKind::MoveHandle) {
        Ok(a) => {
            let info = ObjectInfo {
                handle: a->MoveHandle_0.handle,
                domain_object_id: None,
                owns_handle: true,
            };
            &&& r matches Ok(session)
            &&& session == Session::of(info, parent.protocol_of())
            &&& session.info_of() == info
            &&& session.protocol_of() == parent.protocol_of()
        },
        Err(e) => r matches Err(got) && got == e,
    }
}

/// Encodes a request for the object of a session.
pub fn request(session: &Session, rq_id: u32, args: &Vec<Argument>) -> (r: Result<
    Vec<u8>,
    ResultCode,
>)
    ensures
        is_request(*session, rq_id, args@, r),
{
    write_request(session.info(), session.get_protocol(), rq_id, args)
}

/// Decodes a response that brings a new object, and opens the session
/// that owns it.
pub fn receive_session(parent: &Session, reply: &[u8]) -> (r: Result<Session, ResultCode>)
    ensures
        is_session_response(*parent, reply@, r),
{
    match read_single_response(parent.get_protocol(), reply, ArgumentKind::MoveHandle) {
        Ok(a) => match a {
            Argument::MoveHandle(h) => Ok(
                Session::with_protocol(ObjectInfo::from_handle(h.handle), parent.get_protocol()),
            ),
            _ => {
                assert(false);
                Err(ResultCode::success())
            },
        },
        Err(e) => Err(e),
    }
}

/// What a client makes of a response that brings one 32-bit value.
pub open spec fn u32_response_of(session: Session, reply: Seq<u8>) -> Result<u32, ResultCode> {
    match single_response_of(session.protocol_of(), reply, ArgumentKind::U32) {
        Ok(a) => Ok(a->U32_0),
        Err(e) => Err(e),
    }
}

/// What a client makes of a response that brings one truth value.
pub open spec fn bool_response_of(session: Session, reply: Seq<u8>) -> Result<bool, ResultCode> {
    match single_response_of(session.protocol_of(), reply, ArgumentKind::Bool) {
        Ok(a) => Ok(a->Bool_0),
        Err(e) => Err(e),
    }
}

/// What a client makes of a response that brings one duplicated handle.
pub open spec fn copy_handle_response_of(session: Session, reply: Seq<u8>) -> Result<
    CopyHandle,
    ResultCode,
> {
    match single_response_of(session.protocol_of(), reply, ArgumentKind::CopyHandle) {
        Ok(a) => Ok(a->CopyHandle_0),
        Err(e) => Err(e),
    }
}

/// Decodes a response that brings one 32-bit value.
pub fn receive_u32(session: &Session, reply: &[u8]) -> (r: Result<u32, ResultCode>)
    ensures
        r == u32_response_of(*session, reply@),
{
    match read_single_response(session.get_protocol(), reply, ArgumentKind::U32) {
        Ok(a) => match a {
            Argument::U32(v) => Ok(v),
            _ => {
                assert(false);
                Err(ResultCode::success())
            },
        },
        Err(e) => Err(e),
    }
}

/// Decodes a response that brings one truth value.
pub fn receive_bool(session: &Session, reply: &[u8]) -> (r: Result<bool, ResultCode>)
    ensures
        r == bool_response_of(*session, reply@),
{
    match read_single_response(session.get_protocol(), reply, ArgumentKind::Bool) {
        Ok(a) => match a {
            Argument::Bool(v) => Ok(v),
            _ => {
                assert(false);
                Err(ResultCode::success())
            },
        },
        Err(e) => Err(e),
    }
}

/// Decodes a response that brings one duplicated handle.
pub fn receive_copy_handle(session: &Session, reply: &[u8]) -> (r: Result<CopyHandle, ResultCode>)
    ensures
        r == copy_handle_response_of(*session, reply@),
{
    match read_single_response(session.get_protocol(), reply, ArgumentKind::CopyHandle) {
        Ok(a) => match a {
            Argument::CopyHandle(h) => Ok(h),
            _ => {
                assert(false);
                Err(ResultCode::success())
            },
        },
        Err(e) => Err(e),
    }
}

} // verus!
