//! The client half of a call: packing a request, unpacking the response.
//!
//! The call itself, which carries the message region to the peer and
//! back, is made between the two by whoever owns the transport.

use vstd::prelude::*;
use crate::ipc::codec::{
    decode, decode_spec, encodable, encode, encode_error, encode_spec, lemma_decode_encode,
    lemma_decode_stamped, stamped, with_process_id,
};
use crate::ipc::context::{
    bare_message, kind_of, kinds_of, lemma_pop_all, lemma_pushed_all_extends, lemma_unpack_pack,
    popped, popped_all, pushed_all, seen_all, start, Argument, ArgumentKind, CommandContext,
};
use crate::ipc::message::{Command, Message, MessageView, Protocol};
use crate::ipc::sf::ObjectInfo;
use crate::result::{
    invalid_header, invalid_output, spec_invalid_header, spec_invalid_output, ResultCode,
};

verus! {

/// The request that asks an object for the command `rq_id` with the given
/// arguments.
pub open spec fn request_of(info: ObjectInfo, rq_id: u32, args: Seq<Argument>) -> MessageView {
    pushed_all(bare_message(Command::Request { id: rq_id }, info.domain_object_id), args)
}

/// What a client makes of the bytes of a response: the outputs of the
/// expected types, the failure that the peer reported, or the failure to
/// decode.
pub open spec fn response_of(p: Protocol, bytes: Seq<u8>, kinds: Seq<ArgumentKind>) -> Result<
    Seq<Argument>,
    ResultCode,
> {
    match decode_spec(p, bytes) {
        Err(e) => Err(e),
        Ok(m) => match m.command {
            Command::Response { status } => if !status.succeeded() {
                Err(status)
            } else {
                match popped_all(m, start(), kinds) {
                    Some(outputs) => Ok(outputs),
                    None => Err(spec_invalid_output()),
                }
            },
            _ => Err(spec_invalid_header()),
        },
    }
}

/// Encodes the request `rq_id` with its arguments for an object.
///
/// Succeeds exactly when the protocol can carry the request and it fits
/// the message region; the failure says which of the two did not hold.
pub fn write_request(info: &ObjectInfo, p: Protocol, rq_id: u32, args: &Vec<Argument>) -> (r:
    Result<Vec<u8>, ResultCode>)
    ensures
        r is Ok <==> encodable(p, request_of(*info, rq_id, args@)),
        r matches Ok(bytes) ==> bytes@ == encode_spec(p, request_of(*info, rq_id, args@)),
        r matches Err(e) ==> e == encode_error(p, request_of(*info, rq_id, args@)),
{
    let mut ctx = CommandContext::new_client(info.borrowed(), p, rq_id);
    ctx.push_all(args);
    encode(p, &ctx.message)
}

/// Decodes a response and unpacks the outputs of the expected types.
///
/// A response that reports a failure gives that failure, and no output is
/// read. A message that is no response gives the invalid-header status; a
/// successful response that lacks an expected output gives the
/// invalid-output status.
pub fn read_response(p: Protocol, bytes: &[u8], kinds: &Vec<ArgumentKind>) -> (r: Result<
    Vec<Argument>,
    ResultCode,
>)
    ensures
        match response_of(p, bytes@, kinds@) {
            Ok(outputs) => r matches Ok(v) && v@ == outputs,
            Err(e) => r == Err::<Vec<Argument>, ResultCode>(e),
        },
{
    let message: Message = match decode(p, bytes) {
        Ok(m) => m,
        Err(e) => {
            return Err(e);
        },
    };
    match message.command {
        Command::Response { status } => {
            if status.is_failure() {
                return Err(status);
            }
        },
        _ => {
            return Err(invalid_header());
        },
    }
    let mut ctx = CommandContext::from_message(ObjectInfo::new(), p, message);
    ctx.pop_all(kinds)
}

/// What a client makes of a response from which it expects one output.
pub open spec fn single_response_of(p: Protocol, bytes: Seq<u8>, kind: ArgumentKind) -> Result<
    Argument,
    ResultCode,
> {
    match response_of(p, bytes, seq![kind]) {
        Ok(outputs) => Ok(outputs[0]),
        Err(e) => Err(e),
    }
}

/// What a client makes of a response from which it expects `len` raw
/// payload bytes.
pub open spec fn payload_response_of(p: Protocol, bytes: Seq<u8>, len: int) -> Result<
    Seq<u8>,
    ResultCode,
> {
    match response_of(p, bytes, Seq::<ArgumentKind>::empty()) {
        Err(e) => Err(e),
        Ok(_) => {
            let payload = decode_spec(p, bytes)->Ok_0.payload;
            if 0 <= len <= payload.len() {
                Ok(payload.subrange(0, len))
            } else {
                Err(spec_invalid_output())
            }
        },
    }
}

/// An argument that is unpacked has the type that was asked for.
pub proof fn lemma_popped_kind(m: MessageView, kind: ArgumentKind)
    ensures
        popped_all(m, start(), seq![kind]) matches Some(outputs) ==> outputs.len() == 1 && kind_of(
            outputs[0],
        ) == kind,
{
    let kinds = seq![kind];
    assert(kinds[0] == kind);
    assert(kinds.drop_first() =~= Seq::<ArgumentKind>::empty());
    match popped(m, start(), kind) {
        None => {},
        Some((a, next)) => {
            assert(popped_all(m, next, kinds.drop_first()) == Some(Seq::<Argument>::empty()));
            assert((seq![a] + Seq::<Argument>::empty()).len() == 1);
        },
    }
}

/// Decodes a response from which one output of the given type is
/// expected.
pub fn read_single_response(p: Protocol, bytes: &[u8], kind: ArgumentKind) -> (r: Result<
    Argument,
    ResultCode,
>)
    ensures
        r == single_response_of(p, bytes@, kind),
        r matches Ok(a) ==> kind_of(a) == kind,
{
    let mut kinds: Vec<ArgumentKind> = Vec::new();
    kinds.push(kind);
    assert(kinds@ =~= seq![kind]);
    proof {
        if let Ok(m) = decode_spec(p, bytes@) {
            lemma_popped_kind(m, kind);
        }
    }
    match read_response(p, bytes, &kinds) {
        Ok(outputs) => Ok(outputs[0]),
        Err(e) => Err(e),
    }
}

/// Decodes a response from which no output is expected: the status of
/// the command.
pub fn read_unit_response(p: Protocol, bytes: &[u8]) -> (r: Result<(), ResultCode>)
    ensures
        match response_of(p, bytes@, Seq::<ArgumentKind>::empty()) {
            Ok(_) => r == Ok::<(), ResultCode>(()),
            Err(e) => r == Err::<(), ResultCode>(e),
        },
{
    let kinds: Vec<ArgumentKind> = Vec::new();
    assert(kinds@ =~= Seq::<ArgumentKind>::empty());
    match read_response(p, bytes, &kinds) {
        Ok(outputs) => Ok(()),
        Err(e) => Err(e),
    }
}

/// Decodes a response from which the first `len` bytes of the payload are
/// expected as they are.
pub fn read_payload_response(p: Protocol, bytes: &[u8], len: usize) -> (r: Result<
    Vec<u8>,
    ResultCode,
>)
    ensures
        match payload_response_of(p, bytes@, len as int) {
            Ok(payload) => r matches Ok(v) && v@ == payload,
            Err(e) => r == Err::<Vec<u8>, ResultCode>(e),
        },
{
    let message: Message = match decode(p, bytes) {
        Ok(m) => m,
        Err(e) => {
            return Err(e);
        },
    };
    match message.command {
        Command::Response { status } => {
            if status.is_failure() {
                return Err(status);
            }
        },
        _ => {
            return Err(invalid_header());
        },
    }
    if len > message.payload.len() {
        return Err(invalid_output());
    }
    let payload = vstd::slice::slice_to_vec(
        vstd::slice::slice_subrange(message.payload.as_slice(), 0, len),
    );
    Ok(payload)
}

/// A request arrives as it was sent. The bytes of a request, with the
/// caller's identity filled in on the way, decode to a message that names
/// the same command and the same domain object, and from which the
/// receiver unpacks every scalar, handle and buffer as the sender packed
/// it, and in place of each process id the identity that was filled in.
pub proof fn lemma_request_roundtrip(
    p: Protocol,
    info: ObjectInfo,
    rq_id: u32,
    args: Seq<Argument>,
    tail: Seq<u8>,
    caller: u64,
)
    requires
        encodable(p, request_of(info, rq_id, args)),
    ensures
        decode_spec(p, stamped(encode_spec(p, request_of(info, rq_id, args)) + tail, caller))
            matches Ok(m) && m.command == (Command::Request { id: rq_id }) && m.domain_object_id
            == info.domain_object_id && popped_all(m, start(), kinds_of(args)) == Some(
            seen_all(args, m.process_id),
        ) && (m.process_id is Some ==> m.process_id == Some(caller)),
{
    let bare = bare_message(Command::Request { id: rq_id }, info.domain_object_id);
    let sent = request_of(info, rq_id, args);
    let got = with_process_id(sent, caller);
    lemma_decode_stamped(p, sent, tail, caller);
    lemma_pushed_all_extends(bare, args);
    lemma_pushed_all_extends(sent, Seq::<Argument>::empty());
    assert(got.payload == sent.payload);
    lemma_pop_all(got, bare, args);
}

/// A response arrives as it was sent: when a successful response with the
/// given outputs was encoded, the client reads those outputs back, each
/// as the sender packed it.
pub proof fn lemma_response_roundtrip(p: Protocol, outputs: Seq<Argument>, tail: Seq<u8>)
    requires
        encodable(
            p,
            pushed_all(bare_message(Command::Response { status: ResultCode { value: 0 } }, None), outputs),
        ),
    ensures
        response_of(
            p,
            encode_spec(
                p,
                pushed_all(
                    bare_message(Command::Response { status: ResultCode { value: 0 } }, None),
                    outputs,
                ),
            ) + tail,
            kinds_of(outputs),
        ) == Ok::<Seq<Argument>, ResultCode>(
            seen_all(
                outputs,
                pushed_all(
                    bare_message(Command::Response { status: ResultCode { value: 0 } }, None),
                    outputs,
                ).process_id,
            ),
        ),
{
    let bare = bare_message(Command::Response { status: ResultCode { value: 0 } }, None);
    let sent = pushed_all(bare, outputs);
    lemma_decode_encode(p, sent, tail);
    lemma_pushed_all_extends(bare, outputs);
    lemma_unpack_pack(bare, outputs);
}

/// A failure arrives as it was sent: when the peer reports a failure, the
/// client returns that failure, whatever outputs it expected.
pub proof fn lemma_failure_roundtrip(
    p: Protocol,
    status: ResultCode,
    kinds: Seq<ArgumentKind>,
    tail: Seq<u8>,
)
    requires
        !status.succeeded(),
    ensures
        encodable(p, bare_message(Command::Response { status }, None)),
        response_of(
            p,
            encode_spec(p, bare_message(Command::Response { status }, None)) + tail,
            kinds,
        ) == Err::<Seq<Argument>, ResultCode>(status),
{
    let sent = bare_message(Command::Response { status }, None);
    lemma_decode_encode(p, sent, tail);
}

} // verus!
