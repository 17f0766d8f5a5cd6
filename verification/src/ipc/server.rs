//! The server half of a call: the capability that every object exposes,
//! and the dispatch of a decoded request to the handler bound to it.

use vstd::prelude::*;
use crate::ipc::codec::{decode, decode_spec, encodable, encode, encode_error, encode_spec};
use crate::ipc::command::{
    find_command, has_match, is_first_match, CommandFn, CommandMetadata, CommandMetadataTable,
};
use crate::ipc::context::{bare_message, start, CommandContext};
use crate::ipc::message::{Command, Message, MessageView, Protocol};
use crate::ipc::sf::{CloseAction, ObjectInfo, Session};
use crate::result::{
    invalid_header, spec_invalid_header, spec_unknown_command, unknown_command, ResultCode,
};
use crate::version::Version;

verus! {

/// The two staging areas of one served call: the request, from which the
/// handler unpacks its inputs, and the response, into which it packs its
/// outputs.
#[derive(Debug, PartialEq, Eq)]
pub struct ServerContext {
    pub request: CommandContext,
    pub response: CommandContext,
}

/// The surface that every client proxy and every server object exposes:
/// its session, its command table, and the invocation of one of its own
/// handlers by name.
pub trait IObject: Sized {
    /// The session of the object. An implementation that is to be
    /// verified says here where it keeps its session.
    open spec fn session_of(&self) -> Session {
        arbitrary()
    }

    /// What the handler named `command_fn` may do when it is invoked on
    /// this object with the context `ctx`: the object and the context it
    /// may leave behind, and the status it may report with them.
    spec fn handled(
        &self,
        command_fn: CommandFn,
        ctx: ServerContext,
        object_after: Self,
        ctx_after: ServerContext,
        r: Result<(), ResultCode>,
    ) -> bool;

    /// The command table of the object. An implementation that is to be
    /// verified says here what its table holds.
    open spec fn command_table_of(&self) -> Seq<CommandMetadata> {
        arbitrary()
    }

    /// The session, for reading and changing in place.
    fn get_session(&mut self) -> (session: &mut Session)
        ensures
            *session == old(self).session_of(),
            final(self).session_of() == *final(session),
    ;

    /// The command table, in declared order.
    fn get_command_table(&self) -> (table: CommandMetadataTable)
        ensures
            table@ == self.command_table_of(),
    ;

    /// Invokes the handler that the object knows under the name
    /// `command_fn`. The handler unpacks its inputs from the request of
    /// `ctx`, may change the object, packs its outputs into the response
    /// of `ctx` and reports a status.
    fn call_self_command(&mut self, command_fn: CommandFn, ctx: &mut ServerContext) -> (r: Result<
        (),
        ResultCode,
    >)
        ensures
            old(self).handled(command_fn, *old(ctx), *final(self), *final(ctx), r),
    ;

    /// A second identity of the object, which does not own the handle.
    fn get_info(&mut self) -> (info: ObjectInfo)
        ensures
            info == (ObjectInfo {
                handle: old(self).session_of().info_of().handle,
                domain_object_id: old(self).session_of().info_of().domain_object_id,
                owns_handle: false,
            }),
            final(self).session_of() == old(self).session_of(),
    {
        self.get_session().info().borrowed()
    }

    /// Replaces the identity of the object.
    fn set_info(&mut self, info: ObjectInfo)
        ensures
            final(self).session_of().info_of() == info,
            final(self).session_of().protocol_of() == old(self).session_of().protocol_of(),
    {
        self.get_session().set_info(info);
    }

    /// Closes the session of the object and says what calls remain to be
    /// made.
    fn close_session(&mut self) -> (action: CloseAction)
        ensures
            final(self).session_of() == old(self).session_of().closed(),
            !old(self).session_of().must_release() ==> action == CloseAction::Nothing,
            old(self).session_of().must_release() ==> old(self).session_of().asks_release(action),
    {
        self.get_session().close()
    }

    /// Whether the object has a valid identity.
    fn is_valid(&mut self) -> (b: bool)
        ensures
            b == old(self).session_of().info_of().valid(),
            final(self).session_of() == old(self).session_of(),
    {
        self.get_session().info().is_valid()
    }
}

/// Serves one request on an object: resolves the request id through the
/// object's command table at the negotiated version and invokes the
/// handler of the first matching entry, once.
///
/// When no entry matches, nothing is invoked, the object and the context
/// stay as they are, and the unknown-command status is returned: the
/// command is unsupported at this version. Otherwise the object, the
/// context and the result are what one invocation of that handler left.
pub fn dispatch<O: IObject>(obj: &mut O, rq_id: u32, ver: Version, ctx: &mut ServerContext) -> (r:
    Result<(), ResultCode>)
    ensures
        !has_match(old(obj).command_table_of(), rq_id, ver) ==> r == Err::<(), ResultCode>(
            spec_unknown_command(),
        ) && *final(obj) == *old(obj) && *final(ctx) == *old(ctx),
        has_match(old(obj).command_table_of(), rq_id, ver) ==> exists|i: int|
            is_first_match(old(obj).command_table_of(), rq_id, ver, i) && old(obj).handled(
                old(obj).command_table_of()[i].command_fn,
                *old(ctx),
                *final(obj),
                *final(ctx),
                r,
            ),
{
    let table = obj.get_command_table();
    match find_command(&table, rq_id, ver) {
        Some(i) => {
            let command_fn: CommandFn = table[i].command_fn;
            obj.call_self_command(command_fn, ctx)
        },
        None => Err(unknown_command()),
    }
}

/// What a server makes of received bytes: the request id and the request,
/// or the failure to decode. A message that is no request is refused
/// with the invalid-header status.
pub open spec fn request_in(p: Protocol, bytes: Seq<u8>) -> Result<(u32, MessageView), ResultCode> {
    match decode_spec(p, bytes) {
        Err(e) => Err(e),
        Ok(m) => match m.command {
            Command::Request { id } => Ok((id, m)),
            _ => Err(spec_invalid_header()),
        },
    }
}

/// The response that reports a handler's outcome: the packed outputs
/// behind the success status, or the failure alone.
pub open spec fn response_out(outcome: Result<(), ResultCode>, packed: MessageView) -> MessageView {
    match outcome {
        Ok(_) => MessageView { command: Command::Response { status: ResultCode { value: 0 } }, ..packed },
        Err(status) => bare_message(Command::Response { status }, None),
    }
}

/// Decodes a request and sets up the context in which it is served: the
/// request, unread, and an empty response.
pub fn read_request(p: Protocol, bytes: &[u8]) -> (r: Result<(u32, ServerContext), ResultCode>)
    ensures
        match request_in(p, bytes@) {
            Ok((id, m)) => r matches Ok((got, ctx)) && got == id && ctx.request.message@ == m
                && ctx.request.cursor() == start() && ctx.request.protocol == p
                && ctx.request.object_info == ObjectInfo::invalid() && ctx.response.protocol == p
                && ctx.response.object_info == ObjectInfo::invalid() && ctx.response.cursor()
                == start() && ctx.response.message@ == bare_message(
                Command::Response { status: ResultCode { value: 0 } },
                None,
            ),
            Err(e) => r matches Err(got) && got == e,
        },
{
    let message: Message = match decode(p, bytes) {
        Ok(m) => m,
        Err(e) => {
            return Err(e);
        },
    };
    let id: u32 = match message.command {
        Command::Request { id } => id,
        _ => {
            return Err(invalid_header());
        },
    };
    let request = CommandContext::from_message(ObjectInfo::new(), p, message);
    let response = CommandContext::new(
        ObjectInfo::new(),
        p,
        Command::Response { status: ResultCode::success() },
    );
    Ok((id, ServerContext { request, response }))
}

/// Encodes the response to a served request: the outputs that the handler
/// packed, if it succeeded; the failure it reported, and no output,
/// otherwise.
pub fn write_response(p: Protocol, outcome: Result<(), ResultCode>, ctx: ServerContext) -> (r:
    Result<Vec<u8>, ResultCode>)
    ensures
        r is Ok <==> encodable(p, response_out(outcome, ctx.response.message@)),
        r matches Ok(bytes) ==> bytes@ == encode_spec(
            p,
            response_out(outcome, ctx.response.message@),
        ),
        r matches Err(e) ==> e == encode_error(p, response_out(outcome, ctx.response.message@)),
{
    let ServerContext { request, response } = ctx;
    match outcome {
        Ok(_) => {
            let mut message = response.message;
            message.command = Command::Response { status: ResultCode::success() };
            encode(p, &message)
        },
        Err(status) => {
            let failure = CommandContext::new(ObjectInfo::new(), p, Command::Response { status });
            encode(p, &failure.message)
        },
    }
}

} // verus!
