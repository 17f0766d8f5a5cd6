//! Client proxies of the log service.

use vstd::prelude::*;
use crate::ipc::client::{read_unit_response, response_of};
use crate::ipc::command::{CommandFn, CommandMetadata, CommandMetadataTable};
use crate::ipc::context::{Argument, ArgumentKind};
use crate::ipc::server::{IObject, ServerContext};
use crate::ipc::sf::{InAutoSelectBuffer, ProcessId, Session};
use crate::result::{spec_unsupported_operation, unsupported_operation, ResultCode};
use crate::service::{
    is_request, is_session_response, receive_session, request, IClientObject, INamedService,
};

verus! {

/// A logger of one process.
pub struct Logger {
    session: Session,
}

impl IObject for Logger {
    closed spec fn session_of(&self) -> Session {
        self.session
    }

    open spec fn command_table_of(&self) -> Seq<CommandMetadata> {
        seq![
            CommandMetadata { rq_id: 0, command_fn: 0, min_ver: None, max_ver: None },
            CommandMetadata { rq_id: 1, command_fn: 1, min_ver: None, max_ver: None },
        ]
    }

    open spec fn handled(
        &self,
        command_fn: CommandFn,
        ctx: ServerContext,
        object_after: Self,
        ctx_after: ServerContext,
        r: Result<(), ResultCode>,
    ) -> bool {
        r == Err::<(), ResultCode>(spec_unsupported_operation()) && object_after == *self
            && ctx_after == ctx
    }

    fn get_session(&mut self) -> (session: &mut Session) {
        &mut self.session
    }

    fn get_command_table(&self) -> (table: CommandMetadataTable) {
        let table = vec![
            CommandMetadata::new(0, 0, None, None),
            CommandMetadata::new(1, 1, None, None),
        ];
        assert(table@ =~= self.command_table_of());
        table
    }

    /// A proxy serves no command itself.
    fn call_self_command(&mut self, command_fn: CommandFn, ctx: &mut ServerContext) -> (r: Result<
        (),
        ResultCode,
    >) {
        Err(unsupported_operation())
    }
}

impl IClientObject for Logger {
    fn new(session: Session) -> (object: Self) {
        Self { session }
    }
}

impl Logger {
    /// The request that logs the record held in a buffer.
    pub fn log_request(&self, log_buf: InAutoSelectBuffer) -> (r: Result<Vec<u8>, ResultCode>)
        ensures
            is_request(self.session_of(), 0, seq![Argument::Buffer(log_buf.descriptor_of())], r),
    {
        let args = vec![Argument::Buffer(log_buf.descriptor())];
        assert(args@ =~= seq![Argument::Buffer(log_buf.descriptor_of())]);
        request(&self.session, 0, &args)
    }

    /// The request that sets where the records go.
    pub fn set_destination_request(&self, log_destination: u32) -> (r: Result<Vec<u8>, ResultCode>)
        ensures
            is_request(self.session_of(), 1, seq![Argument::U32(log_destination)], r),
    {
        let args = vec![Argument::U32(log_destination)];
        assert(args@ =~= seq![Argument::U32(log_destination)]);
        request(&self.session, 1, &args)
    }

    /// The outcome of either command: its status.
    pub fn status_response(&self, reply: &[u8]) -> (r: Result<(), ResultCode>)
        ensures
            match response_of(self.session_of().protocol_of(), reply@, Seq::<ArgumentKind>::empty()) {
                Ok(_) => r == Ok::<(), ResultCode>(()),
                Err(e) => r == Err::<(), ResultCode>(e),
            },
    {
        read_unit_response(self.session.get_protocol(), reply)
    }
}

/// The log service.
pub struct LogService {
    session: Session,
}

impl IObject for LogService {
    closed spec fn session_of(&self) -> Session {
        self.session
    }

    open spec fn command_table_of(&self) -> Seq<CommandMetadata> {
        seq![CommandMetadata { rq_id: 0, command_fn: 0, min_ver: None, max_ver: None }]
    }

    open spec fn handled(
        &self,
        command_fn: CommandFn,
        ctx: ServerContext,
        object_after: Self,
        ctx_after: ServerContext,
        r: Result<(), ResultCode>,
    ) -> bool {
        r == Err::<(), ResultCode>(spec_unsupported_operation()) && object_after == *self
            && ctx_after == ctx
    }

    fn get_session(&mut self) -> (session: &mut Session) {
        &mut self.session
    }

    fn get_command_table(&self) -> (table: CommandMetadataTable) {
        let table = vec![CommandMetadata::new(0, 0, None, None)];
        assert(table@ =~= self.command_table_of());
        table
    }

    /// A proxy serves no command itself.
    fn call_self_command(&mut self, command_fn: CommandFn, ctx: &mut ServerContext) -> (r: Result<
        (),
        ResultCode,
    >) {
        Err(unsupported_operation())
    }
}

impl IClientObject for LogService {
    fn new(session: Session) -> (object: Self) {
        Self { session }
    }
}

impl LogService {
    /// The request that opens a logger for the calling process.
    pub fn open_logger_request(&self, process_id: ProcessId) -> (r: Result<Vec<u8>, ResultCode>)
        ensures
            is_request(self.session_of(), 0, seq![Argument::ProcessId(process_id)], r),
    {
        let args = vec![Argument::ProcessId(process_id)];
        assert(args@ =~= seq![Argument::ProcessId(process_id)]);
        request(&self.session, 0, &args)
    }

    /// The logger that the response brings.
    pub fn open_logger_response(&self, reply: &[u8]) -> (r: Result<Logger, ResultCode>)
        ensures
            is_session_response(
                self.session_of(),
                reply@,
                match r {
                    Ok(logger) => Ok(logger.session_of()),
                    Err(e) => Err(e),
                },
            ),
    {
        match receive_session(&self.session, reply) {
            Ok(session) => Ok(Logger::new(session)),
            Err(e) => Err(e),
        }
    }
}

impl INamedService for LogService {
    fn get_name() -> (name: &'static str)
        ensures
            name@ == "lm\0"@,
    {
        "lm\0"
    }

    fn as_domain() -> (b: bool)
        ensures
            !b,
    {
        false
    }

    fn post_initialize(&mut self) -> (r: Result<(), ResultCode>)
        ensures
            r is Ok,
            *final(self) == *old(self),
    {
        Ok(())
    }
}

} // verus!
