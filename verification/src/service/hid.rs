//! Client proxies of the input service.

use vstd::prelude::*;
use crate::ipc::client::{read_unit_response, response_of};
use crate::ipc::command::{CommandFn, CommandMetadata, CommandMetadataTable};
use crate::ipc::context::{Argument, ArgumentKind};
use crate::ipc::server::{IObject, ServerContext};
use crate::ipc::sf::{CopyHandle, InPointerBuffer, ProcessId, Session};
use crate::result::{spec_unsupported_operation, unsupported_operation, ResultCode};
use crate::service::{
    copy_handle_response_of, is_request, is_session_response, receive_copy_handle,
    receive_session, request, IClientObject, INamedService,
};

verus! {

/// The shared memory through which the service publishes input state.
pub struct AppletResource {
    session: Session,
}

impl IObject for AppletResource {
    closed spec fn session_of(&self) -> Session {
        self.session
    }

    open spec fn command_table_of(&self) -> Seq<CommandMetadata> {
        seq![CommandMetadata { rq_id: 1, command_fn: 0, min_ver: None, max_ver: None }]
    }

    open spec fn handled(
        &self,
        command_fn: CommandFn,
        ctx: ServerContext,
        object_after: Self,
        ctx_after: ServerContext,
        r: Result<(), ResultCode>,
    ) -> bool {
        r == Err::<(), ResultCode>(spec_unsupported_operation()) && object_after == *self
            && ctx_after == ctx
    }

    fn get_session(&mut self) -> (session: &mut Session) {
        &mut self.session
    }

    fn get_command_table(&self) -> (table: CommandMetadataTable) {
        let table = vec![CommandMetadata::new(1, 0, None, None)];
        assert(table@ =~= self.command_table_of());
        table
    }

    /// A proxy serves no command itself.
    fn call_self_command(&mut self, command_fn: CommandFn, ctx: &mut ServerContext) -> (r: Result<
        (),
        ResultCode,
    >) {
        Err(unsupported_operation())
    }
}

impl IClientObject for AppletResource {
    fn new(session: Session) -> (object: Self) {
        Self { session }
    }
}

impl AppletResource {
    /// The request for the handle of the shared memory.
    pub fn get_shared_memory_handle_request(&self) -> (r: Result<Vec<u8>, ResultCode>)
        ensures
            is_request(self.session_of(), 0, Seq::<Argument>::empty(), r),
    {
        let args: Vec<Argument> = Vec::new();
        assert(args@ =~= Seq::<Argument>::empty());
        request(&self.session, 0, &args)
    }

    /// The handle of the shared memory that the response brings.
    pub fn get_shared_memory_handle_response(&self, reply: &[u8]) -> (r: Result<
        CopyHandle,
        ResultCode,
    >)
        ensures
            r == copy_handle_response_of(self.session_of(), reply@),
    {
        receive_copy_handle(&self.session, reply)
    }
}

/// The input service.
pub struct HidServer {
    session: Session,
}

impl IObject for HidServer {
    closed spec fn session_of(&self) -> Session {
        self.session
    }

    open spec fn command_table_of(&self) -> Seq<CommandMetadata> {
        seq![
            CommandMetadata { rq_id: 0, command_fn: 0, min_ver: None, max_ver: None },
            CommandMetadata { rq_id: 100, command_fn: 1, min_ver: None, max_ver: None },
            CommandMetadata { rq_id: 102, command_fn: 2, min_ver: None, max_ver: None },
            CommandMetadata { rq_id: 103, command_fn: 3, min_ver: None, max_ver: None },
            CommandMetadata { rq_id: 104, command_fn: 4, min_ver: None, max_ver: None },
            CommandMetadata { rq_id: 123, command_fn: 5, min_ver: None, max_ver: None },
            CommandMetadata { rq_id: 124, command_fn: 6, min_ver: None, max_ver: None },
        ]
    }

    open spec fn handled(
        &self,
        command_fn: CommandFn,
        ctx: ServerContext,
        object_after: Self,
        ctx_after: ServerContext,
        r: Result<(), ResultCode>,
    ) -> bool {
        r == Err::<(), ResultCode>(spec_unsupported_operation()) && object_after == *self
            && ctx_after == ctx
    }

    fn get_session(&mut self) -> (session: &mut Session) {
        &mut self.session
    }

    fn get_command_table(&self) -> (table: CommandMetadataTable) {
        let table = vec![
            CommandMetadata::new(0, 0, None, None),
            CommandMetadata::new(100, 1, None, None),
            CommandMetadata::new(102, 2, None, None),
            CommandMetadata::new(103, 3, None, None),
            CommandMetadata::new(104, 4, None, None),
            CommandMetadata::new(123, 5, None, None),
            CommandMetadata::new(124, 6, None, None),
        ];
        assert(table@ =~= self.command_table_of());
        table
    }

    /// A proxy serves no command itself.
    fn call_self_command(&mut self, command_fn: CommandFn, ctx: &mut ServerContext) -> (r: Result<
        (),
        ResultCode,
    >) {
        Err(unsupported_operation())
    }
}

impl IClientObject for HidServer {
    fn new(session: Session) -> (object: Self) {
        Self { session }
    }
}

impl HidServer {
    /// The request that opens the shared memory for the calling applet.
    pub fn create_applet_resource_request(&self, aruid: ProcessId) -> (r: Result<
        Vec<u8>,
        ResultCode,
    >)
        ensures
            is_request(self.session_of(), 0, seq![Argument::ProcessId(aruid)], r),
    {
        let args = vec![Argument::ProcessId(aruid)];
        assert(args@ =~= seq![Argument::ProcessId(aruid)]);
        request(&self.session, 0, &args)
    }

    /// The shared memory object that the response brings.
    pub fn create_applet_resource_response(&self, reply: &[u8]) -> (r: Result<
        AppletResource,
        ResultCode,
    >)
        ensures
            is_session_response(
                self.session_of(),
                reply@,
                match r {
                    Ok(resource) => Ok(resource.session_of()),
                    Err(e) => Err(e),
                },
            ),
    {
        match receive_session(&self.session, reply) {
            Ok(session) => Ok(AppletResource::new(session)),
            Err(e) => Err(e),
        }
    }

    /// The request that names the controller styles the applet supports.
    pub fn set_supported_npad_style_set_request(&self, aruid: ProcessId, npad_style_tag: u32) -> (r:
        Result<Vec<u8>, ResultCode>)
        ensures
            is_request(
                self.session_of(),
                100,
                seq![Argument::U32(npad_style_tag), Argument::ProcessId(aruid)],
                r,
            ),
    {
        let args = vec![Argument::U32(npad_style_tag), Argument::ProcessId(aruid)];
        assert(args@ =~= seq![Argument::U32(npad_style_tag), Argument::ProcessId(aruid)]);
        request(&self.session, 100, &args)
    }

    /// The request that names the controllers the applet supports.
    pub fn set_supported_npad_id_type_request(
        &self,
        aruid: ProcessId,
        controllers: InPointerBuffer,
    ) -> (r: Result<Vec<u8>, ResultCode>)
        ensures
            is_request(
                self.session_of(),
                102,
                seq![Argument::ProcessId(aruid), Argument::Buffer(controllers.descriptor_of())],
                r,
            ),
    {
        let args = vec![Argument::ProcessId(aruid), Argument::Buffer(controllers.descriptor())];
        assert(args@ =~= seq![
            Argument::ProcessId(aruid),
            Argument::Buffer(controllers.descriptor_of()),
        ]);
        request(&self.session, 102, &args)
    }

    /// The request that switches the controllers on.
    pub fn activate_npad_request(&self, aruid: ProcessId) -> (r: Result<Vec<u8>, ResultCode>)
        ensures
            is_request(self.session_of(), 103, seq![Argument::ProcessId(aruid)], r),
    {
        let args = vec![Argument::ProcessId(aruid)];
        assert(args@ =~= seq![Argument::ProcessId(aruid)]);
        request(&self.session, 103, &args)
    }

    /// The request that switches the controllers off.
    pub fn deactivate_npad_request(&self, aruid: ProcessId) -> (r: Result<Vec<u8>, ResultCode>)
        ensures
            is_request(self.session_of(), 104, seq![Argument::ProcessId(aruid)], r),
    {
        let args = vec![Argument::ProcessId(aruid)];
        assert(args@ =~= seq![Argument::ProcessId(aruid)]);
        request(&self.session, 104, &args)
    }

    /// The request that makes one half of a controller pair a controller
    /// of its own.
    pub fn set_npad_joy_assignment_mode_single_request(
        &self,
        aruid: ProcessId,
        controller: u32,
        joy_type: u32,
    ) -> (r: Result<Vec<u8>, ResultCode>)
        ensures
            is_request(
                self.session_of(),
                123,
                seq![Argument::U32(controller), Argument::ProcessId(aruid), Argument::U32(joy_type)],
                r,
            ),
    {
        let args = vec![
            Argument::U32(controller),
            Argument::ProcessId(aruid),
            Argument::U32(joy_type),
        ];
        assert(args@ =~= seq![
            Argument::U32(controller),
            Argument::ProcessId(aruid),
            Argument::U32(joy_type),
        ]);
        request(&self.session, 123, &args)
    }

    /// The request that joins the two halves of a controller pair.
    pub fn set_npad_joy_assignment_mode_dual_request(&self, aruid: ProcessId, controller: u32) -> (r:
        Result<Vec<u8>, ResultCode>)
        ensures
            is_request(
                self.session_of(),
                124,
                seq![Argument::U32(controller), Argument::ProcessId(aruid)],
                r,
            ),
    {
        let args = vec![Argument::U32(controller), Argument::ProcessId(aruid)];
        assert(args@ =~= seq![Argument::U32(controller), Argument::ProcessId(aruid)]);
        request(&self.session, 124, &args)
    }

    /// The outcome of a command that brings nothing back: its status.
    pub fn status_response(&self, reply: &[u8]) -> (r: Result<(), ResultCode>)
        ensures
            match response_of(self.session_of().protocol_of(), reply@, Seq::<ArgumentKind>::empty()) {
                Ok(_) => r == Ok::<(), ResultCode>(()),
                Err(e) => r == Err::<(), ResultCode>(e),
            },
    {
        read_unit_response(self.session.get_protocol(), reply)
    }
}

impl INamedService for HidServer {
    fn get_name() -> (name: &'static str)
        ensures
            name@ == "hid\0"@,
    {
        "hid\0"
    }

    fn as_domain() -> (b: bool)
        ensures
            !b,
    {
        false
    }

    fn post_initialize(&mut self) -> (r: Result<(), ResultCode>)
        ensures
            r is Ok,
            *final(self) == *old(self),
    {
        Ok(())
    }
}

} // verus!
