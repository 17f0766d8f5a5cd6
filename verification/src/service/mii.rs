//! Client proxies of the profile database service.

use vstd::prelude::*;
use crate::ipc::client::{payload_response_of, read_payload_response};
use crate::ipc::command::{CommandFn, CommandMetadata, CommandMetadataTable};
use crate::ipc::context::Argument;
use crate::ipc::server::{IObject, ServerContext};
use crate::ipc::sf::{OutMapAliasBuffer, Session};
use crate::result::{spec_unsupported_operation, unsupported_operation, ResultCode};
use crate::service::{
    bool_response_of, is_request, is_session_response, receive_bool, receive_session,
    receive_u32, request, u32_response_of, IClientObject, INamedService,
};

verus! {

/// Size in bytes of one profile record.
pub const CHAR_INFO_SIZE: usize = 0x58;

/// One profile record, as the service lays it out.
#[derive(Debug, PartialEq, Eq)]
pub struct CharInfo {
    pub data: Vec<u8>,
}

/// The profile database.
pub struct DatabaseService {
    session: Session,
}

impl IObject for DatabaseService {
    closed spec fn session_of(&self) -> Session {
        self.session
    }

    open spec fn command_table_of(&self) -> Seq<CommandMetadata> {
        seq![
            CommandMetadata { rq_id: 0, command_fn: 0, min_ver: None, max_ver: None },
            CommandMetadata { rq_id: 1, command_fn: 1, min_ver: None, max_ver: None },
            CommandMetadata { rq_id: 2, command_fn: 2, min_ver: None, max_ver: None },
            CommandMetadata { rq_id: 4, command_fn: 3, min_ver: None, max_ver: None },
            CommandMetadata { rq_id: 6, command_fn: 4, min_ver: None, max_ver: None },
        ]
    }

    open spec fn handled(
        &self,
        command_fn: CommandFn,
        ctx: ServerContext,
        object_after: Self,
        ctx_after: ServerContext,
        r: Result<(), ResultCode>,
    ) -> bool {
        r == Err::<(), ResultCode>(spec_unsupported_operation()) && object_after == *self
            && ctx_after == ctx
    }

    fn get_session(&mut self) -> (session: &mut Session) {
        &mut self.session
    }

    fn get_command_table(&self) -> (table: CommandMetadataTable) {
        let table = vec![
            CommandMetadata::new(0, 0, None, None),
            CommandMetadata::new(1, 1, None, None),
            CommandMetadata::new(2, 2, None, None),
            CommandMetadata::new(4, 3, None, None),
            CommandMetadata::new(6, 4, None, None),
        ];
        assert(table@ =~= self.command_table_of());
        table
    }

    /// A proxy serves no command itself.
    fn call_self_command(&mut self, command_fn: CommandFn, ctx: &mut ServerContext) -> (r: Result<
        (),
        ResultCode,
    >) {
        Err(unsupported_operation())
    }
}

impl IClientObject for DatabaseService {
    fn new(session: Session) -> (object: Self) {
        Self { session: session }
    }
}

impl DatabaseService {
    /// The request that asks whether the database has changed.
    pub fn is_updated_request(&self, flag: u32) -> (r: Result<Vec<u8>, ResultCode>)
        ensures
            is_request(self.session_of(), 0, seq![Argument::U32(flag)], r),
    {
        let args = vec![Argument::U32(flag)];
        assert(args@ =~= seq![Argument::U32(flag)]);
        request(&self.session, 0, &args)
    }

    /// The request that asks whether the database is full.
    pub fn is_full_request(&self) -> (r: Result<Vec<u8>, ResultCode>)
        ensures
            is_request(self.session_of(), 1, Seq::<Argument>::empty(), r),
    {
        let args: Vec<Argument> = Vec::new();
        assert(args@ =~= Seq::<Argument>::empty());
        request(&self.session, 1, &args)
    }

    /// The answer to either question.
    pub fn flag_response(&self, reply: &[u8]) -> (r: Result<bool, ResultCode>)
        ensures
            r == bool_response_of(self.session_of(), reply@),
    {
        receive_bool(&self.session, reply)
    }

    /// The request that counts the records.
    pub fn get_count_request(&self, flag: u32) -> (r: Result<Vec<u8>, ResultCode>)
        ensures
            is_request(self.session_of(), 2, seq![Argument::U32(flag)], r),
    {
        let args = vec![Argument::U32(flag)];
        assert(args@ =~= seq![Argument::U32(flag)]);
        request(&self.session, 2, &args)
    }

    /// The request that reads records into a buffer.
    pub fn get_1_request(&self, flag: u32, out_char_infos: OutMapAliasBuffer) -> (r: Result<
        Vec<u8>,
        ResultCode,
    >)
        ensures
            is_request(
                self.session_of(),
                4,
                seq![Argument::U32(flag), Argument::Buffer(out_char_infos.descriptor_of())],
                r,
            ),
    {
        let args = vec![Argument::U32(flag), Argument::Buffer(out_char_infos.descriptor())];
        assert(args@ =~= seq![
            Argument::U32(flag),
            Argument::Buffer(out_char_infos.descriptor_of()),
        ]);
        request(&self.session, 4, &args)
    }

    /// The number of records that the response brings.
    pub fn count_response(&self, reply: &[u8]) -> (r: Result<u32, ResultCode>)
        ensures
            r == u32_response_of(self.session_of(), reply@),
    {
        receive_u32(&self.session, reply)
    }

    /// The request that builds a random record.
    pub fn build_random_request(&self, age: u32, gender: u32, face_color: u32) -> (r: Result<
        Vec<u8>,
        ResultCode,
    >)
        ensures
            is_request(
                self.session_of(),
                6,
                seq![Argument::U32(age), Argument::U32(gender), Argument::U32(face_color)],
                r,
            ),
    {
        let args = vec![Argument::U32(age), Argument::U32(gender), Argument::U32(face_color)];
        assert(args@ =~= seq![
            Argument::U32(age),
            Argument::U32(gender),
            Argument::U32(face_color),
        ]);
        request(&self.session, 6, &args)
    }

    /// The record that the response brings.
    pub fn build_random_response(&self, reply: &[u8]) -> (r: Result<CharInfo, ResultCode>)
        ensures
            match payload_response_of(self.session_of().protocol_of(), reply@, 0x58) {
                Ok(payload) => r matches Ok(info) && info.data@ == payload,
                Err(e) => r matches Err(got) && got == e,
            },
    {
        match read_payload_response(self.session.get_protocol(), reply, CHAR_INFO_SIZE) {
            Ok(data) => Ok(CharInfo { data }),
            Err(e) => Err(e),
        }
    }
}

/// The entry point of the profile database service.
pub struct StaticService {
    session: Session,
}

impl IObject for StaticService {
    closed spec fn session_of(&self) -> Session {
        self.session
    }

    open spec fn command_table_of(&self) -> Seq<CommandMetadata> {
        seq![CommandMetadata { rq_id: 0, command_fn: 0, min_ver: None, max_ver: None }]
    }

    open spec fn handled(
        &self,
        command_fn: CommandFn,
        ctx: ServerContext,
        object_after: Self,
        ctx_after: ServerContext,
        r: Result<(), ResultCode>,
    ) -> bool {
        r == Err::<(), ResultCode>(spec_unsupported_operation()) && object_after == *self
            && ctx_after == ctx
    }

    fn get_session(&mut self) -> (session: &mut Session) {
        &mut self.session
    }

    fn get_command_table(&self) -> (table: CommandMetadataTable) {
        let table = vec![CommandMetadata::new(0, 0, None, None)];
        assert(table@ =~= self.command_table_of());
        table
    }

    /// A proxy serves no command itself.
    fn call_self_command(&mut self, command_fn: CommandFn, ctx: &mut ServerContext) -> (r: Result<
        (),
        ResultCode,
    >) {
        Err(unsupported_operation())
    }
}

impl IClientObject for StaticService {
    fn new(session: Session) -> (object: Self) {
        Self { session: session }
    }
}

impl StaticService {
    /// The request that opens the database.
    pub fn get_database_service_request(&self, key_code: u32) -> (r: Result<Vec<u8>, ResultCode>)
        ensures
            is_request(self.session_of(), 0, seq![Argument::U32(key_code)], r),
    {
        let args = vec![Argument::U32(key_code)];
        assert(args@ =~= seq![Argument::U32(key_code)]);
        request(&self.session, 0, &args)
    }

    /// The database that the response brings.
    pub fn get_database_service_response(&self, reply: &[u8]) -> (r: Result<
        DatabaseService,
        ResultCode,
    >)
        ensures
            is_session_response(
                self.session_of(),
                reply@,
                match r {
                    Ok(database) => Ok(database.session_of()),
                    Err(e) => Err(e),
                },
            ),
    {
        match receive_session(&self.session, reply) {
            Ok(session) => Ok(DatabaseService::new(session)),
            Err(e) => Err(e),
        }
    }
}

impl INamedService for StaticService {
    fn get_name() -> (name: &'static str)
        ensures
            name@ == "mii:e\0"@,
    {
        "mii:e\0"
    }

    fn as_domain() -> (b: bool)
        ensures
            !b,
    {
        false
    }

    fn post_initialize(&mut self) -> (r: Result<(), ResultCode>)
        ensures
            r is Ok,
            *final(self) == *old(self),
    {
        Ok(())
    }
}

} // verus!
