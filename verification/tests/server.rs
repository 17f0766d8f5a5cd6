use nx::ipc::client::{read_response, write_request};
use nx::ipc::command::{CommandFn, CommandMetadata, CommandMetadataTable};
use nx::ipc::context::{Argument, ArgumentKind};
use nx::ipc::message::{Command, Message, Protocol};
use nx::ipc::codec::encode;
use nx::ipc::server::{dispatch, read_request, write_response, IObject, ServerContext};
use nx::ipc::sf::{CloseAction, ObjectInfo, Session};
use nx::result::{invalid_header, malformed_message, unknown_command, ResultCode};
use nx::version::Version;

struct Adder {
    session: Session,
    total: u32,
}

impl IObject for Adder {
    fn handled(
        &self,
        _command_fn: CommandFn,
        _ctx: ServerContext,
        _object_after: Self,
        _ctx_after: ServerContext,
        _r: Result<(), ResultCode>,
    ) -> bool {
        true
    }

    fn get_session(&mut self) -> &mut Session {
        &mut self.session
    }

    fn get_command_table(&self) -> CommandMetadataTable {
        vec![
            CommandMetadata::new(5, 0, None, None),
            CommandMetadata::new(6, 1, Some(Version::new(3, 0, 0)), None),
        ]
    }

    fn call_self_command(&mut self, command_fn: CommandFn, ctx: &mut ServerContext) -> Result<(), ResultCode> {
        match command_fn {
            0 => {
                match ctx.request.pop(ArgumentKind::U32)? {
                    Argument::U32(v) => self.total += v,
                    _ => unreachable!(),
                }
                ctx.response.push(Argument::U32(self.total));
                Ok(())
            }
            _ => Err(ResultCode::from_parts(2, 2)),
        }
    }
}

fn serve(object: &mut Adder, p: Protocol, version: Version, request: &[u8]) -> Vec<u8> {
    let (id, mut ctx) = read_request(p, request).unwrap();
    let outcome = dispatch(object, id, version, &mut ctx);
    write_response(p, outcome, ctx).unwrap()
}

#[test]
fn a_call_goes_to_the_handler_and_back() {
    for p in [Protocol::Cmif, Protocol::Tipc] {
        let mut object = Adder { session: Session::new(), total: 40 };
        let info = ObjectInfo::from_handle(1);
        let request = write_request(&info, p, 5, &vec![Argument::U32(2)]).unwrap();
        let reply = serve(&mut object, p, Version::new(1, 0, 0), &request);
        assert_eq!(read_response(p, &reply, &vec![ArgumentKind::U32]), Ok(vec![Argument::U32(42)]));
        assert_eq!(object.total, 42);
    }
}

#[test]
fn an_unsupported_command_is_reported_to_the_client() {
    for p in [Protocol::Cmif, Protocol::Tipc] {
        let mut object = Adder { session: Session::new(), total: 0 };
        let info = ObjectInfo::from_handle(1);
        let request = write_request(&info, p, 6, &vec![]).unwrap();
        let reply = serve(&mut object, p, Version::new(2, 9, 9), &request);
        assert_eq!(read_response(p, &reply, &vec![ArgumentKind::U32]), Err(unknown_command()));
        let reply = serve(&mut object, p, Version::new(3, 0, 0), &request);
        assert_eq!(read_response(p, &reply, &vec![]), Err(ResultCode::from_parts(2, 2)));
        let request = write_request(&info, p, 7, &vec![]).unwrap();
        let reply = serve(&mut object, p, Version::new(3, 0, 0), &request);
        assert_eq!(read_response(p, &reply, &vec![]), Err(unknown_command()));
    }
}

#[test]
fn a_failed_handler_sends_no_output() {
    let mut object = Adder { session: Session::new(), total: 0 };
    let info = ObjectInfo::from_handle(1);
    // The handler of request 5 fails for want of its input after it is dispatched.
    let request = write_request(&info, Protocol::Cmif, 5, &vec![]).unwrap();
    let reply = serve(&mut object, Protocol::Cmif, Version::new(1, 0, 0), &request);
    assert_eq!(
        reply,
        vec![0, 0, 0, 0, 0, 0, 0, 0, 0, 0, 0, 0, 0x53, 0x46, 0x43, 0x4f, 0x0a, 0xd0, 0x01, 0]
    );
}

#[test]
fn only_requests_are_served() {
    for p in [Protocol::Cmif, Protocol::Tipc] {
        let close = Message {
            command: Command::Close,
            domain_object_id: None,
            process_id: None,
            copy_handles: Vec::new(),
            move_handles: Vec::new(),
            buffers: Vec::new(),
            payload: Vec::new(),
        };
        let bytes = encode(p, &close).unwrap();
        assert_eq!(read_request(p, &bytes).err(), Some(invalid_header()));
        assert_eq!(read_request(p, &bytes[..5]).err(), Some(malformed_message()));
    }
}

#[test]
fn the_capability_reaches_the_session() {
    let mut object = Adder { session: Session::from_handle(8), total: 0 };
    assert!(object.is_valid());
    assert_eq!(object.get_info(), ObjectInfo { handle: 8, domain_object_id: None, owns_handle: false });
    object.set_info(ObjectInfo::from_handle(9));
    assert_eq!(object.get_info().handle, 9);
    match object.close_session() {
        CloseAction::Release { handle, .. } => assert_eq!(handle, 9),
        CloseAction::Nothing => panic!("an owning session releases its handle"),
    }
    assert!(!object.is_valid());
    assert_eq!(object.close_session(), CloseAction::Nothing);
    assert_eq!(object.total, 0);
}
