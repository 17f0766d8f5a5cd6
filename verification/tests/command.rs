use nx::ipc::command::{find_command, find_overlap, resolve, CommandFn, CommandMetadata, CommandMetadataTable};
use nx::ipc::context::{Argument, ArgumentKind, CommandContext};
use nx::ipc::message::{Command, Protocol};
use nx::ipc::server::{dispatch, IObject, ServerContext};
use nx::ipc::sf::{ObjectInfo, Session};
use nx::result::{unknown_command, ResultCode};
use nx::version::Version;

struct Counter {
    session: Session,
    calls: Vec<CommandFn>,
}

impl IObject for Counter {
    fn handled(
        &self,
        _command_fn: CommandFn,
        _ctx: ServerContext,
        _object_after: Self,
        _ctx_after: ServerContext,
        _r: Result<(), ResultCode>,
    ) -> bool {
        true
    }

    fn get_session(&mut self) -> &mut Session {
        &mut self.session
    }

    fn get_command_table(&self) -> CommandMetadataTable {
        vec![
            CommandMetadata::new(0, 10, None, None),
            CommandMetadata::new(1, 11, Some(Version::new(2, 0, 0)), Some(Version::new(4, 0, 0))),
            CommandMetadata::new(2, 12, None, None),
        ]
    }

    fn call_self_command(&mut self, command_fn: CommandFn, ctx: &mut ServerContext) -> Result<(), ResultCode> {
        self.calls.push(command_fn);
        ctx.response.push(Argument::U32(command_fn));
        Ok(())
    }
}

fn context() -> ServerContext {
    ServerContext {
        request: CommandContext::new(ObjectInfo::new(), Protocol::Cmif, Command::Request { id: 1 }),
        response: CommandContext::new(
            ObjectInfo::new(),
            Protocol::Cmif,
            Command::Response { status: ResultCode::success() },
        ),
    }
}

#[test]
fn dispatch_below_the_version_range_finds_no_match() {
    let mut object = Counter { session: Session::new(), calls: Vec::new() };
    let mut ctx = context();
    let outcome = dispatch(&mut object, 1, Version::new(1, 0, 0), &mut ctx);
    assert_eq!(outcome, Err(unknown_command()));
    assert!(object.calls.is_empty());
    assert_eq!(ctx, context());
}

#[test]
fn dispatch_inside_the_version_range_invokes_the_handler_once() {
    let mut object = Counter { session: Session::new(), calls: Vec::new() };
    let mut ctx = context();
    let outcome = dispatch(&mut object, 1, Version::new(3, 0, 0), &mut ctx);
    assert_eq!(outcome, Ok(()));
    assert_eq!(object.calls, vec![11]);
    assert_eq!(ctx.response.pop(ArgumentKind::U32), Ok(Argument::U32(11)));
}

#[test]
fn the_first_matching_entry_wins() {
    let table = vec![
        CommandMetadata::new(7, 1, Some(Version::new(5, 0, 0)), None),
        CommandMetadata::new(7, 2, None, None),
        CommandMetadata::new(7, 3, None, None),
    ];
    assert_eq!(find_command(&table, 7, Version::new(4, 9, 9)), Some(1));
    assert_eq!(find_command(&table, 7, Version::new(5, 0, 0)), Some(0));
    assert_eq!(find_command(&table, 8, Version::new(5, 0, 0)), None);
    assert_eq!(resolve(&table, 7, Version::new(1, 0, 0)), Ok(2));
    assert_eq!(resolve(&table, 9, Version::new(1, 0, 0)), Err(unknown_command()));
    assert!(find_overlap(&table));
}
