use nx::ipc::context::{Argument, ArgumentKind, CommandContext};
use nx::ipc::message::{BufferDescriptor, Command, Protocol};
use nx::ipc::sf::{CopyHandle, MoveHandle, ObjectInfo, ProcessId};
use nx::result::invalid_output;

fn fresh() -> CommandContext {
    CommandContext::new_client(ObjectInfo::from_domain_object_id(1, 6), Protocol::Cmif, 9)
}

#[test]
fn a_new_context_holds_the_command_and_the_object() {
    let ctx = fresh();
    assert_eq!(ctx.message.command, Command::Request { id: 9 });
    assert_eq!(ctx.message.domain_object_id, Some(6));
    assert_eq!(ctx.message.process_id, None);
    assert!(ctx.message.payload.is_empty());
    assert!(ctx.message.copy_handles.is_empty());
    assert_eq!(ctx.protocol, Protocol::Cmif);
    assert_eq!((ctx.data_cursor, ctx.copy_cursor, ctx.move_cursor, ctx.buffer_cursor), (0, 0, 0, 0));
}

#[test]
fn scalars_are_aligned_to_their_own_size() {
    let mut ctx = fresh();
    ctx.push(Argument::U8(1));
    assert_eq!(ctx.message.payload, vec![1]);
    ctx.push(Argument::U16(0x0302));
    assert_eq!(ctx.message.payload, vec![1, 0, 2, 3]);
    ctx.push(Argument::U8(4));
    ctx.push(Argument::U32(0x0807_0605));
    assert_eq!(ctx.message.payload, vec![1, 0, 2, 3, 4, 0, 0, 0, 5, 6, 7, 8]);
    ctx.push(Argument::U64(0x100f_0e0d_0c0b_0a09));
    assert_eq!(
        ctx.message.payload,
        vec![1, 0, 2, 3, 4, 0, 0, 0, 5, 6, 7, 8, 0, 0, 0, 0, 9, 10, 11, 12, 13, 14, 15, 16]
    );
    ctx.push(Argument::Bool(true));
    ctx.push(Argument::Bool(false));
    assert_eq!(&ctx.message.payload[24..], &[1, 0]);

    let kinds = vec![
        ArgumentKind::U8,
        ArgumentKind::U16,
        ArgumentKind::U8,
        ArgumentKind::U32,
        ArgumentKind::U64,
        ArgumentKind::Bool,
        ArgumentKind::Bool,
    ];
    assert_eq!(
        ctx.pop_all(&kinds),
        Ok(vec![
            Argument::U8(1),
            Argument::U16(0x0302),
            Argument::U8(4),
            Argument::U32(0x0807_0605),
            Argument::U64(0x100f_0e0d_0c0b_0a09),
            Argument::Bool(true),
            Argument::Bool(false),
        ])
    );
    assert_eq!(ctx.data_cursor, 26);
}

#[test]
fn attachments_go_to_their_own_sections() {
    let mut ctx = fresh();
    let d = BufferDescriptor { attribute: 5, address: 16, size: 32 };
    ctx.push_all(&vec![
        Argument::CopyHandle(CopyHandle::from(1)),
        Argument::MoveHandle(MoveHandle::from(2)),
        Argument::CopyHandle(CopyHandle::from(3)),
        Argument::Buffer(d),
        Argument::ProcessId(ProcessId::from(4)),
    ]);
    assert!(ctx.message.payload.is_empty());
    assert_eq!(ctx.message.copy_handles, vec![1, 3]);
    assert_eq!(ctx.message.move_handles, vec![2]);
    assert_eq!(ctx.message.buffers, vec![d]);
    assert_eq!(ctx.message.process_id, Some(4));
    assert_eq!(ctx.pop(ArgumentKind::CopyHandle), Ok(Argument::CopyHandle(CopyHandle::from(1))));
    assert_eq!(ctx.pop(ArgumentKind::CopyHandle), Ok(Argument::CopyHandle(CopyHandle::from(3))));
    assert_eq!(ctx.pop(ArgumentKind::CopyHandle), Err(invalid_output()));
    assert_eq!(ctx.pop(ArgumentKind::MoveHandle), Ok(Argument::MoveHandle(MoveHandle::from(2))));
    assert_eq!(ctx.pop(ArgumentKind::MoveHandle), Err(invalid_output()));
    assert_eq!(ctx.pop(ArgumentKind::Buffer), Ok(Argument::Buffer(d)));
    assert_eq!(ctx.pop(ArgumentKind::Buffer), Err(invalid_output()));
    assert_eq!(ctx.pop(ArgumentKind::ProcessId), Ok(Argument::ProcessId(ProcessId::from(4))));
    assert_eq!(ctx.pop(ArgumentKind::ProcessId), Ok(Argument::ProcessId(ProcessId::from(4))));
    assert_eq!((ctx.copy_cursor, ctx.move_cursor, ctx.buffer_cursor), (2, 1, 1));
}

#[test]
fn a_missing_argument_leaves_the_cursor_where_it_was() {
    let mut ctx = fresh();
    ctx.push(Argument::U8(1));
    ctx.push(Argument::U8(2));
    assert_eq!(ctx.pop(ArgumentKind::U8), Ok(Argument::U8(1)));
    assert_eq!(ctx.pop(ArgumentKind::U32), Err(invalid_output()));
    assert_eq!(ctx.pop(ArgumentKind::U16), Err(invalid_output()));
    assert_eq!(ctx.pop(ArgumentKind::ProcessId), Err(invalid_output()));
    assert_eq!(ctx.data_cursor, 1);
    assert_eq!(ctx.pop(ArgumentKind::Bool), Ok(Argument::Bool(true)));
    assert_eq!(ctx.pop(ArgumentKind::U8), Err(invalid_output()));
    assert_eq!(ctx.data_cursor, 2);
    ctx.data_cursor = 100;
    assert_eq!(ctx.pop(ArgumentKind::U8), Err(invalid_output()));
    assert_eq!(ctx.data_cursor, 100);
}

#[test]
fn a_list_with_a_missing_argument_is_refused_as_a_whole() {
    let mut ctx = fresh();
    ctx.push_all(&vec![Argument::U32(1), Argument::U32(2)]);
    assert_eq!(
        ctx.pop_all(&vec![ArgumentKind::U32, ArgumentKind::U32, ArgumentKind::U32]),
        Err(invalid_output())
    );
    let mut ctx = fresh();
    ctx.push_all(&vec![Argument::U32(1), Argument::U32(2)]);
    assert_eq!(
        ctx.pop_all(&vec![ArgumentKind::U32, ArgumentKind::U32]),
        Ok(vec![Argument::U32(1), Argument::U32(2)])
    );
    assert_eq!(ctx.pop_all(&vec![]), Ok(vec![]));
}

#[test]
fn any_non_zero_byte_is_true() {
    let mut ctx = fresh();
    ctx.push(Argument::U8(0x80));
    ctx.push(Argument::U8(0));
    assert_eq!(ctx.pop(ArgumentKind::Bool), Ok(Argument::Bool(true)));
    assert_eq!(ctx.pop(ArgumentKind::Bool), Ok(Argument::Bool(false)));
}
