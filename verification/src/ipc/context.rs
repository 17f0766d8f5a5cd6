//! The transaction context: the staging area of one call.
//!
//! Arguments are packed into a context one after the other and unpacked
//! in the same order, whatever protocol later carries the message.
//! Scalars go into the payload, each aligned to its own size; the process
//! id, handles and buffers go to their own sections of the message.

use vstd::prelude::*;
use crate::ipc::message::{BufferDescriptor, Command, Message, MessageView, Protocol};
use crate::ipc::sf::{zeros, CopyHandle, MoveHandle, ObjectInfo, ProcessId};
use crate::result::{invalid_output, spec_invalid_output, ResultCode};
use crate::wire::{
    lemma_u16_roundtrip, lemma_u32_roundtrip, lemma_u64_roundtrip, push_u16, push_u32, push_u64,
    read_u16, read_u32, read_u64, u16_from_le, u16_le, u32_from_le, u32_le, u64_from_le, u64_le,
};

verus! {

/// One typed argument or output of a command.
#[derive(Clone, Copy, Debug, PartialEq, Eq)]
pub enum Argument {
    U8(u8),
    U16(u16),
    U32(u32),
    U64(u64),
    Bool(bool),
    ProcessId(ProcessId),
    CopyHandle(CopyHandle),
    MoveHandle(MoveHandle),
    Buffer(BufferDescriptor),
}

/// The type of an argument, for a receiver to say what it expects.
#[derive(Clone, Copy, Debug, PartialEq, Eq, Structural)]
pub enum ArgumentKind {
    U8,
    U16,
    U32,
    U64,
    Bool,
    ProcessId,
    CopyHandle,
    MoveHandle,
    Buffer,
}

/// The type of an argument.
pub open spec fn kind_of(a: Argument) -> ArgumentKind {
    match a {
        Argument::U8(_) => ArgumentKind::U8,
        Argument::U16(_) => ArgumentKind::U16,
        Argument::U32(_) => ArgumentKind::U32,
        Argument::U64(_) => ArgumentKind::U64,
        Argument::Bool(_) => ArgumentKind::Bool,
        Argument::ProcessId(_) => ArgumentKind::ProcessId,
        Argument::CopyHandle(_) => ArgumentKind::CopyHandle,
        Argument::MoveHandle(_) => ArgumentKind::MoveHandle,
        Argument::Buffer(_) => ArgumentKind::Buffer,
    }
}

/// The types of a list of arguments.
pub open spec fn kinds_of(args: Seq<Argument>) -> Seq<ArgumentKind> {
    Seq::new(args.len(), |i: int| kind_of(args[i]))
}

/// The number of payload bytes a scalar of the given type takes; zero for
/// what is no scalar.
pub open spec fn scalar_size(k: ArgumentKind) -> int {
    match k {
        ArgumentKind::U8 => 1,
        ArgumentKind::U16 => 2,
        ArgumentKind::U32 => 4,
        ArgumentKind::U64 => 8,
        ArgumentKind::Bool => 1,
        _ => 0,
    }
}

/// The payload bytes of a scalar; nothing for what is no scalar.
pub open spec fn scalar_bytes(a: Argument) -> Seq<u8> {
    match a {
        Argument::U8(v) => seq![v],
        Argument::U16(v) => u16_le(v),
        Argument::U32(v) => u32_le(v),
        Argument::U64(v) => u64_le(v),
        Argument::Bool(v) => seq![if v { 1u8 } else { 0u8 }],
        _ => Seq::<u8>::empty(),
    }
}

/// The scalar of the given type held in `s`.
pub open spec fn scalar_from(k: ArgumentKind, s: Seq<u8>) -> Argument {
    match k {
        ArgumentKind::U8 => Argument::U8(s[0]),
        ArgumentKind::U16 => Argument::U16(u16_from_le(s)),
        ArgumentKind::U32 => Argument::U32(u32_from_le(s)),
        ArgumentKind::U64 => Argument::U64(u64_from_le(s)),
        _ => Argument::Bool(s[0] != 0),
    }
}

/// The number of bytes to skip from offset `at` to reach a multiple of
/// `size`.
pub open spec fn padding(at: int, size: int) -> int {
    if size <= 1 {
        0
    } else {
        (size - at % size) % size
    }
}

/// The message after one more argument was packed into it.
pub open spec fn pushed(m: MessageView, a: Argument) -> MessageView {
    match a {
        Argument::ProcessId(p) => MessageView { process_id: Some(p.process_id), ..m },
        Argument::CopyHandle(h) => MessageView { copy_handles: m.copy_handles.push(h.handle), ..m },
        Argument::MoveHandle(h) => MessageView { move_handles: m.move_handles.push(h.handle), ..m },
        Argument::Buffer(d) => MessageView { buffers: m.buffers.push(d), ..m },
        _ => MessageView {
            payload: m.payload + zeros(padding(m.payload.len() as int, scalar_size(kind_of(a))))
                + scalar_bytes(a),
            ..m
        },
    }
}

/// The message after a list of arguments was packed into it, in order.
pub open spec fn pushed_all(m: MessageView, args: Seq<Argument>) -> MessageView
    decreases args.len(),
{
    if args.len() == 0 {
        m
    } else {
        pushed_all(pushed(m, args[0]), args.drop_first())
    }
}

/// How far each section of a message has been read.
pub ghost struct Cursor {
    pub data: int,
    pub copies: int,
    pub moves: int,
    pub buffers: int,
}

/// The cursor behind everything that a message holds.
pub open spec fn end_of(m: MessageView) -> Cursor {
    Cursor {
        data: m.payload.len() as int,
        copies: m.copy_handles.len() as int,
        moves: m.move_handles.len() as int,
        buffers: m.buffers.len() as int,
    }
}

/// The cursor before everything.
pub open spec fn start() -> Cursor {
    Cursor { data: 0, copies: 0, moves: 0, buffers: 0 }
}

/// The next argument of the given type behind the cursor, and the cursor
/// behind it; nothing when the message holds no such argument there.
pub open spec fn popped(m: MessageView, c: Cursor, k: ArgumentKind) -> Option<(Argument, Cursor)> {
    match k {
        ArgumentKind::ProcessId => match m.process_id {
            Some(v) => Some((Argument::ProcessId(ProcessId { process_id: v }), c)),
            None => None,
        },
        ArgumentKind::CopyHandle => if 0 <= c.copies < m.copy_handles.len() {
            Some(
                (
                    Argument::CopyHandle(CopyHandle { handle: m.copy_handles[c.copies] }),
                    Cursor { copies: c.copies + 1, ..c },
                ),
            )
        } else {
            None
        },
        ArgumentKind::MoveHandle => if 0 <= c.moves < m.move_handles.len() {
            Some(
                (
                    Argument::MoveHandle(MoveHandle { handle: m.move_handles[c.moves] }),
                    Cursor { moves: c.moves + 1, ..c },
                ),
            )
        } else {
            None
        },
        ArgumentKind::Buffer => if 0 <= c.buffers < m.buffers.len() {
            Some((Argument::Buffer(m.buffers[c.buffers]), Cursor { buffers: c.buffers + 1, ..c }))
        } else {
            None
        },
        _ => {
            let size = scalar_size(k);
            let at = c.data + padding(c.data, size);
            if 0 <= c.data && at + size <= m.payload.len() {
                Some((scalar_from(k, m.payload.subrange(at, at + size)), Cursor { data: at + size, ..c }))
            } else {
                None
            }
        },
    }
}

/// The arguments of the given types behind the cursor, in order; nothing
/// when one of them is missing.
pub open spec fn popped_all(m: MessageView, c: Cursor, kinds: Seq<ArgumentKind>) -> Option<
    Seq<Argument>,
>
    decreases kinds.len(),
{
    if kinds.len() == 0 {
        Some(Seq::<Argument>::empty())
    } else {
        match popped(m, c, kinds[0]) {
            None => None,
            Some((a, next)) => match popped_all(m, next, kinds.drop_first()) {
                None => None,
                Some(rest) => Some(seq![a] + rest),
            },
        }
    }
}

/// An argument as the receiver sees it: everything arrives as it was
/// sent, except a process id, in whose place the receiver finds the
/// content of the message's process id slot.
pub open spec fn seen(a: Argument, process_id: Option<u64>) -> Argument {
    match a {
        Argument::ProcessId(_) => Argument::ProcessId(ProcessId { process_id: process_id->0 }),
        _ => a,
    }
}

/// A list of arguments as the receiver sees it.
pub open spec fn seen_all(args: Seq<Argument>, process_id: Option<u64>) -> Seq<Argument> {
    Seq::new(args.len(), |i: int| seen(args[i], process_id))
}

/// Whether `big` holds everything that `small` holds, section by section
/// at the same places, and possibly more behind it.
pub open spec fn extends(big: MessageView, small: MessageView) -> bool {
    &&& small.payload.len() <= big.payload.len()
    &&& big.payload.subrange(0, small.payload.len() as int) == small.payload
    &&& small.copy_handles.len() <= big.copy_handles.len()
    &&& big.copy_handles.subrange(0, small.copy_handles.len() as int) == small.copy_handles
    &&& small.move_handles.len() <= big.move_handles.len()
    &&& big.move_handles.subrange(0, small.move_handles.len() as int) == small.move_handles
    &&& small.buffers.len() <= big.buffers.len()
    &&& big.buffers.subrange(0, small.buffers.len() as int) == small.buffers
    &&& small.process_id is Some ==> big.process_id is Some
}

/// Packing an argument keeps what the message held.
pub proof fn lemma_pushed_extends(m: MessageView, a: Argument)
    ensures
        extends(pushed(m, a), m),
        pushed(m, a).command == m.command,
        pushed(m, a).domain_object_id == m.domain_object_id,
{
    let n = pushed(m, a);
    assert(n.payload.subrange(0, m.payload.len() as int) =~= m.payload);
    assert(n.copy_handles.subrange(0, m.copy_handles.len() as int) =~= m.copy_handles);
    assert(n.move_handles.subrange(0, m.move_handles.len() as int) =~= m.move_handles);
    assert(n.buffers.subrange(0, m.buffers.len() as int) =~= m.buffers);
}

/// Holding everything of a message is transitive.
proof fn lemma_extends_trans(a: MessageView, b: MessageView, c: MessageView)
    requires
        extends(a, b),
        extends(b, c),
    ensures
        extends(a, c),
{
    assert(a.payload.subrange(0, c.payload.len() as int) =~= b.payload.subrange(
        0,
        c.payload.len() as int,
    ));
    assert(a.copy_handles.subrange(0, c.copy_handles.len() as int) =~= b.copy_handles.subrange(
        0,
        c.copy_handles.len() as int,
    ));
    assert(a.move_handles.subrange(0, c.move_handles.len() as int) =~= b.move_handles.subrange(
        0,
        c.move_handles.len() as int,
    ));
    assert(a.buffers.subrange(0, c.buffers.len() as int) =~= b.buffers.subrange(
        0,
        c.buffers.len() as int,
    ));
}

/// Packing a list of arguments keeps what the message held.
pub proof fn lemma_pushed_all_extends(m: MessageView, args: Seq<Argument>)
    ensures
        extends(pushed_all(m, args), m),
        pushed_all(m, args).command == m.command,
        pushed_all(m, args).domain_object_id == m.domain_object_id,
    decreases args.len(),
{
    if args.len() == 0 {
        assert(m.payload.subrange(0, m.payload.len() as int) =~= m.payload);
        assert(m.copy_handles.subrange(0, m.copy_handles.len() as int) =~= m.copy_handles);
        assert(m.move_handles.subrange(0, m.move_handles.len() as int) =~= m.move_handles);
        assert(m.buffers.subrange(0, m.buffers.len() as int) =~= m.buffers);
    } else {
        let next = pushed(m, args[0]);
        lemma_pushed_extends(m, args[0]);
        lemma_pushed_all_extends(next, args.drop_first());
        lemma_extends_trans(pushed_all(m, args), next, m);
    }
}

/// An argument that was packed behind the content of `m` is unpacked from
/// that place as the receiver sees it, however much was packed after it.
pub proof fn lemma_pop_one(big: MessageView, m: MessageView, a: Argument)
    requires
        extends(big, pushed(m, a)),
    ensures
        popped(big, end_of(m), kind_of(a)) == Some(
            (seen(a, big.process_id), end_of(pushed(m, a))),
        ),
{
    let n = pushed(m, a);
    let k = kind_of(a);
    match a {
        Argument::ProcessId(p) => {},
        Argument::CopyHandle(h) => {
            assert(big.copy_handles.subrange(0, n.copy_handles.len() as int)[m.copy_handles.len() as int]
                == h.handle);
        },
        Argument::MoveHandle(h) => {
            assert(big.move_handles.subrange(0, n.move_handles.len() as int)[m.move_handles.len() as int]
                == h.handle);
        },
        Argument::Buffer(d) => {
            assert(big.buffers.subrange(0, n.buffers.len() as int)[m.buffers.len() as int] == d);
        },
        _ => {
            let size = scalar_size(k);
            let len = m.payload.len() as int;
            let at = len + padding(len, size);
            assert(scalar_bytes(a).len() == size) by {
                lemma_scalar_roundtrip(a);
            }
            assert(n.payload.len() == at + size);
            assert(big.payload.subrange(at, at + size) =~= big.payload.subrange(
                0,
                n.payload.len() as int,
            ).subrange(at, at + size));
            assert(n.payload.subrange(at, at + size) =~= scalar_bytes(a));
            lemma_scalar_roundtrip(a);
        },
    }
}

/// A scalar is read back from its payload bytes.
pub proof fn lemma_scalar_roundtrip(a: Argument)
    requires
        scalar_size(kind_of(a)) > 0,
    ensures
        scalar_bytes(a).len() == scalar_size(kind_of(a)),
        scalar_from(kind_of(a), scalar_bytes(a)) == a,
{
    match a {
        Argument::U16(v) => lemma_u16_roundtrip(v),
        Argument::U32(v) => lemma_u32_roundtrip(v),
        Argument::U64(v) => lemma_u64_roundtrip(v),
        _ => {},
    }
}

/// Arguments that were packed behind the content of `m` are unpacked from
/// there, in order, as the receiver sees them.
pub proof fn lemma_pop_all(big: MessageView, m: MessageView, args: Seq<Argument>)
    requires
        extends(big, pushed_all(m, args)),
    ensures
        popped_all(big, end_of(m), kinds_of(args)) == Some(seen_all(args, big.process_id)),
    decreases args.len(),
{
    if args.len() == 0 {
        assert(seen_all(args, big.process_id) =~= Seq::<Argument>::empty());
    } else {
        let a = args[0];
        let rest = args.drop_first();
        let next = pushed(m, a);
        lemma_pushed_all_extends(next, rest);
        lemma_extends_trans(big, pushed_all(next, rest), next);
        lemma_pop_one(big, m, a);
        lemma_pop_all(big, next, rest);
        assert(kinds_of(args).drop_first() =~= kinds_of(rest));
        assert(seq![seen(a, big.process_id)] + seen_all(rest, big.process_id) =~= seen_all(
            args,
            big.process_id,
        ));
    }
}

/// Unpacking inverts packing: the arguments packed into an empty section
/// list are unpacked as they were packed, each scalar, handle of either
/// mode and buffer unchanged, and each process id as the content of the
/// process id slot.
pub proof fn lemma_unpack_pack(m: MessageView, args: Seq<Argument>)
    requires
        end_of(m) == start(),
    ensures
        popped_all(pushed_all(m, args), start(), kinds_of(args)) == Some(
            seen_all(args, pushed_all(m, args).process_id),
        ),
{
    let big = pushed_all(m, args);
    lemma_pushed_all_extends(big, Seq::<Argument>::empty());
    lemma_pop_all(big, m, args);
}

/// A message that holds a command for an object and nothing else.
pub open spec fn bare_message(command: Command, domain_object_id: Option<u32>) -> MessageView {
    MessageView {
        command,
        domain_object_id,
        process_id: None,
        copy_handles: Seq::<u32>::empty(),
        move_handles: Seq::<u32>::empty(),
        buffers: Seq::<BufferDescriptor>::empty(),
        payload: Seq::<u8>::empty(),
    }
}

/// `rest` behind `front`, when there is a `rest`.
pub open spec fn behind(front: Seq<Argument>, rest: Option<Seq<Argument>>) -> Option<Seq<Argument>> {
    match rest {
        Some(r) => Some(front + r),
        None => None,
    }
}

/// Unpacking a list is unpacking its first argument and then the others.
proof fn lemma_popped_all_step(
    m: MessageView,
    c: Cursor,
    kinds: Seq<ArgumentKind>,
    i: int,
    front: Seq<Argument>,
)
    requires
        0 <= i < kinds.len(),
    ensures
        behind(front, popped_all(m, c, kinds.subrange(i, kinds.len() as int))) == match popped(
            m,
            c,
            kinds[i],
        ) {
            None => None,
            Some((a, next)) => behind(
                front.push(a),
                popped_all(m, next, kinds.subrange(i + 1, kinds.len() as int)),
            ),
        },
{
    let here = kinds.subrange(i, kinds.len() as int);
    assert(here[0] == kinds[i]);
    assert(here.drop_first() =~= kinds.subrange(i + 1, kinds.len() as int));
    match popped(m, c, kinds[i]) {
        None => {},
        Some((a, next)) => {
            match popped_all(m, next, kinds.subrange(i + 1, kinds.len() as int)) {
                None => {},
                Some(rest) => {
                    assert(front + (seq![a] + rest) =~= front.push(a) + rest);
                },
            }
        },
    }
}

/// The staging area of one call: whom the call addresses, the protocol
/// that will carry it, the message as far as it is packed, and how far it
/// has been unpacked.
#[derive(Debug, PartialEq, Eq)]
pub struct CommandContext {
    pub object_info: ObjectInfo,
    pub protocol: Protocol,
    pub message: Message,
    pub data_cursor: usize,
    pub copy_cursor: usize,
    pub move_cursor: usize,
    pub buffer_cursor: usize,
}

impl CommandContext {
    /// How far the message has been unpacked.
    pub open spec fn cursor(self) -> Cursor {
        Cursor {
            data: self.data_cursor as int,
            copies: self.copy_cursor as int,
            moves: self.move_cursor as int,
            buffers: self.buffer_cursor as int,
        }
    }

    /// A context to pack a command for an object: the message holds the
    /// command and the object's domain id, and nothing else yet.
    pub fn new(object_info: ObjectInfo, protocol: Protocol, command: Command) -> (ctx: Self)
        ensures
            ctx.object_info == object_info,
            ctx.protocol == protocol,
            ctx.message@ == bare_message(command, object_info.domain_object_id),
            ctx.cursor() == start(),
    {
        let message = Message {
            command,
            domain_object_id: object_info.domain_object_id,
            process_id: None,
            copy_handles: Vec::new(),
            move_handles: Vec::new(),
            buffers: Vec::new(),
            payload: Vec::new(),
        };
        assert(message@ =~= bare_message(command, object_info.domain_object_id));
        Self {
            object_info,
            protocol,
            message,
            data_cursor: 0,
            copy_cursor: 0,
            move_cursor: 0,
            buffer_cursor: 0,
        }
    }

    /// A context to pack the request `rq_id` of a client.
    pub fn new_client(object_info: ObjectInfo, protocol: Protocol, rq_id: u32) -> (ctx: Self)
        ensures
            ctx.object_info == object_info,
            ctx.protocol == protocol,
            ctx.message@ == bare_message(Command::Request { id: rq_id }, object_info.domain_object_id),
            ctx.cursor() == start(),
    {
        Self::new(object_info, protocol, Command::Request { id: rq_id })
    }

    /// A context to unpack a received message from its start.
    pub fn from_message(object_info: ObjectInfo, protocol: Protocol, message: Message) -> (ctx:
        Self)
        ensures
            ctx.object_info == object_info,
            ctx.protocol == protocol,
            ctx.message == message,
            ctx.cursor() == start(),
    {
        Self {
            object_info,
            protocol,
            message,
            data_cursor: 0,
            copy_cursor: 0,
            move_cursor: 0,
            buffer_cursor: 0,
        }
    }

    /// Appends zero bytes to the payload until its length is a multiple of
    /// `size`.
    fn align(&mut self, size: usize)
        requires
            size == 1 || size == 2 || size == 4 || size == 8,
        ensures
            final(self).message.payload@ == old(self).message.payload@ + zeros(
                padding(old(self).message.payload@.len() as int, size as int),
            ),
            final(self).message.command == old(self).message.command,
            final(self).message.domain_object_id == old(self).message.domain_object_id,
            final(self).message.process_id == old(self).message.process_id,
            final(self).message.copy_handles == old(self).message.copy_handles,
            final(self).message.move_handles == old(self).message.move_handles,
            final(self).message.buffers == old(self).message.buffers,
            final(self).object_info == old(self).object_info,
            final(self).protocol == old(self).protocol,
            final(self).cursor() == old(self).cursor(),
    {
        let len: usize = self.message.payload.len();
        let pad: usize = if size <= 1 { 0 } else { (size - len % size) % size };
        let mut i: usize = 0;
        assert(self.message.payload@ =~= old(self).message.payload@ + zeros(0));
        while i < pad
            invariant
                i <= pad,
                self.message.payload@ == old(self).message.payload@ + zeros(i as int),
                self.message.command == old(self).message.command,
                self.message.domain_object_id == old(self).message.domain_object_id,
                self.message.process_id == old(self).message.process_id,
                self.message.copy_handles == old(self).message.copy_handles,
                self.message.move_handles == old(self).message.move_handles,
                self.message.buffers == old(self).message.buffers,
                self.object_info == old(self).object_info,
                self.protocol == old(self).protocol,
                self.cursor() == old(self).cursor(),
            decreases pad - i,
        {
            self.message.payload.push(0);
            assert(self.message.payload@ =~= old(self).message.payload@ + zeros(i + 1));
            i += 1;
        }
    }

    /// Packs one argument behind what the message holds.
    pub fn push(&mut self, a: Argument)
        ensures
            final(self).message@ == pushed(old(self).message@, a),
            final(self).object_info == old(self).object_info,
            final(self).protocol == old(self).protocol,
            final(self).cursor() == old(self).cursor(),
    {
        match a {
            Argument::U8(v) => {
                self.align(1);
                self.message.payload.push(v);
                assert(self.message.payload@ =~= pushed(old(self).message@, a).payload);
            },
            Argument::U16(v) => {
                self.align(2);
                push_u16(&mut self.message.payload, v);
            },
            Argument::U32(v) => {
                self.align(4);
                push_u32(&mut self.message.payload, v);
            },
            Argument::U64(v) => {
                self.align(8);
                push_u64(&mut self.message.payload, v);
            },
            Argument::Bool(v) => {
                self.align(1);
                self.message.payload.push(if v { 1 } else { 0 });
                assert(self.message.payload@ =~= pushed(old(self).message@, a).payload);
            },
            Argument::ProcessId(p) => {
                self.message.process_id = Some(p.process_id);
            },
            Argument::CopyHandle(h) => {
                self.message.copy_handles.push(h.handle);
            },
            Argument::MoveHandle(h) => {
                self.message.move_handles.push(h.handle);
            },
            Argument::Buffer(d) => {
                self.message.buffers.push(d);
            },
        }
    }

    /// Packs a list of arguments, in order.
    pub fn push_all(&mut self, args: &Vec<Argument>)
        ensures
            final(self).message@ == pushed_all(old(self).message@, args@),
            final(self).object_info == old(self).object_info,
            final(self).protocol == old(self).protocol,
            final(self).cursor() == old(self).cursor(),
    {
        let mut i: usize = 0;
        assert(args@.subrange(0, args@.len() as int) =~= args@);
        while i < args.len()
            invariant
                i <= args@.len(),
                pushed_all(old(self).message@, args@) == pushed_all(
                    self.message@,
                    args@.subrange(i as int, args@.len() as int),
                ),
                self.object_info == old(self).object_info,
                self.protocol == old(self).protocol,
                self.cursor() == old(self).cursor(),
            decreases args@.len() - i,
        {
            proof {
                let here = args@.subrange(i as int, args@.len() as int);
                assert(here[0] == args@[i as int]);
                assert(here.drop_first() =~= args@.subrange(i + 1, args@.len() as int));
            }
            self.push(args[i]);
            i += 1;
        }
    }

    /// Unpacks the next argument of the given type.
    ///
    /// Fails with the invalid-output status, and changes nothing, when the
    /// message holds no such argument behind the cursor.
    pub fn pop(&mut self, k: ArgumentKind) -> (r: Result<Argument, ResultCode>)
        ensures
            final(self).message == old(self).message,
            final(self).object_info == old(self).object_info,
            final(self).protocol == old(self).protocol,
            match popped(old(self).message@, old(self).cursor(), k) {
                Some((a, next)) => r == Ok::<Argument, ResultCode>(a) && final(self).cursor()
                    == next,
                None => r == Err::<Argument, ResultCode>(spec_invalid_output())
                    && final(self).cursor() == old(self).cursor(),
            },
    {
        match k {
            ArgumentKind::ProcessId => match self.message.process_id {
                Some(v) => Ok(Argument::ProcessId(ProcessId::from(v))),
                None => Err(invalid_output()),
            },
            ArgumentKind::CopyHandle => {
                if self.copy_cursor < self.message.copy_handles.len() {
                    let h: u32 = self.message.copy_handles[self.copy_cursor];
                    self.copy_cursor = self.copy_cursor + 1;
                    Ok(Argument::CopyHandle(CopyHandle::from(h)))
                } else {
                    Err(invalid_output())
                }
            },
            ArgumentKind::MoveHandle => {
                if self.move_cursor < self.message.move_handles.len() {
                    let h: u32 = self.message.move_handles[self.move_cursor];
                    self.move_cursor = self.move_cursor + 1;
                    Ok(Argument::MoveHandle(MoveHandle::from(h)))
                } else {
                    Err(invalid_output())
                }
            },
            ArgumentKind::Buffer => {
                if self.buffer_cursor < self.message.buffers.len() {
                    let d: BufferDescriptor = self.message.buffers[self.buffer_cursor];
                    self.buffer_cursor = self.buffer_cursor + 1;
                    Ok(Argument::Buffer(d))
                } else {
                    Err(invalid_output())
                }
            },
            _ => {
                let size: usize = match k {
                    ArgumentKind::U16 => 2,
                    ArgumentKind::U32 => 4,
                    ArgumentKind::U64 => 8,
                    _ => 1,
                };
                let len: usize = self.message.payload.len();
                let c: usize = self.data_cursor;
                let pad: usize = if size <= 1 { 0 } else { (size - c % size) % size };
                if c > len || len - c < pad + size {
                    return Err(invalid_output());
                }
                let at: usize = c + pad;
                let bytes: &[u8] = self.message.payload.as_slice();
                let ghost part = bytes@.subrange(at as int, at + size);
                let a: Argument = match k {
                    ArgumentKind::U8 => {
                        assert(part[0] == bytes@[at as int]);
                        Argument::U8(bytes[at])
                    },
                    ArgumentKind::U16 => Argument::U16(read_u16(bytes, at)),
                    ArgumentKind::U32 => Argument::U32(read_u32(bytes, at)),
                    ArgumentKind::U64 => Argument::U64(read_u64(bytes, at)),
                    _ => {
                        assert(part[0] == bytes@[at as int]);
                        Argument::Bool(bytes[at] != 0)
                    },
                };
                self.data_cursor = at + size;
                Ok(a)
            },
        }
    }

    /// Unpacks the arguments of the given types, in order.
    ///
    /// Fails with the invalid-output status when one of them is missing.
    pub fn pop_all(&mut self, kinds: &Vec<ArgumentKind>) -> (r: Result<Vec<Argument>, ResultCode>)
        ensures
            final(self).message == old(self).message,
            final(self).object_info == old(self).object_info,
            final(self).protocol == old(self).protocol,
            match popped_all(old(self).message@, old(self).cursor(), kinds@) {
                Some(args) => r matches Ok(v) && v@ == args,
                None => r == Err::<Vec<Argument>, ResultCode>(spec_invalid_output()),
            },
    {
        let mut out: Vec<Argument> = Vec::new();
        let mut i: usize = 0;
        let ghost whole = popped_all(old(self).message@, old(self).cursor(), kinds@);
        assert(kinds@.subrange(0, kinds@.len() as int) =~= kinds@);
        assert(whole == behind(out@, whole)) by {
            match whole {
                Some(r) => {
                    assert(out@ + r =~= r);
                },
                None => {},
            }
        }
        while i < kinds.len()
            invariant
                i <= kinds@.len(),
                self.message == old(self).message,
                self.object_info == old(self).object_info,
                self.protocol == old(self).protocol,
                whole == popped_all(old(self).message@, old(self).cursor(), kinds@),
                whole == behind(
                    out@,
                    popped_all(self.message@, self.cursor(), kinds@.subrange(i as int, kinds@.len() as int)),
                ),
            decreases kinds@.len() - i,
        {
            proof {
                lemma_popped_all_step(self.message@, self.cursor(), kinds@, i as int, out@);
            }
            match self.pop(kinds[i]) {
                Ok(a) => {
                    out.push(a);
                },
                Err(e) => {
                    return Err(e);
                },
            }
            i += 1;
        }
        assert(kinds@.subrange(i as int, kinds@.len() as int) =~= Seq::<ArgumentKind>::empty());
        assert(out@ + Seq::<Argument>::empty() =~= out@);
        Ok(out)
    }
}

} // verus!
