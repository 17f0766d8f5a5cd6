//! Encoding a message into bytes and decoding it again, for both protocol
//! variants, with the proof that decoding inverts encoding.

use vstd::prelude::*;
use vstd::slice::slice_subrange;
use vstd::slice::slice_to_vec;
use crate::ipc::message::{
    descriptors_from_le, descriptors_le, descriptors_valid, lemma_descriptors_len,
    lemma_descriptors_roundtrip, push_descriptors, read_descriptors, BufferDescriptor, Command,
    Message, MessageView, Protocol, CMIF_MAGIC_IN, CMIF_MAGIC_OUT, CMIF_TYPE_CLOSE,
    CMIF_TYPE_REQUEST, DESCRIPTOR_SIZE, HEADER_SIZE, MAX_ATTACHMENTS, MESSAGE_REGION_SIZE,
    TIPC_TYPE_CLOSE, TIPC_TYPE_REQUEST_BASE, TYPE_RESPONSE,
};
use crate::result::{
    invalid_header, malformed_message, message_too_large, spec_invalid_header,
    spec_malformed_message, spec_message_too_large, spec_unsupported_operation,
    unsupported_operation, ResultCode,
};
use crate::wire::{
    lemma_u32_roundtrip, lemma_u32s_len, lemma_u32s_roundtrip, lemma_u64_roundtrip, push_bytes,
    push_u32, push_u32s, push_u64, read_u32, read_u32s, read_u64, u32_from_le, u32_le,
    u32s_from_le, u32s_le, u64_from_le, u64_le,
};

verus! {

/// Where the sections of one message lie, as its header states it.
pub ghost struct Layout {
    pub type_word: int,
    pub has_process_id: bool,
    pub has_domain: bool,
    pub copy_handles: int,
    pub move_handles: int,
    pub buffers: int,
    pub data_header: int,
    pub payload: int,
}

impl Layout {
    /// Offset of the domain object slot.
    pub open spec fn at_domain(self) -> int {
        12 + if self.has_process_id { 8int } else { 0int }
    }

    /// Offset of the copy handles.
    pub open spec fn at_copy(self) -> int {
        self.at_domain() + if self.has_domain { 4int } else { 0int }
    }

    /// Offset of the move handles.
    pub open spec fn at_move(self) -> int {
        self.at_copy() + 4 * self.copy_handles
    }

    /// Offset of the buffer descriptors.
    pub open spec fn at_buffers(self) -> int {
        self.at_move() + 4 * self.move_handles
    }

    /// Offset of the data header.
    pub open spec fn at_data(self) -> int {
        self.at_buffers() + 20 * self.buffers
    }

    /// Offset of the payload.
    pub open spec fn at_payload(self) -> int {
        self.at_data() + self.data_header
    }

    /// Offset of the first byte behind the message.
    pub open spec fn end(self) -> int {
        self.at_payload() + self.payload
    }

    /// First header word: the type and the number of buffers.
    pub open spec fn word0(self) -> int {
        self.type_word + 65536 * self.buffers
    }

    /// Second header word: the two flags and the handle counts.
    pub open spec fn word1(self) -> int {
        (if self.has_process_id { 1int } else { 0int }) + (if self.has_domain { 2int } else { 0int })
            + 16 * self.copy_handles + 256 * self.move_handles
    }

    /// Whether every count is one that the header words can hold.
    pub open spec fn in_range(self) -> bool {
        &&& 0 <= self.type_word < 65536
        &&& 0 <= self.copy_handles <= 15
        &&& 0 <= self.move_handles <= 15
        &&& 0 <= self.buffers <= 15
        &&& 0 <= self.payload <= 256
        &&& 0 <= self.data_header <= 8
    }
}

/// The type word that names a command in a protocol.
pub open spec fn type_word(p: Protocol, c: Command) -> int {
    match c {
        Command::Response { status } => 0,
        Command::Close => if p == Protocol::Cmif { 2 } else { 15 },
        Command::Request { id } => if p == Protocol::Cmif { 4 } else { 16 + id as int },
    }
}

/// Whether a type word names a command in a protocol.
pub open spec fn type_known(p: Protocol, type_word: int) -> bool {
    match p {
        Protocol::Cmif => type_word == 0 || type_word == 2 || type_word == 4,
        Protocol::Tipc => type_word == 0 || 15 <= type_word < 65536,
    }
}

/// Length of the data header that follows the attachments.
pub open spec fn data_header_len(p: Protocol, type_word: int) -> int {
    match p {
        Protocol::Cmif => if type_word == 0 || type_word == 4 { 8 } else { 0 },
        Protocol::Tipc => if type_word == 0 { 4 } else { 0 },
    }
}

/// The data header: what a protocol writes between the attachments and
/// the payload to name the command or report its status.
pub open spec fn data_header(p: Protocol, c: Command) -> Seq<u8> {
    match c {
        Command::Request { id } => if p == Protocol::Cmif {
            u32_le(CMIF_MAGIC_IN) + u32_le(id)
        } else {
            Seq::<u8>::empty()
        },
        Command::Response { status } => if p == Protocol::Cmif {
            u32_le(CMIF_MAGIC_OUT) + u32_le(status.value)
        } else {
            u32_le(status.value)
        },
        Command::Close => Seq::<u8>::empty(),
    }
}

/// The layout of a message in a protocol.
pub open spec fn layout_of(p: Protocol, m: MessageView) -> Layout {
    Layout {
        type_word: type_word(p, m.command),
        has_process_id: m.process_id is Some,
        has_domain: m.domain_object_id is Some,
        copy_handles: m.copy_handles.len() as int,
        move_handles: m.move_handles.len() as int,
        buffers: m.buffers.len() as int,
        data_header: data_header_len(p, type_word(p, m.command)),
        payload: m.payload.len() as int,
    }
}

/// Whether the protocol can carry the message at all: the second variant
/// has no domain objects, and its request ids must fit the type word.
pub open spec fn supported(p: Protocol, m: MessageView) -> bool {
    p == Protocol::Tipc ==> {
        &&& m.domain_object_id is None
        &&& (m.command matches Command::Request { id } ==> id <= 0xffff - 16)
    }
}

/// Whether the message fits the header's counters and the message region.
pub open spec fn fits(p: Protocol, m: MessageView) -> bool {
    &&& m.copy_handles.len() <= 15
    &&& m.move_handles.len() <= 15
    &&& m.buffers.len() <= 15
    &&& layout_of(p, m).end() <= 256
}

/// Whether `encode` succeeds on the message.
pub open spec fn encodable(p: Protocol, m: MessageView) -> bool {
    supported(p, m) && fits(p, m)
}

/// The failure that `encode` reports for a message it cannot encode.
pub open spec fn encode_error(p: Protocol, m: MessageView) -> ResultCode {
    if !supported(p, m) {
        spec_unsupported_operation()
    } else {
        spec_message_too_large()
    }
}

/// The bytes of the process id slot.
pub open spec fn process_id_slot(process_id: Option<u64>) -> Seq<u8> {
    match process_id {
        Some(v) => u64_le(v),
        None => Seq::<u8>::empty(),
    }
}

/// The bytes of the domain object slot.
pub open spec fn domain_slot(domain_object_id: Option<u32>) -> Seq<u8> {
    match domain_object_id {
        Some(v) => u32_le(v),
        None => Seq::<u8>::empty(),
    }
}

/// The twelve bytes of the fixed header.
pub open spec fn header_le(l: Layout) -> Seq<u8> {
    u32_le(l.word0() as u32) + u32_le(l.word1() as u32) + u32_le(l.payload as u32)
}

/// The bytes of a message in a protocol.
pub open spec fn encode_spec(p: Protocol, m: MessageView) -> Seq<u8> {
    header_le(layout_of(p, m)) + process_id_slot(m.process_id) + domain_slot(m.domain_object_id)
        + u32s_le(m.copy_handles) + u32s_le(m.move_handles) + descriptors_le(m.buffers)
        + data_header(p, m.command) + m.payload
}

/// The layout that the first twelve bytes of `s` state, when they are a
/// header of the protocol.
pub open spec fn parse_header(p: Protocol, s: Seq<u8>) -> Option<Layout> {
    if s.len() < 12 {
        None
    } else {
        let w0 = u32_from_le(s.subrange(0, 4)) as int;
        let w1 = u32_from_le(s.subrange(4, 8)) as int;
        let w2 = u32_from_le(s.subrange(8, 12)) as int;
        let ty = w0 % 65536;
        let flags = w1 % 16;
        if w0 / 65536 > 15 || flags >= 4 || w1 >= 4096 || w2 > 256 || !type_known(p, ty) || (p
            == Protocol::Tipc && flags >= 2) {
            None
        } else {
            Some(
                Layout {
                    type_word: ty,
                    has_process_id: flags % 2 == 1,
                    has_domain: flags >= 2,
                    copy_handles: (w1 / 16) % 16,
                    move_handles: w1 / 256,
                    buffers: w0 / 65536,
                    data_header: data_header_len(p, ty),
                    payload: w2,
                },
            )
        }
    }
}

/// The 32-bit word stored at `at`.
pub open spec fn word_at(s: Seq<u8>, at: int) -> u32 {
    u32_from_le(s.subrange(at, at + 4))
}

/// Whether the data header at offset `at` opens with the magic word that
/// the protocol and the type ask for.
pub open spec fn magic_ok(p: Protocol, type_word: int, s: Seq<u8>, at: int) -> bool {
    p == Protocol::Cmif ==> {
        &&& type_word == 4 ==> word_at(s, at) == CMIF_MAGIC_IN
        &&& type_word == 0 ==> word_at(s, at) == CMIF_MAGIC_OUT
    }
}

/// The command that the type word and the data header at offset `at` name.
pub open spec fn command_at(p: Protocol, type_word: int, s: Seq<u8>, at: int) -> Command {
    match p {
        Protocol::Cmif => if type_word == 4 {
            Command::Request { id: word_at(s, at + 4) }
        } else if type_word == 0 {
            Command::Response { status: ResultCode { value: word_at(s, at + 4) } }
        } else {
            Command::Close
        },
        Protocol::Tipc => if type_word == 0 {
            Command::Response { status: ResultCode { value: word_at(s, at) } }
        } else if type_word == 15 {
            Command::Close
        } else {
            Command::Request { id: (type_word - 16) as u32 }
        },
    }
}

/// The message that lies in `s` under the layout `l`.
pub open spec fn message_at(p: Protocol, l: Layout, s: Seq<u8>) -> MessageView {
    MessageView {
        command: command_at(p, l.type_word, s, l.at_data()),
        domain_object_id: if l.has_domain {
            Some(word_at(s, l.at_domain()))
        } else {
            None
        },
        process_id: if l.has_process_id {
            Some(u64_from_le(s.subrange(12, 20)))
        } else {
            None
        },
        copy_handles: u32s_from_le(s.subrange(l.at_copy(), l.at_move()), l.copy_handles as nat),
        move_handles: u32s_from_le(s.subrange(l.at_move(), l.at_buffers()), l.move_handles as nat),
        buffers: descriptors_from_le(s.subrange(l.at_buffers(), l.at_data()), l.buffers as nat),
        payload: s.subrange(l.at_payload(), l.end()),
    }
}

/// What `decode` makes of the bytes `s`: the message they hold, or the
/// failure that says why they hold none. Bytes behind the message are
/// ignored.
pub open spec fn decode_spec(p: Protocol, s: Seq<u8>) -> Result<MessageView, ResultCode> {
    match parse_header(p, s) {
        None => Err(spec_malformed_message()),
        Some(l) => if s.len() < l.end() {
            Err(spec_malformed_message())
        } else if !descriptors_valid(s.subrange(l.at_buffers(), l.at_data()), l.buffers as nat) {
            Err(spec_malformed_message())
        } else if !magic_ok(p, l.type_word, s, l.at_data()) {
            Err(spec_invalid_header())
        } else {
            Ok(message_at(p, l, s))
        },
    }
}

/// Starts a message: the twelve header bytes for the given counts.
fn header_bytes(
    type_code: u32,
    has_process_id: bool,
    has_domain: bool,
    copies: usize,
    moves: usize,
    buffers: usize,
    payload: usize,
) -> (out: Vec<u8>)
    requires
        type_code < 65536,
        copies <= 15,
        moves <= 15,
        buffers <= 15,
        payload <= 256,
    ensures
        out@ == header_le(
            Layout {
                type_word: type_code as int,
                has_process_id,
                has_domain,
                copy_handles: copies as int,
                move_handles: moves as int,
                buffers: buffers as int,
                data_header: 0,
                payload: payload as int,
            },
        ),
{
    let flags: u32 = (if has_process_id { 1u32 } else { 0u32 }) + (if has_domain { 2u32 } else { 0u32 });
    let mut out: Vec<u8> = Vec::new();
    push_u32(&mut out, type_code + 65536 * (buffers as u32));
    push_u32(&mut out, flags + 16 * (copies as u32) + 256 * (moves as u32));
    push_u32(&mut out, payload as u32);
    assert(out@ =~= u32_le((type_code + 65536 * buffers) as u32) + u32_le(
        (flags + 16 * copies + 256 * moves) as u32,
    ) + u32_le(payload as u32));
    out
}

/// Appends the process id slot.
fn push_process_id_slot(out: &mut Vec<u8>, process_id: Option<u64>)
    ensures
        final(out)@ == old(out)@ + process_id_slot(process_id),
{
    match process_id {
        Some(v) => push_u64(out, v),
        None => {
            assert(out@ =~= old(out)@ + process_id_slot(process_id));
        },
    }
}

/// Appends the domain object slot.
fn push_domain_slot(out: &mut Vec<u8>, domain_object_id: Option<u32>)
    ensures
        final(out)@ == old(out)@ + domain_slot(domain_object_id),
{
    match domain_object_id {
        Some(v) => push_u32(out, v),
        None => {
            assert(out@ =~= old(out)@ + domain_slot(domain_object_id));
        },
    }
}

/// Appends the data header of a command.
fn push_data_header(out: &mut Vec<u8>, p: Protocol, command: Command)
    ensures
        final(out)@ == old(out)@ + data_header(p, command),
{
    let is_cmif: bool = match p {
        Protocol::Cmif => true,
        Protocol::Tipc => false,
    };
    match command {
        Command::Request { id } => {
            if is_cmif {
                push_u32(out, CMIF_MAGIC_IN);
                push_u32(out, id);
            }
        },
        Command::Response { status } => {
            if is_cmif {
                push_u32(out, CMIF_MAGIC_OUT);
            }
            push_u32(out, status.get_value());
        },
        Command::Close => {},
    }
    assert(out@ =~= old(out)@ + data_header(p, command));
}

/// The type word of a command, when the protocol has one for it.
fn type_code_of(p: Protocol, command: Command) -> (r: Option<u32>)
    ensures
        r is Some <==> (p == Protocol::Tipc ==> (command matches Command::Request { id } ==> id
            <= 0xffff - 16)),
        r matches Some(t) ==> t == type_word(p, command) && t < 65536,
{
    let is_cmif: bool = match p {
        Protocol::Cmif => true,
        Protocol::Tipc => false,
    };
    match command {
        Command::Request { id } => {
            if is_cmif {
                Some(CMIF_TYPE_REQUEST)
            } else if id > 0xffff - TIPC_TYPE_REQUEST_BASE {
                None
            } else {
                Some(TIPC_TYPE_REQUEST_BASE + id)
            }
        },
        Command::Response { status } => Some(TYPE_RESPONSE),
        Command::Close => Some(if is_cmif { CMIF_TYPE_CLOSE } else { TIPC_TYPE_CLOSE }),
    }
}

/// The length of the data header that follows a type word.
fn header_len_of(p: Protocol, type_code: u32) -> (n: usize)
    ensures
        n == data_header_len(p, type_code as int),
        n <= 8,
{
    match p {
        Protocol::Cmif => if type_code == TYPE_RESPONSE || type_code == CMIF_TYPE_REQUEST {
            8
        } else {
            0
        },
        Protocol::Tipc => if type_code == TYPE_RESPONSE {
            4
        } else {
            0
        },
    }
}

/// Encodes a message for a protocol.
///
/// Succeeds exactly on the messages that the protocol supports and that
/// fit the message region; the bytes are then the ones `encode_spec`
/// gives. Otherwise reports why the message cannot be sent.
pub fn encode(p: Protocol, m: &Message) -> (r: Result<Vec<u8>, ResultCode>)
    ensures
        r is Ok <==> encodable(p, m@),
        r matches Ok(bytes) ==> bytes@ == encode_spec(p, m@),
        r matches Ok(bytes) ==> bytes@.len() == layout_of(p, m@).end() && bytes@.len()
            <= MESSAGE_REGION_SIZE,
        r matches Err(e) ==> e == encode_error(p, m@),
{
    proof {
        lemma_encoded_len(p, m@);
    }
    let is_cmif: bool = match p {
        Protocol::Cmif => true,
        Protocol::Tipc => false,
    };
    let type_code: u32 = match type_code_of(p, m.command) {
        Some(t) => t,
        None => {
            return Err(unsupported_operation());
        },
    };
    if !is_cmif && m.domain_object_id.is_some() {
        return Err(unsupported_operation());
    }
    let copies: usize = m.copy_handles.len();
    let moves: usize = m.move_handles.len();
    let buffers: usize = m.buffers.len();
    let payload: usize = m.payload.len();
    if copies > MAX_ATTACHMENTS || moves > MAX_ATTACHMENTS || buffers > MAX_ATTACHMENTS || payload
        > MESSAGE_REGION_SIZE {
        return Err(message_too_large());
    }
    let header_len: usize = header_len_of(p, type_code);
    let process_id_len: usize = if m.process_id.is_some() { 8 } else { 0 };
    let domain_len: usize = if m.domain_object_id.is_some() { 4 } else { 0 };
    let total: usize = HEADER_SIZE + process_id_len + domain_len + 4 * copies + 4 * moves
        + DESCRIPTOR_SIZE * buffers + header_len + payload;
    assert(total == layout_of(p, m@).end());
    if total > MESSAGE_REGION_SIZE {
        return Err(message_too_large());
    }
    let mut out: Vec<u8> = header_bytes(
        type_code,
        m.process_id.is_some(),
        m.domain_object_id.is_some(),
        copies,
        moves,
        buffers,
        payload,
    );
    push_process_id_slot(&mut out, m.process_id);
    push_domain_slot(&mut out, m.domain_object_id);
    push_u32s(&mut out, &m.copy_handles);
    push_u32s(&mut out, &m.move_handles);
    push_descriptors(&mut out, &m.buffers);
    push_data_header(&mut out, p, m.command);
    push_bytes(&mut out, m.payload.as_slice());
    Ok(out)
}

/// Decodes the message at the start of `bytes`.
///
/// Returns the message that `decode_spec` finds there, or the failure it
/// gives: a malformed message when the header or the sections do not fit,
/// an invalid header when the data header lacks its magic word.
pub fn decode(p: Protocol, bytes: &[u8]) -> (r: Result<Message, ResultCode>)
    ensures
        r matches Ok(m) ==> decode_spec(p, bytes@) == Ok::<MessageView, ResultCode>(m@),
        r matches Err(e) ==> decode_spec(p, bytes@) == Err::<MessageView, ResultCode>(e),
{
    let total: usize = bytes.len();
    if total < HEADER_SIZE {
        return Err(malformed_message());
    }
    let is_cmif: bool = match p {
        Protocol::Cmif => true,
        Protocol::Tipc => false,
    };
    let w0: u32 = read_u32(bytes, 0);
    let w1: u32 = read_u32(bytes, 4);
    let w2: u32 = read_u32(bytes, 8);
    let type_code: u32 = w0 % 65536;
    let buffers: usize = (w0 / 65536) as usize;
    let flags: u32 = w1 % 16;
    let known: bool = if is_cmif {
        type_code == TYPE_RESPONSE || type_code == CMIF_TYPE_CLOSE || type_code
            == CMIF_TYPE_REQUEST
    } else {
        type_code == TYPE_RESPONSE || type_code >= TIPC_TYPE_CLOSE
    };
    if buffers > MAX_ATTACHMENTS || flags >= 4 || w1 >= 4096 || w2 > 256 || !known || (!is_cmif
        && flags >= 2) {
        return Err(malformed_message());
    }
    let has_process_id: bool = flags % 2 == 1;
    let has_domain: bool = flags >= 2;
    let copies: usize = ((w1 / 16) % 16) as usize;
    let moves: usize = (w1 / 256) as usize;
    let payload: usize = w2 as usize;
    let header_len: usize = if is_cmif {
        if type_code == TYPE_RESPONSE || type_code == CMIF_TYPE_REQUEST {
            8
        } else {
            0
        }
    } else {
        if type_code == TYPE_RESPONSE {
            4
        } else {
            0
        }
    };
    let ghost l = parse_header(p, bytes@)->0;
    assert(parse_header(p, bytes@) is Some);
    let at_domain: usize = HEADER_SIZE + if has_process_id { 8 } else { 0 };
    let at_copy: usize = at_domain + if has_domain { 4 } else { 0 };
    let at_move: usize = at_copy + 4 * copies;
    let at_buffers: usize = at_move + 4 * moves;
    let at_data: usize = at_buffers + DESCRIPTOR_SIZE * buffers;
    let at_payload: usize = at_data + header_len;
    let end: usize = at_payload + payload;
    assert(end == l.end());
    if total < end {
        return Err(malformed_message());
    }
    let descriptors = read_descriptors(bytes, at_buffers, buffers);
    let buffer_list: Vec<BufferDescriptor> = match descriptors {
        Some(list) => list,
        None => {
            return Err(malformed_message());
        },
    };
    let mut command: Command = Command::Close;
    if is_cmif {
        if type_code == CMIF_TYPE_REQUEST {
            if read_u32(bytes, at_data) != CMIF_MAGIC_IN {
                return Err(invalid_header());
            }
            command = Command::Request { id: read_u32(bytes, at_data + 4) };
        } else if type_code == TYPE_RESPONSE {
            if read_u32(bytes, at_data) != CMIF_MAGIC_OUT {
                return Err(invalid_header());
            }
            command = Command::Response { status: ResultCode::new(read_u32(bytes, at_data + 4)) };
        }
    } else {
        if type_code == TYPE_RESPONSE {
            command = Command::Response { status: ResultCode::new(read_u32(bytes, at_data)) };
        } else if type_code != TIPC_TYPE_CLOSE {
            command = Command::Request { id: type_code - TIPC_TYPE_REQUEST_BASE };
        }
    }
    let process_id: Option<u64> = if has_process_id {
        Some(read_u64(bytes, HEADER_SIZE))
    } else {
        None
    };
    let domain_object_id: Option<u32> = if has_domain {
        Some(read_u32(bytes, at_domain))
    } else {
        None
    };
    let copy_handles: Vec<u32> = read_u32s(bytes, at_copy, copies);
    let move_handles: Vec<u32> = read_u32s(bytes, at_move, moves);
    let payload_bytes: Vec<u8> = slice_to_vec(slice_subrange(bytes, at_payload, end));
    let m = Message {
        command,
        domain_object_id,
        process_id,
        copy_handles,
        move_handles,
        buffers: buffer_list,
        payload: payload_bytes,
    };
    assert(m@ == message_at(p, l, bytes@));
    Ok(m)
}

/// The nine parts of a concatenation lie in it one behind the other.
proof fn lemma_parts(
    h: Seq<u8>,
    a: Seq<u8>,
    b: Seq<u8>,
    c: Seq<u8>,
    d: Seq<u8>,
    f: Seq<u8>,
    g: Seq<u8>,
    y: Seq<u8>,
    t: Seq<u8>,
)
    ensures
        ({
            let s = h + a + b + c + d + f + g + y + t;
            let i1 = h.len() as int;
            let i2 = i1 + a.len();
            let i3 = i2 + b.len();
            let i4 = i3 + c.len();
            let i5 = i4 + d.len();
            let i6 = i5 + f.len();
            let i7 = i6 + g.len();
            let i8 = i7 + y.len();
            &&& s.len() == i8 + t.len()
            &&& s.subrange(0, i1) == h
            &&& s.subrange(i1, i2) == a
            &&& s.subrange(i2, i3) == b
            &&& s.subrange(i3, i4) == c
            &&& s.subrange(i4, i5) == d
            &&& s.subrange(i5, i6) == f
            &&& s.subrange(i6, i7) == g
            &&& s.subrange(i7, i8) == y
        }),
{
    let s = h + a + b + c + d + f + g + y + t;
    let i1 = h.len() as int;
    let i2 = i1 + a.len();
    let i3 = i2 + b.len();
    let i4 = i3 + c.len();
    let i5 = i4 + d.len();
    let i6 = i5 + f.len();
    let i7 = i6 + g.len();
    let i8 = i7 + y.len();
    assert(s.subrange(0, i1) =~= h);
    assert(s.subrange(i1, i2) =~= a);
    assert(s.subrange(i2, i3) =~= b);
    assert(s.subrange(i3, i4) =~= c);
    assert(s.subrange(i4, i5) =~= d);
    assert(s.subrange(i5, i6) =~= f);
    assert(s.subrange(i6, i7) =~= g);
    assert(s.subrange(i7, i8) =~= y);
}

/// The first header word gives back the type and the number of buffers.
proof fn lemma_word0(type_word: int, buffers: int)
    requires
        0 <= type_word < 65536,
        0 <= buffers <= 15,
    ensures
        0 <= type_word + 65536 * buffers < 0x1_0000_0000,
        (type_word + 65536 * buffers) % 65536 == type_word,
        (type_word + 65536 * buffers) / 65536 == buffers,
{
}

/// The second header word gives back the flags and the handle counts.
proof fn lemma_word1(flags: int, copies: int, moves: int)
    requires
        0 <= flags < 4,
        0 <= copies <= 15,
        0 <= moves <= 15,
    ensures
        0 <= flags + 16 * copies + 256 * moves < 4096,
        (flags + 16 * copies + 256 * moves) % 16 == flags,
        ((flags + 16 * copies + 256 * moves) / 16) % 16 == copies,
        (flags + 16 * copies + 256 * moves) / 256 == moves,
{
}

/// Bytes that open with the header of a layout hold its three words.
proof fn lemma_header_words(l: Layout, s: Seq<u8>)
    requires
        l.in_range(),
        s.len() >= 12,
        s.subrange(0, 12) == header_le(l),
    ensures
        u32_from_le(s.subrange(0, 4)) == l.word0(),
        u32_from_le(s.subrange(4, 8)) == l.word1(),
        u32_from_le(s.subrange(8, 12)) == l.payload,
{
    let h = header_le(l);
    let flags = (if l.has_process_id { 1int } else { 0int }) + (if l.has_domain { 2int } else { 0int });
    lemma_word0(l.type_word, l.buffers);
    lemma_word1(flags, l.copy_handles, l.move_handles);
    lemma_u32_roundtrip(l.word0() as u32);
    lemma_u32_roundtrip(l.word1() as u32);
    lemma_u32_roundtrip(l.payload as u32);
    assert(s.subrange(0, 4) =~= h.subrange(0, 4));
    assert(s.subrange(4, 8) =~= h.subrange(4, 8));
    assert(s.subrange(8, 12) =~= h.subrange(8, 12));
    assert(h.subrange(0, 4) =~= u32_le(l.word0() as u32));
    assert(h.subrange(4, 8) =~= u32_le(l.word1() as u32));
    assert(h.subrange(8, 12) =~= u32_le(l.payload as u32));
}

/// Bytes that open with the header of a layout parse to that layout.
proof fn lemma_header_parses(p: Protocol, l: Layout, s: Seq<u8>)
    requires
        l.in_range(),
        type_known(p, l.type_word),
        l.data_header == data_header_len(p, l.type_word),
        p == Protocol::Tipc ==> !l.has_domain,
        s.len() >= 12,
        s.subrange(0, 12) == header_le(l),
    ensures
        parse_header(p, s) == Some(l),
{
    let flags = (if l.has_process_id { 1int } else { 0int }) + (if l.has_domain { 2int } else { 0int });
    lemma_header_words(l, s);
    lemma_word0(l.type_word, l.buffers);
    lemma_word1(flags, l.copy_handles, l.move_handles);
    let w0 = u32_from_le(s.subrange(0, 4)) as int;
    let w1 = u32_from_le(s.subrange(4, 8)) as int;
    assert(w0 == l.type_word + 65536 * l.buffers);
    assert(w1 == flags + 16 * l.copy_handles + 256 * l.move_handles);
    assert(w1 % 16 == flags);
    assert(parse_header(p, s) is Some);
    let got = parse_header(p, s)->0;
    assert(got.type_word == l.type_word);
    assert(got.buffers == l.buffers);
    assert(got.copy_handles == l.copy_handles);
    assert(got.move_handles == l.move_handles);
    assert(got.payload == l.payload);
    assert(got.has_process_id == l.has_process_id);
    assert(got.has_domain == l.has_domain);
    assert(got.data_header == l.data_header);
}

/// An encoded message is as long as its layout says.
pub proof fn lemma_encoded_len(p: Protocol, m: MessageView)
    ensures
        encode_spec(p, m).len() == layout_of(p, m).end(),
{
    let l = layout_of(p, m);
    lemma_u32_roundtrip(l.word0() as u32);
    lemma_u32_roundtrip(l.word1() as u32);
    lemma_u32_roundtrip(l.payload as u32);
    lemma_u32s_len(m.copy_handles);
    lemma_u32s_len(m.move_handles);
    lemma_descriptors_len(m.buffers);
    lemma_sections_len(p, m);
    assert(header_le(l).len() == 12);
}

/// Decoding inverts encoding: the bytes of an encodable message, followed
/// by anything at all, decode to that message, in either protocol. Scalars
/// in the payload, handles of both modes, buffer descriptors, the process
/// id slot and the domain object id all come back as they were sent.
pub proof fn lemma_decode_encode(p: Protocol, m: MessageView, tail: Seq<u8>)
    requires
        encodable(p, m),
    ensures
        decode_spec(p, encode_spec(p, m) + tail) == Ok::<MessageView, ResultCode>(m),
{
    let l = layout_of(p, m);
    let s = encode_spec(p, m) + tail;
    let h = header_le(l);
    let a = process_id_slot(m.process_id);
    let b = domain_slot(m.domain_object_id);
    let c = u32s_le(m.copy_handles);
    let d = u32s_le(m.move_handles);
    let f = descriptors_le(m.buffers);
    let g = data_header(p, m.command);
    let y = m.payload;
    lemma_u32_roundtrip(l.word0() as u32);
    lemma_u32_roundtrip(l.word1() as u32);
    lemma_u32_roundtrip(l.payload as u32);
    lemma_u32s_len(m.copy_handles);
    lemma_u32s_len(m.move_handles);
    lemma_descriptors_len(m.buffers);
    lemma_sections_len(p, m);
    lemma_parts(h, a, b, c, d, f, g, y, tail);
    assert(h.len() == 12);
    lemma_header_parses(p, l, s);
    lemma_u32s_roundtrip(m.copy_handles, Seq::<u8>::empty());
    lemma_u32s_roundtrip(m.move_handles, Seq::<u8>::empty());
    lemma_descriptors_roundtrip(m.buffers, Seq::<u8>::empty());
    assert(c + Seq::<u8>::empty() =~= c);
    assert(d + Seq::<u8>::empty() =~= d);
    assert(f + Seq::<u8>::empty() =~= f);
    if let Some(v) = m.process_id {
        lemma_u64_roundtrip(v);
    }
    if let Some(v) = m.domain_object_id {
        lemma_u32_roundtrip(v);
    }
    lemma_data_header_reads(p, m.command, s, l.at_data());
    let back = message_at(p, l, s);
    assert(back.copy_handles == m.copy_handles);
    assert(back.move_handles == m.move_handles);
    assert(back.buffers == m.buffers);
    assert(back.payload == m.payload);
    assert(back.command == m.command);
    assert(back.process_id == m.process_id);
    assert(back.domain_object_id == m.domain_object_id);
    assert(back == m);
}

/// The lengths of the two slots and of the data header are the ones the
/// layout counts.
proof fn lemma_sections_len(p: Protocol, m: MessageView)
    ensures
        process_id_slot(m.process_id).len() == if m.process_id is Some { 8int } else { 0int },
        domain_slot(m.domain_object_id).len() == if m.domain_object_id is Some { 4int } else { 0int },
        data_header(p, m.command).len() == data_header_len(p, type_word(p, m.command)),
{
    if let Some(v) = m.process_id {
        lemma_u64_roundtrip(v);
    }
}

/// Where the data header of a command lies in `s`, decoding finds its
/// magic word and reads the command back.
proof fn lemma_data_header_reads(p: Protocol, c: Command, s: Seq<u8>, at: int)
    requires
        0 <= at,
        at + data_header(p, c).len() <= s.len(),
        s.subrange(at, at + data_header(p, c).len()) == data_header(p, c),
        p == Protocol::Tipc ==> (c matches Command::Request { id } ==> id <= 0xffff - 16),
    ensures
        magic_ok(p, type_word(p, c), s, at),
        command_at(p, type_word(p, c), s, at) == c,
{
    let g = data_header(p, c);
    lemma_u32_roundtrip(CMIF_MAGIC_IN);
    lemma_u32_roundtrip(CMIF_MAGIC_OUT);
    match c {
        Command::Request { id } => {
            lemma_u32_roundtrip(id);
            if p == Protocol::Cmif {
                assert(s.subrange(at, at + 4) =~= g.subrange(0, 4));
                assert(s.subrange(at + 4, at + 8) =~= g.subrange(4, 8));
                assert(g.subrange(0, 4) =~= u32_le(CMIF_MAGIC_IN));
                assert(g.subrange(4, 8) =~= u32_le(id));
            }
        },
        Command::Response { status } => {
            lemma_u32_roundtrip(status.value);
            if p == Protocol::Cmif {
                assert(s.subrange(at, at + 4) =~= g.subrange(0, 4));
                assert(s.subrange(at + 4, at + 8) =~= g.subrange(4, 8));
                assert(g.subrange(0, 4) =~= u32_le(CMIF_MAGIC_OUT));
                assert(g.subrange(4, 8) =~= u32_le(status.value));
            } else {
                assert(s.subrange(at, at + 4) =~= g);
            }
        },
        Command::Close => {},
    }
}

/// Whether the header in `s` flags a process id slot.
pub open spec fn flags_process_id(s: Seq<u8>) -> bool {
    s.len() >= 20 && word_at(s, 4) as int % 2 == 1
}

/// The bytes after the receiving side has filled in the identity of the
/// caller: where the header flags a process id slot, the slot holds
/// `process_id`, whatever the sender wrote there. Other bytes stay.
pub open spec fn stamped(s: Seq<u8>, process_id: u64) -> Seq<u8> {
    if flags_process_id(s) {
        s.subrange(0, 12) + u64_le(process_id) + s.subrange(20, s.len() as int)
    } else {
        s
    }
}

/// A message with the content of its process id slot replaced, if it has
/// such a slot.
pub open spec fn with_process_id(m: MessageView, process_id: u64) -> MessageView {
    MessageView {
        process_id: if m.process_id is Some {
            Some(process_id)
        } else {
            None
        },
        ..m
    }
}

/// Fills in the identity of the caller, as the receiving side does before
/// it decodes: overwrites the process id slot if the header flags one.
pub fn fill_process_id(bytes: &mut Vec<u8>, process_id: u64)
    ensures
        final(bytes)@ == stamped(old(bytes)@, process_id),
{
    if bytes.len() < 20 {
        return ;
    }
    let w1: u32 = read_u32(bytes.as_slice(), 4);
    if w1 % 2 != 1 {
        return ;
    }
    let mut slot: Vec<u8> = Vec::new();
    push_u64(&mut slot, process_id);
    proof {
        lemma_u64_roundtrip(process_id);
    }
    assert(slot@ =~= u64_le(process_id));
    let mut i: usize = 0;
    while i < 8
        invariant
            i <= 8,
            slot@ == u64_le(process_id),
            slot@.len() == 8,
            bytes@.len() == old(bytes)@.len(),
            bytes@.len() >= 20,
            forall|j: int| 0 <= j < 12 ==> bytes@[j] == old(bytes)@[j],
            forall|j: int| 12 <= j < 12 + i ==> bytes@[j] == slot@[j - 12],
            forall|j: int| 12 + i <= j < bytes@.len() ==> bytes@[j] == old(bytes)@[j],
        decreases 8 - i,
    {
        bytes[12 + i] = slot[i];
        i += 1;
    }
    assert(bytes@ =~= stamped(old(bytes)@, process_id));
}

/// A concatenation of nine parts is its first two parts followed by the
/// other seven.
proof fn lemma_regroup(
    h: Seq<u8>,
    a: Seq<u8>,
    b: Seq<u8>,
    c: Seq<u8>,
    d: Seq<u8>,
    f: Seq<u8>,
    g: Seq<u8>,
    y: Seq<u8>,
    t: Seq<u8>,
)
    ensures
        h + a + b + c + d + f + g + y + t == (h + a) + (b + c + d + f + g + y + t),
{
    assert(h + a + b + c + d + f + g + y + t =~= (h + a) + (b + c + d + f + g + y + t));
}

/// Overwriting the second part of a concatenation with a part of the same
/// length gives the concatenation with that part in its place.
proof fn lemma_replace_second(h: Seq<u8>, a: Seq<u8>, a2: Seq<u8>, rest: Seq<u8>)
    requires
        a.len() == a2.len(),
    ensures
        ({
            let s = (h + a) + rest;
            s.subrange(0, h.len() as int) + a2 + s.subrange((h.len() + a.len()) as int, s.len() as int) == (
            h + a2) + rest
        }),
{
    let s = (h + a) + rest;
    assert(s.subrange(0, h.len() as int) =~= h);
    assert(s.subrange((h.len() + a.len()) as int, s.len() as int) =~= rest);
}

/// The second header word of an encoded message is the one its layout
/// gives.
proof fn lemma_flags_word(p: Protocol, m: MessageView, tail: Seq<u8>)
    requires
        encodable(p, m),
    ensures
        (encode_spec(p, m) + tail).len() >= 12,
        word_at(encode_spec(p, m) + tail, 4) == layout_of(p, m).word1(),
        (encode_spec(p, m) + tail).subrange(0, 12) == header_le(layout_of(p, m)),
        (encode_spec(p, m) + tail).len() >= 12 + process_id_slot(m.process_id).len(),
{
    let l = layout_of(p, m);
    let s = encode_spec(p, m) + tail;
    let h = header_le(l);
    lemma_u32_roundtrip(l.word0() as u32);
    lemma_u32_roundtrip(l.word1() as u32);
    lemma_u32_roundtrip(l.payload as u32);
    lemma_parts(
        h,
        process_id_slot(m.process_id),
        domain_slot(m.domain_object_id),
        u32s_le(m.copy_handles),
        u32s_le(m.move_handles),
        descriptors_le(m.buffers),
        data_header(p, m.command),
        m.payload,
        tail,
    );
    assert(h.len() == 12);
    lemma_header_words(l, s);
}

/// The receiver always sees the true identity of the caller: after the
/// process id slot of an encoded message was filled in, the message
/// decodes as it was sent, except that a process id slot holds the value
/// filled in, regardless of what was sent.
pub proof fn lemma_decode_stamped(p: Protocol, m: MessageView, tail: Seq<u8>, process_id: u64)
    requires
        encodable(p, m),
    ensures
        decode_spec(p, stamped(encode_spec(p, m) + tail, process_id)) == Ok::<
            MessageView,
            ResultCode,
        >(with_process_id(m, process_id)),
{
    let l = layout_of(p, m);
    let s = encode_spec(p, m) + tail;
    let changed = with_process_id(m, process_id);
    lemma_flags_word(p, m, tail);
    lemma_sections_len(p, m);
    if m.process_id is Some {
        let h = header_le(l);
        let a = process_id_slot(m.process_id);
        let a2 = u64_le(process_id);
        let b = domain_slot(m.domain_object_id);
        let c = u32s_le(m.copy_handles);
        let d = u32s_le(m.move_handles);
        let f = descriptors_le(m.buffers);
        let g = data_header(p, m.command);
        let y = m.payload;
        let rest = b + c + d + f + g + y + tail;
        lemma_u64_roundtrip(process_id);
        lemma_u32_roundtrip(l.word0() as u32);
        lemma_u32_roundtrip(l.word1() as u32);
        lemma_u32_roundtrip(l.payload as u32);
        assert(h.len() == 12);
        assert(a.len() == 8);
        assert(l.word1() % 2 == 1);
        assert(flags_process_id(s));
        assert(layout_of(p, changed) == l);
        lemma_regroup(h, a, b, c, d, f, g, y, tail);
        lemma_regroup(h, a2, b, c, d, f, g, y, tail);
        lemma_replace_second(h, a, a2, rest);
        assert(stamped(s, process_id) == encode_spec(p, changed) + tail);
        lemma_decode_encode(p, changed, tail);
    } else {
        assert(l.word1() % 2 == 0);
        assert(!flags_process_id(s));
        assert(changed == m);
        lemma_decode_encode(p, m, tail);
    }
}

} // verus!
