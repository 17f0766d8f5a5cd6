//! Typed arguments of a command and the identity of the object it is sent
//! to: buffer descriptors, mode-tagged handles, the process id slot,
//! object identities and the sessions that own them.

use vstd::math::min;
use vstd::prelude::*;
use vstd::utf8::encode_utf8;
use crate::ipc::codec::{
    decode_spec, encodable, encode, encode_spec, lemma_decode_encode, lemma_encoded_len,
};
use crate::result::ResultCode;
use crate::ipc::message::{
    BufferDescriptor, Command, Message, MessageView, Protocol, MESSAGE_REGION_SIZE,
};

verus! {

/// The buffer holds data that the receiver reads.
pub const ATTR_IN: u8 = 1;

/// The buffer is filled by the receiver.
pub const ATTR_OUT: u8 = 2;

/// The region is mapped into the receiver's address space.
pub const ATTR_MAP_ALIAS: u8 = 4;

/// The region is copied through the receiver's pointer buffer.
pub const ATTR_POINTER: u8 = 8;

/// The size of the region is fixed by the command.
pub const ATTR_FIXED_SIZE: u8 = 16;

/// The runtime picks between mapping and copying.
pub const ATTR_AUTO_SELECT: u8 = 32;

/// The region may cross the boundary between secure and non-secure memory.
pub const ATTR_ALLOW_NON_SECURE: u8 = 64;

/// `ATTR_IN` and `ATTR_MAP_ALIAS`.
pub const IN_MAP_ALIAS: u8 = 5;

/// `ATTR_OUT` and `ATTR_MAP_ALIAS`.
pub const OUT_MAP_ALIAS: u8 = 6;

/// `ATTR_IN`, `ATTR_MAP_ALIAS` and `ATTR_ALLOW_NON_SECURE`.
pub const IN_NON_SECURE_MAP_ALIAS: u8 = 69;

/// `ATTR_OUT`, `ATTR_MAP_ALIAS` and `ATTR_ALLOW_NON_SECURE`.
pub const OUT_NON_SECURE_MAP_ALIAS: u8 = 70;

/// `ATTR_IN` and `ATTR_POINTER`.
pub const IN_POINTER: u8 = 9;

/// `ATTR_OUT` and `ATTR_POINTER`.
pub const OUT_POINTER: u8 = 10;

/// `ATTR_IN` and `ATTR_AUTO_SELECT`.
pub const IN_AUTO_SELECT: u8 = 33;

/// `ATTR_OUT` and `ATTR_AUTO_SELECT`.
pub const OUT_AUTO_SELECT: u8 = 34;

/// How a buffer's region is made visible to the peer.
#[derive(Clone, Copy, Debug, PartialEq, Eq, Structural)]
pub enum TransferMode {
    MapAlias,
    Pointer,
    AutoSelect,
}

/// Whether an attribute tag carries the flag `bit`, a power of two. No
/// tag carries the flag zero.
pub open spec fn has_flag(attribute: u8, bit: u8) -> bool {
    bit != 0 && (attribute as int / bit as int) % 2 == 1
}

/// The transfer mode an attribute tag selects, when it selects exactly one.
pub open spec fn transfer_mode_of(attribute: u8) -> Option<TransferMode> {
    let alias = has_flag(attribute, ATTR_MAP_ALIAS);
    let pointer = has_flag(attribute, ATTR_POINTER);
    let auto_select = has_flag(attribute, ATTR_AUTO_SELECT);
    if alias && !pointer && !auto_select {
        Some(TransferMode::MapAlias)
    } else if !alias && pointer && !auto_select {
        Some(TransferMode::Pointer)
    } else if !alias && !pointer && auto_select {
        Some(TransferMode::AutoSelect)
    } else {
        None
    }
}

/// Whether an attribute tag describes a transfer: it names a direction and
/// exactly one transfer mode.
pub open spec fn attribute_valid(attribute: u8) -> bool {
    &&& has_flag(attribute, ATTR_IN) || has_flag(attribute, ATTR_OUT)
    &&& transfer_mode_of(attribute) is Some
}

/// Tests one flag of an attribute tag.
pub fn attribute_has(attribute: u8, bit: u8) -> (b: bool)
    ensures
        b == has_flag(attribute, bit),
{
    bit != 0 && (attribute / bit) % 2 == 1
}

/// The transfer mode that an attribute tag selects.
pub fn transfer_mode(attribute: u8) -> (mode: Option<TransferMode>)
    ensures
        mode == transfer_mode_of(attribute),
{
    let alias: bool = attribute_has(attribute, ATTR_MAP_ALIAS);
    let pointer: bool = attribute_has(attribute, ATTR_POINTER);
    let auto_select: bool = attribute_has(attribute, ATTR_AUTO_SELECT);
    if alias && !pointer && !auto_select {
        Some(TransferMode::MapAlias)
    } else if !alias && pointer && !auto_select {
        Some(TransferMode::Pointer)
    } else if !alias && !pointer && auto_select {
        Some(TransferMode::AutoSelect)
    } else {
        None
    }
}

/// Whether an attribute tag names a direction and exactly one transfer
/// mode.
pub fn is_valid_attribute(attribute: u8) -> (b: bool)
    ensures
        b == attribute_valid(attribute),
{
    let directed: bool = attribute_has(attribute, ATTR_IN) || attribute_has(attribute, ATTR_OUT);
    directed && transfer_mode(attribute).is_some()
}

/// The index of the first zero byte of `s` at or behind `from`, or the
/// length of `s` when there is none.
pub open spec fn scan(s: Seq<u8>, from: int) -> int
    decreases s.len() - from,
{
    if from < 0 || from >= s.len() || s[from] == 0 {
        from
    } else {
        scan(s, from + 1)
    }
}

/// The text held in a region: the bytes before the first zero byte, or
/// all of them when no byte is zero.
pub open spec fn text_of(region: Seq<u8>) -> Seq<u8> {
    region.subrange(0, scan(region, 0))
}

/// Each byte read as the character with that code.
pub open spec fn as_chars(bytes: Seq<u8>) -> Seq<char> {
    Seq::new(bytes.len(), |i: int| bytes[i] as char)
}

/// `n` zero bytes.
pub open spec fn zeros(n: int) -> Seq<u8> {
    Seq::new(n as nat, |i: int| 0u8)
}

/// A region after text was written into it: as much of the text as fits
/// before a final zero byte, and zero bytes up to the end of the region.
/// An empty region stays empty.
pub open spec fn written(len: int, text: Seq<u8>) -> Seq<u8> {
    if len <= 0 {
        Seq::<u8>::empty()
    } else {
        let kept = min(len - 1, text.len() as int);
        text.subrange(0, kept) + zeros(len - kept)
    }
}

/// The scan stops inside the region, at a zero byte or at the end, and
/// passes no zero byte.
pub proof fn lemma_scan(s: Seq<u8>, from: int)
    requires
        0 <= from <= s.len(),
    ensures
        from <= scan(s, from) <= s.len(),
        scan(s, from) < s.len() ==> s[scan(s, from)] == 0,
        forall|i: int| from <= i < scan(s, from) ==> s[i] != 0,
    decreases s.len() - from,
{
    if from < s.len() && s[from] != 0 {
        lemma_scan(s, from + 1);
    }
}

/// A scan that has passed only non-zero bytes ends where a later scan
/// ends.
proof fn lemma_scan_step(s: Seq<u8>, from: int)
    requires
        0 <= from < s.len(),
        s[from] != 0,
    ensures
        scan(s, from) == scan(s, from + 1),
{
}

/// Text written into a region is read back as it was written, cut to what
/// fits: whatever the length of the input, the region keeps its length,
/// ends in a zero byte, and holds the first `len - 1` bytes of the text
/// when those contain no zero byte.
pub proof fn lemma_text_roundtrip(len: int, text: Seq<u8>)
    requires
        len > 0,
        forall|i: int| 0 <= i < text.len() && i < len - 1 ==> text[i] != 0,
    ensures
        written(len, text).len() == len,
        written(len, text)[len - 1] == 0,
        text_of(written(len, text)) == text.subrange(0, min(len - 1, text.len() as int)),
{
    let kept = min(len - 1, text.len() as int);
    let w = written(len, text);
    lemma_scan(w, 0);
    let stop = scan(w, 0);
    assert(w[kept] == 0);
    if stop < kept {
        assert(w[stop] == text[stop]);
    }
    if stop > kept {
        assert(w[kept] != 0);
    }
    assert(w.subrange(0, kept) =~= text.subrange(0, kept));
}

/// Appends one character to a string by `String::push`, which is
/// documented to append the given character to the end of the string.
#[verifier::external_body]
fn push_char(s: &mut String, c: char)
    ensures
        final(s)@ == old(s)@.push(c),
{
    s.push(c)
}

/// Reads the text held in a region: every byte before the first zero
/// byte, each as the character with that code.
pub fn read_text(region: &[u8]) -> (s: String)
    ensures
        s@ == as_chars(text_of(region@)),
{
    let mut s = String::new();
    let mut i: usize = 0;
    let n: usize = region.len();
    while i < n && region[i] != 0
        invariant
            n == region@.len(),
            i <= n,
            scan(region@, 0) == scan(region@, i as int),
            s@ == as_chars(region@.subrange(0, i as int)),
        decreases n - i,
    {
        proof {
            lemma_scan_step(region@, i as int);
        }
        push_char(&mut s, region[i] as char);
        assert(s@ =~= as_chars(region@.subrange(0, i + 1)));
        i += 1;
    }
    s
}

/// A region of memory attached to a command. `A` is the attribute tag
/// that says how the region is transferred; `S` is the size the command
/// fixes for it, or zero. The descriptor does not own the memory: it only
/// records where the memory is and how large it is.
#[derive(Clone, Copy, Debug, PartialEq, Eq)]
pub struct Buffer<const A: u8, const S: usize> {
    pub buf: usize,
    pub size: usize,
}

/// Data for the receiver, mapped into its address space.
pub type InMapAliasBuffer = Buffer<IN_MAP_ALIAS, 0>;

/// Room for the receiver's answer, mapped into its address space.
pub type OutMapAliasBuffer = Buffer<OUT_MAP_ALIAS, 0>;

/// Data for the receiver, mapped, that may lie in non-secure memory.
pub type InNonSecureMapAliasBuffer = Buffer<IN_NON_SECURE_MAP_ALIAS, 0>;

/// Room for the receiver's answer, mapped, that may lie in non-secure
/// memory.
pub type OutNonSecureMapAliasBuffer = Buffer<OUT_NON_SECURE_MAP_ALIAS, 0>;

/// Data for the receiver, copied through its pointer buffer.
pub type InPointerBuffer = Buffer<IN_POINTER, 0>;

/// Room for the receiver's answer, copied through its pointer buffer.
pub type OutPointerBuffer = Buffer<OUT_POINTER, 0>;

/// Data for the receiver, transferred as the runtime chooses.
pub type InAutoSelectBuffer = Buffer<IN_AUTO_SELECT, 0>;

/// Room for the receiver's answer, transferred as the runtime chooses.
pub type OutAutoSelectBuffer = Buffer<OUT_AUTO_SELECT, 0>;

/// The address and the size that describe the region of `size` bytes at
/// `address`. A region without bytes or without an address is the empty
/// region.
pub open spec fn place_of(address: usize, size: usize) -> (usize, usize) {
    if address == 0 || size == 0 {
        (0usize, 0usize)
    } else {
        (address, size)
    }
}

impl<const A: u8, const S: usize> Buffer<A, S> {
    /// The address is null exactly when the size is zero.
    pub open spec fn wf(self) -> bool {
        self.buf == 0 <==> self.size == 0
    }

    /// The address and the size, as a pair.
    pub open spec fn place(self) -> (usize, usize) {
        (self.buf, self.size)
    }

    /// The descriptor that goes on the wire for this buffer.
    pub open spec fn descriptor_of(self) -> BufferDescriptor {
        BufferDescriptor { attribute: A, address: self.buf as u64, size: self.size as u64 }
    }

    /// The part of `memory` that the descriptor covers.
    pub open spec fn window(self, memory: Seq<u8>) -> Seq<u8> {
        memory.subrange(0, min(self.size as int, memory.len() as int))
    }

    /// The empty region.
    pub fn new() -> (b: Self)
        ensures
            b.buf == 0,
            b.size == 0,
            b.wf(),
    {
        Self { buf: 0, size: 0 }
    }

    /// The same region under another attribute tag.
    pub fn from_other<const B: u8, const Z: usize>(other: Buffer<B, Z>) -> (b: Self)
        ensures
            b.buf == other.buf,
            b.size == other.size,
            other.wf() ==> b.wf(),
    {
        Self { buf: other.buf, size: other.size }
    }

    /// The region of `size` bytes at the address `buf`, for data that is
    /// only read.
    pub fn from_const(buf: usize, size: usize) -> (b: Self)
        ensures
            b.place() == place_of(buf, size),
            b.wf(),
    {
        if buf == 0 || size == 0 {
            Self { buf: 0, size: 0 }
        } else {
            Self { buf, size }
        }
    }

    /// The region of `size` bytes at the address `buf`, for data that may
    /// be written.
    pub fn from_mut(buf: usize, size: usize) -> (b: Self)
        ensures
            b.place() == place_of(buf, size),
            b.wf(),
    {
        Self::from_const(buf, size)
    }

    /// The region that holds one value of type `T` at the address `buf`.
    pub fn from_var<T>(buf: usize, var: &T) -> (b: Self)
        ensures
            b.place() == place_of(buf, vstd::layout::size_of::<T>() as usize),
            b.wf(),
    {
        Self::from_const(buf, core::mem::size_of::<T>())
    }

    /// The region that holds the elements of `arr` at the address `buf`.
    pub fn from_array<T>(buf: usize, arr: &[T]) -> (b: Self)
        requires
            arr@.len() * vstd::layout::size_of::<T>() <= usize::MAX,
        ensures
            b.place() == place_of(buf, (arr@.len() * vstd::layout::size_of::<T>()) as usize),
            b.wf(),
    {
        let each: usize = core::mem::size_of::<T>();
        let count: usize = arr.len();
        assert(count * each == arr@.len() * vstd::layout::size_of::<T>());
        Self::from_const(buf, count * each)
    }

    /// The descriptor that goes on the wire for this buffer: its attribute
    /// tag, its address and its size.
    pub fn descriptor(&self) -> (d: BufferDescriptor)
        ensures
            d == self.descriptor_of(),
    {
        BufferDescriptor { attribute: A, address: self.buf as u64, size: self.size as u64 }
    }

    /// The attribute tag of this buffer type.
    pub fn attribute(&self) -> (a: u8)
        ensures
            a == A,
    {
        A
    }

    /// The number of whole elements of `each` bytes that the region holds.
    pub fn element_count(&self, each: usize) -> (n: usize)
        requires
            each > 0,
        ensures
            n == self.size as int / each as int,
    {
        self.size / each
    }

    /// The text held in the region: the bytes of `memory`, which is the
    /// memory the descriptor names, up to the first zero byte or the end
    /// of the region.
    pub fn get_string(&self, memory: &[u8]) -> (s: String)
        ensures
            s@ == as_chars(text_of(self.window(memory@))),
    {
        let n: usize = if self.size < memory.len() { self.size } else { memory.len() };
        read_text(vstd::slice::slice_subrange(memory, 0, n))
    }

    /// Writes text into the region: zero-fills the region, then copies
    /// the bytes of `string` that leave room for a final zero byte.
    /// `memory` is the memory the descriptor names; nothing outside the
    /// region is changed.
    pub fn set_string(&mut self, memory: &mut [u8], string: String)
        ensures
            *final(self) == *old(self),
            final(memory)@.len() == old(memory)@.len(),
            final(self).window(final(memory)@) == written(
                old(self).window(old(memory)@).len() as int,
                encode_utf8(string@),
            ),
            forall|i: int|
                old(self).size <= i < old(memory)@.len() ==> final(memory)@[i] == old(memory)@[i],
    {
        let text: &[u8] = string.as_str().as_bytes();
        let total: usize = memory.len();
        let n: usize = if self.size < total { self.size } else { total };
        let mut i: usize = 0;
        while i < n
            invariant
                memory@.len() == total,
                n <= total,
                i <= n,
                forall|j: int| 0 <= j < i ==> memory@[j] == 0,
                forall|j: int| n <= j < total ==> memory@[j] == old(memory)@[j],
            decreases n - i,
        {
            memory[i] = 0;
            i += 1;
        }
        if n == 0 {
            assert(self.window(memory@) =~= written(0, text@));
            return ;
        }
        let kept: usize = if text.len() < n - 1 { text.len() } else { n - 1 };
        let mut k: usize = 0;
        while k < kept
            invariant
                memory@.len() == total,
                n <= total,
                k <= kept,
                kept < n,
                kept <= text@.len(),
                forall|j: int| 0 <= j < k ==> memory@[j] == text@[j],
                forall|j: int| k <= j < n ==> memory@[j] == 0,
                forall|j: int| n <= j < total ==> memory@[j] == old(memory)@[j],
            decreases kept - k,
        {
            memory[k] = text[k];
            k += 1;
        }
        assert(self.window(memory@) =~= written(n as int, text@));
    }
}

/// Whether a handle stays with the sender or leaves it.
#[derive(Clone, Copy, Debug, PartialEq, Eq, Structural)]
pub enum HandleMode {
    /// The receiver gets a duplicate; the sender's handle stays valid.
    Copy,
    /// The receiver gets the handle; the sender's handle becomes invalid.
    Move,
}

/// A reference to a kernel object, tagged with its transfer mode: `MOVE`
/// is `false` for a handle that is duplicated and `true` for one whose
/// ownership is transferred.
#[derive(Clone, Copy, Debug, PartialEq, Eq)]
pub struct Handle<const MOVE: bool> {
    pub handle: u32,
}

/// A handle that the receiver gets a duplicate of.
pub type CopyHandle = Handle<false>;

/// A handle that passes to the receiver.
pub type MoveHandle = Handle<true>;

impl<const MOVE: bool> Handle<MOVE> {
    /// The transfer mode that the type carries.
    pub open spec fn mode_of(self) -> HandleMode {
        if MOVE {
            HandleMode::Move
        } else {
            HandleMode::Copy
        }
    }

    /// Tags a raw handle.
    pub fn from(handle: u32) -> (h: Self)
        ensures
            h.handle == handle,
    {
        Self { handle }
    }

    /// The transfer mode of this handle.
    pub fn mode(&self) -> (mode: HandleMode)
        ensures
            mode == self.mode_of(),
    {
        if MOVE {
            HandleMode::Move
        } else {
            HandleMode::Copy
        }
    }
}

/// The slot in which the receiver finds the identity of the caller. The
/// sender leaves it zero; the kernel fills in the true value.
#[derive(Clone, Copy, Debug, PartialEq, Eq, Structural)]
pub struct ProcessId {
    pub process_id: u64,
}

impl ProcessId {
    /// A slot that holds the given value.
    pub fn from(process_id: u64) -> (p: Self)
        ensures
            p.process_id == process_id,
    {
        Self { process_id }
    }

    /// The zero slot that a sender passes.
    pub fn new() -> (p: Self)
        ensures
            p.process_id == 0,
    {
        Self::from(0)
    }
}

/// The identity of one remote or local object: the handle of its session,
/// its id inside a domain if it lives in one, and whether the holder of
/// this identity owns the handle. Only an owning identity may close its
/// handle. An identity is never duplicated: `borrowed` gives a second one
/// that does not own.
#[derive(Debug, PartialEq, Eq, Structural)]
pub struct ObjectInfo {
    pub handle: u32,
    pub domain_object_id: Option<u32>,
    pub owns_handle: bool,
}

impl ObjectInfo {
    /// The identity of no object.
    pub open spec fn invalid() -> ObjectInfo {
        ObjectInfo { handle: 0, domain_object_id: None, owns_handle: false }
    }

    /// An identity is valid when it has a handle or a domain object id.
    pub open spec fn valid(self) -> bool {
        self.handle != 0 || self.domain_object_id is Some
    }

    /// The identity of no object.
    pub fn new() -> (info: Self)
        ensures
            info == ObjectInfo::invalid(),
            !info.valid(),
    {
        Self { handle: 0, domain_object_id: None, owns_handle: false }
    }

    /// The owning identity of the object behind a freshly connected handle.
    pub fn from_handle(handle: u32) -> (info: Self)
        ensures
            info == (ObjectInfo { handle, domain_object_id: None, owns_handle: true }),
    {
        Self { handle, domain_object_id: None, owns_handle: true }
    }

    /// The identity of an object inside the domain of the session `handle`.
    /// The handle belongs to the domain's session, so this identity does
    /// not own it.
    pub fn from_domain_object_id(handle: u32, domain_object_id: u32) -> (info: Self)
        ensures
            info == (ObjectInfo {
                handle,
                domain_object_id: Some(domain_object_id),
                owns_handle: false,
            }),
            info.valid(),
    {
        Self { handle, domain_object_id: Some(domain_object_id), owns_handle: false }
    }

    /// Whether the identity names an object.
    pub fn is_valid(&self) -> (b: bool)
        ensures
            b == self.valid(),
    {
        self.handle != 0 || self.domain_object_id.is_some()
    }

    /// Whether the object lives inside a domain.
    pub fn is_domain(&self) -> (b: bool)
        ensures
            b == (self.domain_object_id is Some),
    {
        self.domain_object_id.is_some()
    }

    /// A second identity of the same object that does not own the handle.
    pub fn borrowed(&self) -> (info: Self)
        ensures
            info == (ObjectInfo {
                handle: self.handle,
                domain_object_id: self.domain_object_id,
                owns_handle: false,
            }),
            info.valid() == self.valid(),
    {
        Self { handle: self.handle, domain_object_id: self.domain_object_id, owns_handle: false }
    }
}

/// The domain object that the close request of a protocol names: the
/// object of the identity where the protocol has domain objects, none
/// where it has not.
pub open spec fn close_target(p: Protocol, domain_object_id: Option<u32>) -> Option<u32> {
    if p == Protocol::Cmif {
        domain_object_id
    } else {
        None
    }
}

/// The message that tells the peer that an object is discarded.
pub open spec fn close_message(domain_object_id: Option<u32>) -> MessageView {
    MessageView {
        command: Command::Close,
        domain_object_id,
        process_id: None,
        copy_handles: Seq::<u32>::empty(),
        move_handles: Seq::<u32>::empty(),
        buffers: Seq::<BufferDescriptor>::empty(),
        payload: Seq::<u8>::empty(),
    }
}

/// What is left to do after a session was closed.
#[derive(Debug, PartialEq, Eq)]
pub enum CloseAction {
    /// The session owned nothing: no call is to be made.
    Nothing,
    /// The session owned its handle. Send `notice` to the peer through
    /// `handle`, ignoring any failure, then release `handle`. A session
    /// that is closed always gives a notice.
    Release { handle: u32, notice: Option<Vec<u8>> },
}

/// A channel to one object. A session is the only owner of its object
/// identity: it cannot be copied, and it keeps the protocol it was
/// connected with for as long as it lives.
#[derive(Debug, PartialEq, Eq)]
pub struct Session {
    object_info: ObjectInfo,
    protocol: Protocol,
}

impl Session {
    /// The object identity that the session holds.
    pub closed spec fn info_of(self) -> ObjectInfo {
        self.object_info
    }

    /// The protocol that the session was connected with.
    pub closed spec fn protocol_of(self) -> Protocol {
        self.protocol
    }

    /// The session of an object identity that speaks a protocol.
    pub closed spec fn of(info: ObjectInfo, protocol: Protocol) -> Session {
        Session { object_info: info, protocol }
    }

    /// Whether closing the session releases its handle.
    pub open spec fn must_release(self) -> bool {
        self.info_of().valid() && self.info_of().owns_handle
    }

    /// The session after it was closed: a valid session has lost its
    /// identity and kept its protocol; a session without a valid identity
    /// is as it was.
    pub closed spec fn closed(self) -> Session {
        if self.object_info.valid() {
            Session { object_info: ObjectInfo::invalid(), protocol: self.protocol }
        } else {
            self
        }
    }

    /// The notice that closing the session sends to the peer: the close
    /// request of the session's protocol and nothing else, addressed to
    /// the domain object of the identity where the protocol has domain
    /// objects.
    pub open spec fn notice_of(self) -> Seq<u8> {
        encode_spec(
            self.protocol_of(),
            close_message(close_target(self.protocol_of(), self.info_of().domain_object_id)),
        )
    }

    /// Whether `action` is what closing this session asks for when it owns
    /// its handle: the release of that handle, after the notice.
    pub open spec fn asks_release(self, action: CloseAction) -> bool {
        &&& action matches CloseAction::Release { handle, notice }
        &&& handle == self.info_of().handle
        &&& notice matches Some(bytes)
        &&& bytes@ == self.notice_of()
    }

    /// A session of no object.
    pub fn new() -> (s: Self)
        ensures
            s.info_of() == ObjectInfo::invalid(),
            s.protocol_of() == Protocol::Cmif,
    {
        Self { object_info: ObjectInfo::new(), protocol: Protocol::Cmif }
    }

    /// The session of an inherited object identity.
    pub fn from(object_info: ObjectInfo) -> (s: Self)
        ensures
            s.info_of() == object_info,
            s.protocol_of() == Protocol::Cmif,
    {
        Self { object_info, protocol: Protocol::Cmif }
    }

    /// The owning session of a freshly connected handle.
    pub fn from_handle(handle: u32) -> (s: Self)
        ensures
            s.info_of() == (ObjectInfo { handle, domain_object_id: None, owns_handle: true }),
            s.protocol_of() == Protocol::Cmif,
    {
        Self::from(ObjectInfo::from_handle(handle))
    }

    /// The session of an object identity that speaks the given protocol.
    pub fn with_protocol(object_info: ObjectInfo, protocol: Protocol) -> (s: Self)
        ensures
            s == Session::of(object_info, protocol),
            s.info_of() == object_info,
            s.protocol_of() == protocol,
    {
        Self { object_info, protocol }
    }

    /// The protocol that the session was connected with.
    pub fn get_protocol(&self) -> (p: Protocol)
        ensures
            p == self.protocol_of(),
    {
        self.protocol
    }

    /// The object identity, for reading.
    pub fn info(&self) -> (info: &ObjectInfo)
        ensures
            *info == self.info_of(),
    {
        &self.object_info
    }

    /// The object identity, for reading and changing in place.
    pub fn get_info(&mut self) -> (info: &mut ObjectInfo)
        ensures
            *info == old(self).info_of(),
            final(self).info_of() == *final(info),
            final(self).protocol_of() == old(self).protocol_of(),
    {
        &mut self.object_info
    }

    /// Replaces the object identity. The protocol stays.
    pub fn set_info(&mut self, info: ObjectInfo)
        ensures
            final(self).info_of() == info,
            final(self).protocol_of() == old(self).protocol_of(),
    {
        self.object_info = info;
    }

    /// Closes the session and says what calls remain to be made.
    ///
    /// A session without a valid identity is left as it is and asks for
    /// nothing. A valid session that owns its handle asks for the handle
    /// to be released, after the close request was sent to the peer; a
    /// valid session that does not own its handle asks for nothing.
    /// Either valid session has the identity of no object afterwards, so
    /// that closing it again asks for nothing.
    pub fn close(&mut self) -> (action: CloseAction)
        ensures
            *final(self) == old(self).closed(),
            final(self).protocol_of() == old(self).protocol_of(),
            !old(self).info_of().valid() ==> *final(self) == *old(self) && action
                == CloseAction::Nothing,
            old(self).info_of().valid() ==> final(self).info_of() == ObjectInfo::invalid(),
            !old(self).must_release() ==> action == CloseAction::Nothing,
            old(self).must_release() ==> old(self).asks_release(action),
            old(self).notice_of().len() <= MESSAGE_REGION_SIZE,
            decode_spec(old(self).protocol_of(), old(self).notice_of()) == Ok::<
                MessageView,
                ResultCode,
            >(
                close_message(
                    close_target(old(self).protocol_of(), old(self).info_of().domain_object_id),
                ),
            ),
    {
        proof {
            lemma_close_notice(self.protocol, self.object_info.domain_object_id, Seq::<u8>::empty());
            lemma_encoded_len(
                self.protocol,
                close_message(close_target(self.protocol, self.object_info.domain_object_id)),
            );
            assert(self.notice_of() + Seq::<u8>::empty() =~= self.notice_of());
        }
        let mut action = CloseAction::Nothing;
        if self.object_info.is_valid() {
            if self.object_info.owns_handle {
                let target: Option<u32> = match self.protocol {
                    Protocol::Cmif => self.object_info.domain_object_id,
                    Protocol::Tipc => None,
                };
                let message = Message {
                    command: Command::Close,
                    domain_object_id: target,
                    process_id: None,
                    copy_handles: Vec::new(),
                    move_handles: Vec::new(),
                    buffers: Vec::new(),
                    payload: Vec::new(),
                };
                assert(message@ =~= close_message(target));
                let notice: Option<Vec<u8>> = match encode(self.protocol, &message) {
                    Ok(bytes) => Some(bytes),
                    Err(e) => {
                        assert(false);
                        None
                    },
                };
                action = CloseAction::Release { handle: self.object_info.handle, notice };
            }
            self.object_info = ObjectInfo::new();
        }
        action
    }
}

/// Every protocol can express its close request, for every identity, and
/// the request decodes to the bare close message: no handle, no buffer,
/// no process id and no payload.
pub proof fn lemma_close_notice(p: Protocol, domain_object_id: Option<u32>, tail: Seq<u8>)
    ensures
        encodable(p, close_message(close_target(p, domain_object_id))),
        decode_spec(p, encode_spec(p, close_message(close_target(p, domain_object_id))) + tail)
            == Ok::<MessageView, ResultCode>(close_message(close_target(p, domain_object_id))),
{
    lemma_decode_encode(p, close_message(close_target(p, domain_object_id)), tail);
}

/// A session is its identity and its protocol, and the session of an
/// identity and a protocol has that identity and that protocol.
pub proof fn lemma_session_of(info: ObjectInfo, protocol: Protocol)
    ensures
        Session::of(info, protocol).info_of() == info,
        Session::of(info, protocol).protocol_of() == protocol,
        forall|s: Session| #[trigger] Session::of(s.info_of(), s.protocol_of()) == s,
{
}

/// Closing is idempotent: a closed session has no valid identity and
/// releases nothing, and closing it again leaves it as it is. Closing a
/// valid session takes its identity away; closing any other session
/// changes nothing. A session that does not own its handle never releases
/// it.
pub proof fn lemma_close_idempotent(s: Session)
    ensures
        s == Session::of(s.info_of(), s.protocol_of()),
        !s.closed().info_of().valid(),
        !s.closed().must_release(),
        s.closed().closed() == s.closed(),
        s.info_of().valid() ==> s.closed().info_of() == ObjectInfo::invalid(),
        !s.info_of().valid() ==> s.closed() == s,
        s.closed().protocol_of() == s.protocol_of(),
        !s.info_of().owns_handle ==> !s.must_release(),
{
}

} // verus!
