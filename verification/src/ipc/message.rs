//! The transaction shape and its two wire encodings.
//!
//! A message is a fixed header, optional process-id and domain-object
//! slots, attached handles and buffer descriptors, and a scalar payload.
//! Both protocol variants lay these sections out in the same order:
//!
//! ```text
//! word 0   type (16 bits) | number of buffer descriptors << 16
//! word 1   flags (bit 0: process id, bit 1: domain object)
//!          | copy handles << 4 | move handles << 8
//! word 2   payload length in bytes
//! [8]      process id slot, when flagged
//! [4]      domain object id, when flagged
//! [4 * n]  copy handles, then move handles
//! [20 * n] buffer descriptors: attribute word, address, size
//! [..]     data header of the variant
//! [..]     payload
//! ```
//!
//! The variants differ in the type word and the data header. The first
//! names the command in a data header behind a magic word and supports
//! domain objects. The second folds the request id into the type word and
//! has no domain objects.

use vstd::prelude::*;
use crate::result::ResultCode;
use crate::wire::{
    lemma_u32_roundtrip, lemma_u64_roundtrip, push_u32, push_u64, read_u32, read_u64, u32_from_le,
    u32_le, u64_from_le, u64_le,
};

verus! {

/// Size in bytes of the shared message region.
pub const MESSAGE_REGION_SIZE: usize = 256;

/// Size in bytes of the fixed header.
pub const HEADER_SIZE: usize = 12;

/// Largest number of handles of one mode, and of buffer descriptors, that
/// the header can count.
pub const MAX_ATTACHMENTS: usize = 15;

/// Size in bytes of one buffer descriptor on the wire.
pub const DESCRIPTOR_SIZE: usize = 20;

/// Type word of a close message in the first variant.
pub const CMIF_TYPE_CLOSE: u32 = 2;

/// Type word of a request in the first variant.
pub const CMIF_TYPE_REQUEST: u32 = 4;

/// Magic word that opens the data header of a request ("SFCI").
pub const CMIF_MAGIC_IN: u32 = 0x4943_4653;

/// Magic word that opens the data header of a response ("SFCO").
pub const CMIF_MAGIC_OUT: u32 = 0x4f43_4653;

/// Type word of a close message in the second variant.
pub const TIPC_TYPE_CLOSE: u32 = 15;

/// Type word of request id 0 in the second variant.
pub const TIPC_TYPE_REQUEST_BASE: u32 = 16;

/// Type word of a response, in both variants.
pub const TYPE_RESPONSE: u32 = 0;

/// One of the two wire encodings.
#[derive(Clone, Copy, Debug, PartialEq, Eq, Structural)]
pub enum Protocol {
    Cmif,
    Tipc,
}

/// What a message asks for or reports.
#[derive(Clone, Copy, Debug, PartialEq, Eq, Structural)]
pub enum Command {
    /// Invoke the command with this request id.
    Request { id: u32 },
    /// The outcome of a request.
    Response { status: ResultCode },
    /// The reserved request that discards the object.
    Close,
}

/// A memory region attached to a message: where it is, how large it is and
/// how it is to be transferred.
#[derive(Clone, Copy, Debug, PartialEq, Eq, Structural)]
pub struct BufferDescriptor {
    pub attribute: u8,
    pub address: u64,
    pub size: u64,
}

/// One request or response, independent of the protocol that carries it.
#[derive(Debug, PartialEq, Eq)]
pub struct Message {
    pub command: Command,
    pub domain_object_id: Option<u32>,
    pub process_id: Option<u64>,
    pub copy_handles: Vec<u32>,
    pub move_handles: Vec<u32>,
    pub buffers: Vec<BufferDescriptor>,
    pub payload: Vec<u8>,
}

/// The mathematical content of a [`Message`].
pub ghost struct MessageView {
    pub command: Command,
    pub domain_object_id: Option<u32>,
    pub process_id: Option<u64>,
    pub copy_handles: Seq<u32>,
    pub move_handles: Seq<u32>,
    pub buffers: Seq<BufferDescriptor>,
    pub payload: Seq<u8>,
}

impl View for Message {
    type V = MessageView;

    open spec fn view(&self) -> MessageView {
        MessageView {
            command: self.command,
            domain_object_id: self.domain_object_id,
            process_id: self.process_id,
            copy_handles: self.copy_handles@,
            move_handles: self.move_handles@,
            buffers: self.buffers@,
            payload: self.payload@,
        }
    }
}

/// The 20 bytes of one buffer descriptor.
pub open spec fn descriptor_le(b: BufferDescriptor) -> Seq<u8> {
    u32_le(b.attribute as u32) + u64_le(b.address) + u64_le(b.size)
}

/// Whether the first 20 bytes of `s` hold a buffer descriptor: the
/// attribute word must fit the attribute's eight bits.
pub open spec fn descriptor_valid(s: Seq<u8>) -> bool {
    u32_from_le(s.subrange(0, 4)) < 256
}

/// The buffer descriptor held in the first 20 bytes of `s`.
pub open spec fn descriptor_from_le(s: Seq<u8>) -> BufferDescriptor {
    BufferDescriptor {
        attribute: u32_from_le(s.subrange(0, 4)) as u8,
        address: u64_from_le(s.subrange(4, 12)),
        size: u64_from_le(s.subrange(12, 20)),
    }
}

/// The bytes of a list of buffer descriptors, one after the other.
pub open spec fn descriptors_le(bs: Seq<BufferDescriptor>) -> Seq<u8>
    decreases bs.len(),
{
    if bs.len() == 0 {
        Seq::<u8>::empty()
    } else {
        descriptors_le(bs.drop_last()) + descriptor_le(bs.last())
    }
}

/// Whether the first `20 * n` bytes of `s` hold `n` buffer descriptors.
pub open spec fn descriptors_valid(s: Seq<u8>, n: nat) -> bool {
    forall|i: int| 0 <= i < n ==> descriptor_valid(#[trigger] s.subrange(20 * i, 20 * i + 20))
}

/// The `n` buffer descriptors held in the first `20 * n` bytes of `s`.
pub open spec fn descriptors_from_le(s: Seq<u8>, n: nat) -> Seq<BufferDescriptor> {
    Seq::new(n, |i: int| descriptor_from_le(s.subrange(20 * i, 20 * i + 20)))
}

/// Reading a descriptor back from its bytes gives the descriptor.
pub proof fn lemma_descriptor_roundtrip(b: BufferDescriptor)
    ensures
        descriptor_le(b).len() == 20,
        descriptor_valid(descriptor_le(b)),
        descriptor_from_le(descriptor_le(b)) == b,
{
    let s = descriptor_le(b);
    lemma_u32_roundtrip(b.attribute as u32);
    lemma_u64_roundtrip(b.address);
    lemma_u64_roundtrip(b.size);
    assert(s.subrange(0, 4) =~= u32_le(b.attribute as u32));
    assert(s.subrange(4, 12) =~= u64_le(b.address));
    assert(s.subrange(12, 20) =~= u64_le(b.size));
}

/// A list of `n` descriptors takes `20 * n` bytes.
pub proof fn lemma_descriptors_len(bs: Seq<BufferDescriptor>)
    ensures
        descriptors_le(bs).len() == 20 * bs.len(),
    decreases bs.len(),
{
    if bs.len() > 0 {
        lemma_descriptors_len(bs.drop_last());
        lemma_descriptor_roundtrip(bs.last());
    }
}

/// The `i`-th group of 20 bytes of a list's encoding holds its `i`-th
/// descriptor.
pub proof fn lemma_descriptors_index(bs: Seq<BufferDescriptor>, i: int)
    requires
        0 <= i < bs.len(),
    ensures
        descriptors_le(bs).len() == 20 * bs.len(),
        descriptors_le(bs).subrange(20 * i, 20 * i + 20) == descriptor_le(bs[i]),
    decreases bs.len(),
{
    lemma_descriptors_len(bs);
    lemma_descriptors_len(bs.drop_last());
    lemma_descriptor_roundtrip(bs.last());
    let front = descriptors_le(bs.drop_last());
    if i == bs.len() - 1 {
        assert(descriptors_le(bs).subrange(20 * i, 20 * i + 20) =~= descriptor_le(bs.last()));
    } else {
        lemma_descriptors_index(bs.drop_last(), i);
        assert(descriptors_le(bs).subrange(20 * i, 20 * i + 20) =~= front.subrange(
            20 * i,
            20 * i + 20,
        ));
    }
}

/// Reading a list of descriptors back from its bytes gives the list,
/// whatever follows.
pub proof fn lemma_descriptors_roundtrip(bs: Seq<BufferDescriptor>, tail: Seq<u8>)
    ensures
        descriptors_valid(descriptors_le(bs) + tail, bs.len()),
        descriptors_from_le(descriptors_le(bs) + tail, bs.len()) == bs,
{
    let s = descriptors_le(bs) + tail;
    let back = descriptors_from_le(s, bs.len());
    lemma_descriptors_len(bs);
    assert forall|i: int| 0 <= i < bs.len() implies descriptor_valid(
        #[trigger] s.subrange(20 * i, 20 * i + 20),
    ) && back[i] == bs[i] by {
        lemma_descriptors_index(bs, i);
        assert(s.subrange(20 * i, 20 * i + 20) =~= descriptors_le(bs).subrange(
            20 * i,
            20 * i + 20,
        ));
        lemma_descriptor_roundtrip(bs[i]);
    }
    assert(back =~= bs);
}

/// Appending one descriptor to a list appends its bytes to the encoding.
pub proof fn lemma_descriptors_push(bs: Seq<BufferDescriptor>, b: BufferDescriptor)
    ensures
        descriptors_le(bs.push(b)) == descriptors_le(bs) + descriptor_le(b),
{
    assert(bs.push(b).drop_last() =~= bs);
}

/// Appends the bytes of every descriptor of `bs`, in order.
pub fn push_descriptors(out: &mut Vec<u8>, bs: &Vec<BufferDescriptor>)
    ensures
        final(out)@ == old(out)@ + descriptors_le(bs@),
{
    let mut i: usize = 0;
    assert(bs@.subrange(0, 0) =~= Seq::<BufferDescriptor>::empty());
    assert(out@ =~= old(out)@ + descriptors_le(bs@.subrange(0, 0)));
    while i < bs.len()
        invariant
            i <= bs@.len(),
            out@ == old(out)@ + descriptors_le(bs@.subrange(0, i as int)),
        decreases bs@.len() - i,
    {
        let b: BufferDescriptor = bs[i];
        let ghost before = out@;
        push_u32(out, b.attribute as u32);
        push_u64(out, b.address);
        push_u64(out, b.size);
        proof {
            assert(out@ =~= before + descriptor_le(b));
            lemma_descriptors_push(bs@.subrange(0, i as int), b);
            assert(bs@.subrange(0, i as int).push(b) =~= bs@.subrange(0, i + 1));
            assert(out@ =~= old(out)@ + descriptors_le(bs@.subrange(0, i + 1)));
        }
        i += 1;
    }
    assert(bs@.subrange(0, i as int) =~= bs@);
}

/// Reads the `n` buffer descriptors stored from `pos` on, or nothing when
/// one of them has an attribute word that is no attribute.
pub fn read_descriptors(bytes: &[u8], pos: usize, n: usize) -> (r: Option<Vec<BufferDescriptor>>)
    requires
        pos + 20 * n <= bytes@.len(),
    ensures
        r is Some <==> descriptors_valid(bytes@.subrange(pos as int, pos + 20 * n), n as nat),
        r matches Some(bs) ==> bs@ == descriptors_from_le(
            bytes@.subrange(pos as int, pos + 20 * n),
            n as nat,
        ),
{
    let total: usize = bytes.len();
    let mut bs: Vec<BufferDescriptor> = Vec::new();
    let mut i: usize = 0;
    let ghost section = bytes@.subrange(pos as int, pos + 20 * n);
    while i < n
        invariant
            i <= n,
            pos + 20 * n <= bytes@.len(),
            bytes@.len() == total,
            section == bytes@.subrange(pos as int, pos + 20 * n),
            bs@.len() == i,
            forall|j: int|
                0 <= j < i ==> descriptor_valid(#[trigger] section.subrange(20 * j, 20 * j + 20))
                    && bs@[j] == descriptor_from_le(section.subrange(20 * j, 20 * j + 20)),
        decreases n - i,
    {
        let at: usize = pos + 20 * i;
        let attribute: u32 = read_u32(bytes, at);
        let address: u64 = read_u64(bytes, at + 4);
        let size: u64 = read_u64(bytes, at + 12);
        proof {
            let one = section.subrange(20 * i, 20 * i + 20);
            assert(one.subrange(0, 4) =~= bytes@.subrange(at as int, at + 4));
            assert(one.subrange(4, 12) =~= bytes@.subrange(at + 4, at + 12));
            assert(one.subrange(12, 20) =~= bytes@.subrange(at + 12, at + 20));
        }
        if attribute >= 256 {
            return None;
        }
        bs.push(BufferDescriptor { attribute: attribute as u8, address, size });
        i += 1;
    }
    assert(bs@ =~= descriptors_from_le(section, n as nat));
    Some(bs)
}

} // verus!
