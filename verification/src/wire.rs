//! Little-endian integers on byte sequences.
//!
//! Every multi-byte field of a message is stored least significant byte
//! first. The spec functions here say what the bytes of a value are; the
//! executable functions append and read them, and the lemmas state that
//! reading inverts writing.

use vstd::prelude::*;

verus! {

/// The two bytes of a 16-bit value, least significant first.
pub open spec fn u16_le(x: u16) -> Seq<u8> {
    seq![(x as int % 256) as u8, (x as int / 256) as u8]
}

/// The 16-bit value held in the first two bytes of `s`.
pub open spec fn u16_from_le(s: Seq<u8>) -> u16
    recommends
        s.len() >= 2,
{
    (s[0] as int + 256 * (s[1] as int)) as u16
}

/// The four bytes of a 32-bit value, least significant first.
pub open spec fn u32_le(x: u32) -> Seq<u8> {
    seq![
        (x as int % 256) as u8,
        ((x as int / 256) % 256) as u8,
        ((x as int / 65536) % 256) as u8,
        (x as int / 16777216) as u8,
    ]
}

/// The 32-bit value held in the first four bytes of `s`.
pub open spec fn u32_from_le(s: Seq<u8>) -> u32
    recommends
        s.len() >= 4,
{
    (s[0] as int + 256 * (s[1] as int) + 65536 * (s[2] as int) + 16777216 * (s[3] as int)) as u32
}

/// The low 32 bits of a 64-bit value.
pub open spec fn low_word(x: u64) -> u32 {
    (x as int % 0x1_0000_0000) as u32
}

/// The high 32 bits of a 64-bit value.
pub open spec fn high_word(x: u64) -> u32 {
    (x as int / 0x1_0000_0000) as u32
}

/// The eight bytes of a 64-bit value, least significant first.
pub open spec fn u64_le(x: u64) -> Seq<u8> {
    u32_le(low_word(x)) + u32_le(high_word(x))
}

/// The 64-bit value held in the first eight bytes of `s`.
pub open spec fn u64_from_le(s: Seq<u8>) -> u64
    recommends
        s.len() >= 8,
{
    (u32_from_le(s.subrange(0, 4)) as int + 0x1_0000_0000 * (u32_from_le(s.subrange(4, 8)) as int)) as u64
}

/// The bytes of a list of 32-bit values, one after the other.
pub open spec fn u32s_le(ws: Seq<u32>) -> Seq<u8>
    decreases ws.len(),
{
    if ws.len() == 0 {
        Seq::<u8>::empty()
    } else {
        u32s_le(ws.drop_last()) + u32_le(ws.last())
    }
}

/// The list of `n` 32-bit values held in the first `4 * n` bytes of `s`.
pub open spec fn u32s_from_le(s: Seq<u8>, n: nat) -> Seq<u32>
    recommends
        s.len() >= 4 * n,
{
    Seq::new(n, |i: int| u32_from_le(s.subrange(4 * i, 4 * i + 4)))
}

/// Reading a 16-bit value back from its bytes gives the value.
pub proof fn lemma_u16_roundtrip(x: u16)
    ensures
        u16_le(x).len() == 2,
        u16_from_le(u16_le(x)) == x,
{
}

/// Reading a 32-bit value back from its bytes gives the value.
pub proof fn lemma_u32_roundtrip(x: u32)
    ensures
        u32_le(x).len() == 4,
        u32_from_le(u32_le(x)) == x,
{
}

/// Reading a 64-bit value back from its bytes gives the value.
pub proof fn lemma_u64_roundtrip(x: u64)
    ensures
        u64_le(x).len() == 8,
        u64_from_le(u64_le(x)) == x,
{
    let s = u64_le(x);
    assert(s.subrange(0, 4) =~= u32_le(low_word(x)));
    assert(s.subrange(4, 8) =~= u32_le(high_word(x)));
    lemma_u32_roundtrip(low_word(x));
    lemma_u32_roundtrip(high_word(x));
}

/// A list of `n` values takes `4 * n` bytes.
pub proof fn lemma_u32s_len(ws: Seq<u32>)
    ensures
        u32s_le(ws).len() == 4 * ws.len(),
    decreases ws.len(),
{
    if ws.len() > 0 {
        lemma_u32s_len(ws.drop_last());
    }
}

/// The `i`-th group of four bytes of a list's encoding holds its `i`-th
/// value.
pub proof fn lemma_u32s_index(ws: Seq<u32>, i: int)
    requires
        0 <= i < ws.len(),
    ensures
        u32s_le(ws).len() == 4 * ws.len(),
        u32s_le(ws).subrange(4 * i, 4 * i + 4) == u32_le(ws[i]),
    decreases ws.len(),
{
    lemma_u32s_len(ws);
    lemma_u32s_len(ws.drop_last());
    let front = u32s_le(ws.drop_last());
    if i == ws.len() - 1 {
        assert(u32s_le(ws).subrange(4 * i, 4 * i + 4) =~= u32_le(ws.last()));
    } else {
        lemma_u32s_index(ws.drop_last(), i);
        assert(u32s_le(ws).subrange(4 * i, 4 * i + 4) =~= front.subrange(4 * i, 4 * i + 4));
    }
}

/// Reading a list back from its bytes gives the list, whatever follows.
pub proof fn lemma_u32s_roundtrip(ws: Seq<u32>, tail: Seq<u8>)
    ensures
        u32s_from_le(u32s_le(ws) + tail, ws.len()) == ws,
{
    let s = u32s_le(ws) + tail;
    let back = u32s_from_le(s, ws.len());
    lemma_u32s_len(ws);
    assert forall|i: int| 0 <= i < ws.len() implies back[i] == ws[i] by {
        lemma_u32s_index(ws, i);
        assert(s.subrange(4 * i, 4 * i + 4) =~= u32s_le(ws).subrange(4 * i, 4 * i + 4));
        lemma_u32_roundtrip(ws[i]);
    }
    assert(back =~= ws);
}

/// Appending one value to a list appends its four bytes to the encoding.
pub proof fn lemma_u32s_push(ws: Seq<u32>, w: u32)
    ensures
        u32s_le(ws.push(w)) == u32s_le(ws) + u32_le(w),
{
    assert(ws.push(w).drop_last() =~= ws);
}

/// Appends the two bytes of `x`.
pub fn push_u16(out: &mut Vec<u8>, x: u16)
    ensures
        final(out)@ == old(out)@ + u16_le(x),
{
    out.push((x % 256) as u8);
    out.push((x / 256) as u8);
    assert(out@ =~= old(out)@ + u16_le(x));
}

/// Appends the four bytes of `x`.
pub fn push_u32(out: &mut Vec<u8>, x: u32)
    ensures
        final(out)@ == old(out)@ + u32_le(x),
{
    out.push((x % 256) as u8);
    out.push(((x / 256) % 256) as u8);
    out.push(((x / 65536) % 256) as u8);
    out.push((x / 16777216) as u8);
    assert(out@ =~= old(out)@ + u32_le(x));
}

/// Appends the eight bytes of `x`.
pub fn push_u64(out: &mut Vec<u8>, x: u64)
    ensures
        final(out)@ == old(out)@ + u64_le(x),
{
    let low: u32 = (x % 0x1_0000_0000) as u32;
    let high: u32 = (x / 0x1_0000_0000) as u32;
    push_u32(out, low);
    push_u32(out, high);
    assert(out@ =~= old(out)@ + u64_le(x));
}

/// Appends the bytes of every value of `ws`, in order.
pub fn push_u32s(out: &mut Vec<u8>, ws: &Vec<u32>)
    ensures
        final(out)@ == old(out)@ + u32s_le(ws@),
{
    let mut i: usize = 0;
    assert(ws@.subrange(0, 0) =~= Seq::<u32>::empty());
    assert(out@ =~= old(out)@ + u32s_le(ws@.subrange(0, 0)));
    while i < ws.len()
        invariant
            i <= ws@.len(),
            out@ == old(out)@ + u32s_le(ws@.subrange(0, i as int)),
        decreases ws@.len() - i,
    {
        let ghost before = out@;
        push_u32(out, ws[i]);
        proof {
            lemma_u32s_push(ws@.subrange(0, i as int), ws@[i as int]);
            assert(ws@.subrange(0, i as int).push(ws@[i as int]) =~= ws@.subrange(0, i + 1));
            assert(out@ =~= old(out)@ + u32s_le(ws@.subrange(0, i + 1)));
        }
        i += 1;
    }
    assert(ws@.subrange(0, i as int) =~= ws@);
}

/// Appends every byte of `bytes`, in order.
pub fn push_bytes(out: &mut Vec<u8>, bytes: &[u8])
    ensures
        final(out)@ == old(out)@ + bytes@,
{
    let mut i: usize = 0;
    assert(out@ =~= old(out)@ + bytes@.subrange(0, 0));
    while i < bytes.len()
        invariant
            i <= bytes@.len(),
            out@ == old(out)@ + bytes@.subrange(0, i as int),
        decreases bytes@.len() - i,
    {
        out.push(bytes[i]);
        assert(out@ =~= old(out)@ + bytes@.subrange(0, i + 1));
        i += 1;
    }
    assert(bytes@.subrange(0, i as int) =~= bytes@);
}

/// Reads the 16-bit value stored at `pos`.
pub fn read_u16(bytes: &[u8], pos: usize) -> (x: u16)
    requires
        pos + 2 <= bytes@.len(),
    ensures
        x == u16_from_le(bytes@.subrange(pos as int, pos + 2)),
{
    let b0: u16 = bytes[pos] as u16;
    let b1: u16 = bytes[pos + 1] as u16;
    b0 + 256 * b1
}

/// Reads the 32-bit value stored at `pos`.
pub fn read_u32(bytes: &[u8], pos: usize) -> (x: u32)
    requires
        pos + 4 <= bytes@.len(),
    ensures
        x == u32_from_le(bytes@.subrange(pos as int, pos + 4)),
{
    let b0: u32 = bytes[pos] as u32;
    let b1: u32 = bytes[pos + 1] as u32;
    let b2: u32 = bytes[pos + 2] as u32;
    let b3: u32 = bytes[pos + 3] as u32;
    b0 + 256 * b1 + 65536 * b2 + 16777216 * b3
}

/// Reads the 64-bit value stored at `pos`.
pub fn read_u64(bytes: &[u8], pos: usize) -> (x: u64)
    requires
        pos + 8 <= bytes@.len(),
    ensures
        x == u64_from_le(bytes@.subrange(pos as int, pos + 8)),
{
    let total: usize = bytes.len();
    let low: u64 = read_u32(bytes, pos) as u64;
    let high: u64 = read_u32(bytes, pos + 4) as u64;
    proof {
        let s = bytes@.subrange(pos as int, pos + 8);
        assert(s.subrange(0, 4) =~= bytes@.subrange(pos as int, pos + 4));
        assert(s.subrange(4, 8) =~= bytes@.subrange(pos + 4, pos + 8));
    }
    low + 0x1_0000_0000 * high
}

/// Reads the `n` 32-bit values stored from `pos` on.
pub fn read_u32s(bytes: &[u8], pos: usize, n: usize) -> (ws: Vec<u32>)
    requires
        pos + 4 * n <= bytes@.len(),
    ensures
        ws@ == u32s_from_le(bytes@.subrange(pos as int, pos + 4 * n), n as nat),
{
    let total: usize = bytes.len();
    let mut ws: Vec<u32> = Vec::new();
    let mut i: usize = 0;
    let ghost section = bytes@.subrange(pos as int, pos + 4 * n);
    while i < n
        invariant
            i <= n,
            pos + 4 * n <= bytes@.len(),
            bytes@.len() == total,
            section == bytes@.subrange(pos as int, pos + 4 * n),
            ws@.len() == i,
            forall|j: int| 0 <= j < i ==> ws@[j] == u32_from_le(#[trigger] section.subrange(4 * j, 4 * j + 4)),
        decreases n - i,
    {
        let w: u32 = read_u32(bytes, pos + 4 * i);
        assert(section.subrange(4 * i, 4 * i + 4) =~= bytes@.subrange(pos + 4 * i, pos + 4 * i + 4));
        ws.push(w);
        i += 1;
    }
    assert(ws@ =~= u32s_from_le(section, n as nat));
    ws
}

} // verus!
