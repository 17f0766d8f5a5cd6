//! Register values of a thread, and the conversion between timer ticks
//! and nanoseconds.

use vstd::prelude::*;

verus! {

/// A 64-bit general purpose register. Its low half is the 32-bit
/// register of the same number.
#[derive(Clone, Copy, Debug, PartialEq, Eq, Structural)]
pub struct CpuRegister {
    pub reg: u64,
}

impl CpuRegister {
    /// The low 32 bits of the register.
    pub open spec fn low_half(self) -> u32 {
        (self.reg as int % 0x1_0000_0000) as u32
    }

    /// The register as a 64-bit value.
    pub fn get_x(&self) -> (x: u64)
        ensures
            x == self.reg,
    {
        self.reg
    }

    /// Sets the register to a 64-bit value.
    pub fn set_x(&mut self, x: u64)
        ensures
            final(self).reg == x,
    {
        self.reg = x;
    }

    /// The register as a 32-bit value: its low half.
    pub fn get_w(&self) -> (w: u32)
        ensures
            w == self.low_half(),
    {
        (self.reg % 0x1_0000_0000) as u32
    }

    /// Sets the register to a 32-bit value; the high half becomes zero.
    pub fn set_w(&mut self, w: u32)
        ensures
            final(self).reg == w,
            final(self).low_half() == w,
    {
        self.reg = w as u64;
    }

    /// The register as a 32-bit value, under its 32-bit name.
    pub fn get_r(&self) -> (r: u32)
        ensures
            r == self.low_half(),
    {
        (self.reg % 0x1_0000_0000) as u32
    }

    /// Sets the register to a 32-bit value, under its 32-bit name.
    pub fn set_r(&mut self, r: u32)
        ensures
            final(self).reg == r,
            final(self).low_half() == r,
    {
        self.reg = r as u64;
    }
}

impl Default for CpuRegister {
    fn default() -> (r: Self)
        ensures
            r.reg == 0,
    {
        CpuRegister { reg: 0 }
    }
}

/// A 128-bit vector register.
#[derive(Clone, Copy, Debug, PartialEq, Eq, Structural)]
pub struct FpuRegister {
    pub reg: u128,
}

impl FpuRegister {
    /// The register as a 128-bit value.
    pub fn get_v(&self) -> (v: u128)
        ensures
            v == self.reg,
    {
        self.reg
    }

    /// Sets the register to a 128-bit value.
    pub fn set_v(&mut self, v: u128)
        ensures
            final(self).reg == v,
    {
        self.reg = v;
    }
}

impl Default for FpuRegister {
    fn default() -> (r: Self)
        ensures
            r.reg == 0,
    {
        FpuRegister { reg: 0 }
    }
}

/// A choice among the four groups of registers of a thread, one bit for
/// each group.
#[derive(Clone, Copy, Debug, PartialEq, Eq, Structural)]
pub struct RegisterGroup {
    pub bits: u32,
}

impl RegisterGroup {
    /// Whether the two choices have a group in common.
    pub open spec fn meets(self, other: RegisterGroup) -> bool {
        self.bits & other.bits != 0
    }

    /// The general purpose registers of the processor: bit 0.
    pub fn cpu_gprs() -> (g: Self)
        ensures
            g.bits == 1,
    {
        Self { bits: 1 }
    }

    /// The special purpose registers of the processor: bit 1.
    pub fn cpu_sprs() -> (g: Self)
        ensures
            g.bits == 2,
    {
        Self { bits: 2 }
    }

    /// The general purpose registers of the vector unit: bit 2.
    pub fn fpu_gprs() -> (g: Self)
        ensures
            g.bits == 4,
    {
        Self { bits: 4 }
    }

    /// The special purpose registers of the vector unit: bit 3.
    pub fn fpu_sprs() -> (g: Self)
        ensures
            g.bits == 8,
    {
        Self { bits: 8 }
    }

    /// The choice that a word of bits stands for.
    pub fn from(bits: u32) -> (g: Self)
        ensures
            g.bits == bits,
    {
        Self { bits }
    }

    /// The word of bits that stands for the choice.
    pub fn get(&self) -> (bits: u32)
        ensures
            bits == self.bits,
    {
        self.bits
    }

    /// Whether the choice has a group in common with another.
    pub fn contains(&self, other: RegisterGroup) -> (b: bool)
        ensures
            b == self.meets(other),
    {
        (self.bits & other.bits) != 0
    }

    /// The groups of either choice.
    pub fn union(&self, other: RegisterGroup) -> (g: Self)
        ensures
            g.bits == self.bits | other.bits,
    {
        Self { bits: self.bits | other.bits }
    }

    /// The groups of both choices.
    pub fn intersection(&self, other: RegisterGroup) -> (g: Self)
        ensures
            g.bits == self.bits & other.bits,
    {
        Self { bits: self.bits & other.bits }
    }
}

/// The union of two choices has a group in common with a third exactly
/// when one of the two has, and no two of the four groups have anything
/// in common.
pub proof fn lemma_register_groups(a: RegisterGroup, b: RegisterGroup, c: RegisterGroup)
    ensures
        (RegisterGroup { bits: a.bits | b.bits }).meets(c) == (a.meets(c) || b.meets(c)),
        1u32 & 2u32 == 0,
        1u32 & 4u32 == 0,
        1u32 & 8u32 == 0,
        2u32 & 4u32 == 0,
        2u32 & 8u32 == 0,
        4u32 & 8u32 == 0,
{
    let x = a.bits;
    let y = b.bits;
    let z = c.bits;
    assert(((x | y) & z != 0) == ((x & z != 0) || (y & z != 0))) by (bit_vector);
    assert(1u32 & 2u32 == 0 && 1u32 & 4u32 == 0 && 1u32 & 8u32 == 0) by (bit_vector);
    assert(2u32 & 4u32 == 0 && 2u32 & 8u32 == 0 && 4u32 & 8u32 == 0) by (bit_vector);
}

/// The registers of a thread, as the kernel hands them out.
#[derive(Clone, Copy, Debug, PartialEq, Eq, Default)]
pub struct ThreadContext {
    pub gpu_gprs: [CpuRegister; 29],
    pub fp: u64,
    pub lr: u64,
    pub sp: u64,
    pub pc: CpuRegister,
    pub psr: u32,
    pub fpu_gprs: [FpuRegister; 32],
    pub fpcr: u32,
    pub fpsr: u32,
    pub tpidr: u64,
}

/// The nanoseconds that a number of ticks of the 19.2 MHz system timer
/// lasts, rounded down: 625 nanoseconds for every 12 ticks.
pub open spec fn nanoseconds_of(ticks: int) -> int {
    ticks * 625 / 12
}

/// The ticks of the system timer that pass in a number of nanoseconds,
/// rounded down.
pub open spec fn ticks_of(nanoseconds: int) -> int {
    nanoseconds * 12 / 625
}

/// Converts ticks of the system timer to nanoseconds. The result must fit
/// 64 bits, which it does for every span below nine years.
pub fn ticks_to_nanoseconds(ticks: u64) -> (nanoseconds: u64)
    requires
        nanoseconds_of(ticks as int) <= u64::MAX,
    ensures
        nanoseconds == nanoseconds_of(ticks as int),
{
    let wide: u128 = (ticks as u128 * 625) / 12;
    wide as u64
}

/// Converts ticks of the system timer to nanoseconds, if the result fits
/// 64 bits.
pub fn checked_ticks_to_nanoseconds(ticks: u64) -> (nanoseconds: Option<u64>)
    ensures
        nanoseconds is Some <==> nanoseconds_of(ticks as int) <= u64::MAX,
        nanoseconds matches Some(n) ==> n == nanoseconds_of(ticks as int),
{
    let wide: u128 = (ticks as u128 * 625) / 12;
    if wide <= u64::MAX as u128 {
        Some(ticks_to_nanoseconds(ticks))
    } else {
        None
    }
}

/// Converts nanoseconds to ticks of the system timer.
pub fn nanoseconds_to_ticks(nanoseconds: u64) -> (ticks: u64)
    ensures
        ticks == ticks_of(nanoseconds as int),
{
    let wide: u128 = (nanoseconds as u128 * 12) / 625;
    wide as u64
}

/// Converting ticks to nanoseconds and back loses less than one tick, and
/// never gains one.
pub proof fn lemma_ticks_roundtrip(ticks: int)
    requires
        0 <= ticks,
    ensures
        ticks - 1 <= ticks_of(nanoseconds_of(ticks)) <= ticks,
{
}

} // verus!
