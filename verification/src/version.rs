//! The negotiated system version and its total order.

use vstd::prelude::*;

verus! {

/// A three-part version number, ordered by major, then minor, then micro.
#[derive(Clone, Copy, Debug, PartialEq, Eq, PartialOrd, Ord, Structural)]
pub struct Version {
    pub major: u8,
    pub minor: u8,
    pub micro: u8,
}

/// The largest rank any version can have.
pub const MAX_RANK: u32 = 0xff_ffff;

impl Version {
    /// The position of this version in the total order: versions compare
    /// exactly as their ranks do.
    pub open spec fn rank(self) -> int {
        self.major as int * 65536 + self.minor as int * 256 + self.micro as int
    }

    /// The version that has the given rank.
    pub open spec fn of_rank(rank: int) -> Version {
        Version {
            major: (rank / 65536) as u8,
            minor: ((rank / 256) % 256) as u8,
            micro: (rank % 256) as u8,
        }
    }

    /// Builds a version from its three parts.
    pub fn new(major: u8, minor: u8, micro: u8) -> (v: Self)
        ensures
            v == (Version { major, minor, micro }),
    {
        Self { major, minor, micro }
    }

    /// The rank as a machine integer.
    pub fn get_rank(&self) -> (r: u32)
        ensures
            r == self.rank(),
            r <= MAX_RANK,
    {
        let major: u32 = self.major as u32;
        let minor: u32 = self.minor as u32;
        let micro: u32 = self.micro as u32;
        major * 65536 + minor * 256 + micro
    }

    /// Whether `self` is `other` or older.
    pub fn le(&self, other: &Version) -> (b: bool)
        ensures
            b == (self.rank() <= other.rank()),
    {
        self.get_rank() <= other.get_rank()
    }

    /// Whether `self` is strictly older than `other`.
    pub fn lt(&self, other: &Version) -> (b: bool)
        ensures
            b == (self.rank() < other.rank()),
    {
        self.get_rank() < other.get_rank()
    }
}

/// The order on versions is total and antisymmetric: two versions with the
/// same rank are the same version, and of two versions one is never newer
/// than the other while also being older.
pub proof fn lemma_rank_is_total_order(a: Version, b: Version)
    ensures
        0 <= a.rank() <= MAX_RANK,
        a.rank() == b.rank() <==> a == b,
        a.rank() <= b.rank() || b.rank() <= a.rank(),
{
}

/// Ranks and versions correspond one to one.
pub proof fn lemma_of_rank(rank: int)
    requires
        0 <= rank <= MAX_RANK,
    ensures
        Version::of_rank(rank).rank() == rank,
{
}

} // verus!
