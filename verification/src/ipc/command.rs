//! Command tables: which handler serves a request id at which versions.
//!
//! A table is scanned in the order in which its entries were declared,
//! and the first entry that accepts the request id at the negotiated
//! version wins. The version is handed in by the caller; nothing here
//! reads it from the process.

use vstd::prelude::*;
use crate::result::{spec_unknown_command, unknown_command, ResultCode};
use crate::version::{lemma_of_rank, Version, MAX_RANK};

verus! {

/// The name of a handler inside its object: the object's own dispatcher
/// maps it to the code that serves the command.
pub type CommandFn = u32;

/// One entry of a command table.
#[derive(Clone, Copy, Debug, PartialEq, Eq, Structural)]
pub struct CommandMetadata {
    pub rq_id: u32,
    pub command_fn: CommandFn,
    pub min_ver: Option<Version>,
    pub max_ver: Option<Version>,
}

/// A command table: its entries in the order in which they were declared.
pub type CommandMetadataTable = Vec<CommandMetadata>;

impl CommandMetadata {
    /// The rank of the oldest version the entry accepts.
    pub open spec fn lowest(self) -> int {
        match self.min_ver {
            Some(v) => v.rank(),
            None => 0,
        }
    }

    /// The rank of the newest version the entry accepts.
    pub open spec fn highest(self) -> int {
        match self.max_ver {
            Some(v) => v.rank(),
            None => MAX_RANK as int,
        }
    }

    /// Whether the version lies within the bounds of the entry. A bound
    /// that is absent does not restrict.
    pub open spec fn accepts_version(self, ver: Version) -> bool {
        self.lowest() <= ver.rank() <= self.highest()
    }

    /// Whether the entry serves the request id at the version.
    pub open spec fn accepts(self, rq_id: u32, ver: Version) -> bool {
        self.accepts_version(ver) && self.rq_id == rq_id
    }

    /// Whether two entries serve the same request id at some common
    /// version.
    pub open spec fn overlaps(self, other: CommandMetadata) -> bool {
        &&& self.rq_id == other.rq_id
        &&& self.lowest() <= other.highest()
        &&& other.lowest() <= self.highest()
        &&& self.lowest() <= self.highest()
        &&& other.lowest() <= other.highest()
    }

    /// An entry that binds a request id to a handler within version
    /// bounds.
    pub fn new(
        rq_id: u32,
        command_fn: CommandFn,
        min_ver: Option<Version>,
        max_ver: Option<Version>,
    ) -> (entry: Self)
        ensures
            entry == (CommandMetadata { rq_id, command_fn, min_ver, max_ver }),
    {
        Self { rq_id, command_fn, min_ver, max_ver }
    }

    /// The rank of the oldest version the entry accepts.
    fn lowest_rank(&self) -> (r: u32)
        ensures
            r == self.lowest(),
            r <= MAX_RANK,
    {
        match self.min_ver {
            Some(v) => v.get_rank(),
            None => 0,
        }
    }

    /// The rank of the newest version the entry accepts.
    fn highest_rank(&self) -> (r: u32)
        ensures
            r == self.highest(),
            r <= MAX_RANK,
    {
        match self.max_ver {
            Some(v) => v.get_rank(),
            None => MAX_RANK,
        }
    }

    /// Whether the negotiated version lies within the bounds of the entry.
    pub fn validate_version(&self, ver: Version) -> (b: bool)
        ensures
            b == self.accepts_version(ver),
    {
        if let Some(min_v) = self.min_ver {
            if ver.lt(&min_v) {
                return false;
            }
        }
        if let Some(max_v) = self.max_ver {
            if max_v.lt(&ver) {
                return false;
            }
        }
        true
    }

    /// Whether the entry serves the request id at the negotiated version.
    pub fn matches(&self, rq_id: u32, ver: Version) -> (b: bool)
        ensures
            b == self.accepts(rq_id, ver),
    {
        self.validate_version(ver) && (self.rq_id == rq_id)
    }

    /// Whether two entries serve the same request id at some common
    /// version.
    pub fn conflicts_with(&self, other: &CommandMetadata) -> (b: bool)
        ensures
            b == self.overlaps(*other),
    {
        self.rq_id == other.rq_id && self.lowest_rank() <= other.highest_rank()
            && other.lowest_rank() <= self.highest_rank() && self.lowest_rank()
            <= self.highest_rank() && other.lowest_rank() <= other.highest_rank()
    }
}

/// Whether entry `i` is the first of the table that serves the request id
/// at the version.
pub open spec fn is_first_match(
    table: Seq<CommandMetadata>,
    rq_id: u32,
    ver: Version,
    i: int,
) -> bool {
    &&& 0 <= i < table.len()
    &&& table[i].accepts(rq_id, ver)
    &&& forall|j: int| 0 <= j < i ==> !(#[trigger] table[j]).accepts(rq_id, ver)
}

/// Whether some entry of the table serves the request id at the version.
pub open spec fn has_match(table: Seq<CommandMetadata>, rq_id: u32, ver: Version) -> bool {
    exists|i: int| 0 <= i < table.len() && (#[trigger] table[i]).accepts(rq_id, ver)
}

/// Whether two entries of the table serve the same request id at some
/// common version.
pub open spec fn has_overlap(table: Seq<CommandMetadata>) -> bool {
    exists|i: int, j: int|
        0 <= i < j < table.len() && (#[trigger] table[i]).overlaps(#[trigger] table[j])
}

/// Finds the first entry that serves the request id at the negotiated
/// version, scanning in declared order.
pub fn find_command(table: &Vec<CommandMetadata>, rq_id: u32, ver: Version) -> (r: Option<usize>)
    ensures
        r is Some <==> has_match(table@, rq_id, ver),
        r matches Some(i) ==> is_first_match(table@, rq_id, ver, i as int),
{
    let mut i: usize = 0;
    while i < table.len()
        invariant
            i <= table@.len(),
            forall|j: int| 0 <= j < i ==> !(#[trigger] table@[j]).accepts(rq_id, ver),
        decreases table@.len() - i,
    {
        if table[i].matches(rq_id, ver) {
            return Some(i);
        }
        i += 1;
    }
    None
}

/// Resolves a request id to the handler bound to it at the negotiated
/// version.
///
/// Gives the handler of the first matching entry. When no entry matches,
/// the command is unsupported at this version, which is reported as the
/// unknown-command status.
pub fn resolve(table: &Vec<CommandMetadata>, rq_id: u32, ver: Version) -> (r: Result<
    CommandFn,
    ResultCode,
>)
    ensures
        r is Ok <==> has_match(table@, rq_id, ver),
        r matches Ok(f) ==> exists|i: int|
            is_first_match(table@, rq_id, ver, i) && f == table@[i].command_fn,
        r matches Err(e) ==> e == spec_unknown_command(),
{
    match find_command(table, rq_id, ver) {
        Some(i) => Ok(table[i].command_fn),
        None => Err(unknown_command()),
    }
}

/// Checks a table for two entries that serve the same request id at some
/// common version. The scan of such a table still picks the first of
/// them; the check lets the author of a table find the mistake.
pub fn find_overlap(table: &Vec<CommandMetadata>) -> (b: bool)
    ensures
        b == has_overlap(table@),
{
    let n: usize = table.len();
    let mut i: usize = 0;
    while i < n
        invariant
            n == table@.len(),
            i <= n,
            forall|a: int, b: int|
                0 <= a < i && a < b < n ==> !(#[trigger] table@[a]).overlaps(#[trigger] table@[b]),
        decreases n - i,
    {
        let mut j: usize = i + 1;
        while j < n
            invariant
                n == table@.len(),
                i < n,
                i < j <= n,
                forall|a: int, b: int|
                    0 <= a < i && a < b < n ==> !(#[trigger] table@[a]).overlaps(
                        #[trigger] table@[b],
                    ),
                forall|b: int| i < b < j ==> !table@[i as int].overlaps(#[trigger] table@[b]),
            decreases n - j,
        {
            if table[i].conflicts_with(&table[j]) {
                return true;
            }
            j += 1;
        }
        i += 1;
    }
    false
}

/// Two entries overlap exactly when they serve the same request id and
/// some version lies within the bounds of both.
pub proof fn lemma_overlap_shares_version(a: CommandMetadata, b: CommandMetadata)
    ensures
        a.overlaps(b) <==> (a.rq_id == b.rq_id && exists|v: Version|
            #![trigger a.accepts_version(v)]
            a.accepts_version(v) && b.accepts_version(v)),
{
    if a.overlaps(b) {
        let rank = if a.lowest() >= b.lowest() {
            a.lowest()
        } else {
            b.lowest()
        };
        lemma_of_rank(rank);
        let v = Version::of_rank(rank);
        assert(a.accepts_version(v) && b.accepts_version(v));
    }
}

/// In a table without overlapping entries at most one entry serves a
/// request id at a version, so the order of the entries decides nothing.
pub proof fn lemma_match_unique(
    table: Seq<CommandMetadata>,
    rq_id: u32,
    ver: Version,
    i: int,
    j: int,
)
    requires
        !has_overlap(table),
        0 <= i < table.len(),
        0 <= j < table.len(),
        table[i].accepts(rq_id, ver),
        table[j].accepts(rq_id, ver),
    ensures
        i == j,
{
    if i < j {
        assert(table[i].overlaps(table[j]));
    }
    if j < i {
        assert(table[j].overlaps(table[i]));
    }
}

} // verus!
