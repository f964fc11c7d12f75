//! Deterministic partitioning of the filtered test set into disjoint shards.

use vstd::prelude::*;
use vstd::arithmetic::div_mod::lemma_mod_bound;
use crate::stable_hash::spec_stable_hash;

verus! {

/// How cases are assigned to shards: by the stable hash of their identifier,
/// or round-robin by position in the filtered sequence.
#[derive(Clone, Copy, PartialEq, Eq, Structural, Debug)]
pub enum PartitionKind {
    Hash,
    Count,
}

/// A validated partition rule: run shard `index` (1-based) out of `total`
/// disjoint shards. Construction enforces `1 <= index <= total`.
#[derive(Clone, Copy, PartialEq, Eq, Structural, Debug)]
pub struct Partitioner {
    pub kind: PartitionKind,
    pub index: u64,
    pub total: u64,
}

/// An invalid partition rule is rejected when the selection is constructed,
/// before any case executes.
#[derive(Clone, Copy, PartialEq, Eq, Structural, Debug)]
pub enum SelectionError {
    InvalidPartition { index: u64, total: u64 },
}

impl Partitioner {
    /// A well-formed rule has a 1-based index within its shard count.
    pub open spec fn wf(&self) -> bool {
        1 <= self.index <= self.total
    }

    /// Validate and build a partition rule. Succeeds exactly when
    /// `1 <= index <= total`; `total == 0` or an out-of-range index is a
    /// construction-time error.
    pub fn new(kind: PartitionKind, index: u64, total: u64) -> (r: Result<
        Partitioner,
        SelectionError,
    >)
        ensures
            (r is Ok) <==> 1 <= index <= total,
            r matches Ok(p) ==> p == (Partitioner { kind, index, total }) && p.wf(),
            r matches Err(e) ==> e == (SelectionError::InvalidPartition { index, total }),
    {
        if 1 <= index && index <= total {
            Ok(Partitioner { kind, index, total })
        } else {
            Err(SelectionError::InvalidPartition { index, total })
        }
    }
}

/// The shard (1-based) that a case belongs to, for a given rule kind and
/// shard count: its stable identifier hash modulo `total` for hash
/// partitioning, its position in the filtered sequence modulo `total` for
/// round-robin partitioning.
pub open spec fn spec_shard(
    kind: PartitionKind,
    total: u64,
    bin: Seq<char>,
    name: Seq<char>,
    fpos: nat,
) -> int
    recommends
        total >= 1,
{
    match kind {
        PartitionKind::Hash => (spec_stable_hash(bin, name) as int) % (total as int) + 1,
        PartitionKind::Count => (fpos as int) % (total as int) + 1,
    }
}

/// True when the rule `p` selects the case with identifier view
/// (`bin`, `name`) standing at position `fpos` of the filtered sequence.
pub open spec fn partition_selects(p: Partitioner, bin: Seq<char>, name: Seq<char>,
    fpos: nat) -> bool {
    spec_shard(p.kind, p.total, bin, name, fpos) == p.index
}

/// The shard of a case is always in range.
pub proof fn lemma_shard_in_range(
    kind: PartitionKind,
    total: u64,
    bin: Seq<char>,
    name: Seq<char>,
    fpos: nat,
)
    requires
        total >= 1,
    ensures
        1 <= spec_shard(kind, total, bin, name, fpos) <= total,
{
    match kind {
        PartitionKind::Hash => {
            lemma_mod_bound(spec_stable_hash(bin, name) as int, total as int);
        },
        PartitionKind::Count => {
            lemma_mod_bound(fpos as int, total as int);
        },
    }
}

/// Partition disjointness and exhaustiveness, per case: for any valid shard
/// count, exactly one shard index in `1..=total` selects a given case, namely
/// its shard value; so the union of all shards covers each case once.
pub proof fn lemma_partition_disjoint_exhaustive(
    kind: PartitionKind,
    total: u64,
    bin: Seq<char>,
    name: Seq<char>,
    fpos: nat,
)
    requires
        total >= 1,
    ensures
        1 <= spec_shard(kind, total, bin, name, fpos) <= total,
        forall|i: u64|
            1 <= i <= total ==> (partition_selects(Partitioner { kind, index: i, total }, bin, name, fpos)
                <==> i == spec_shard(kind, total, bin, name, fpos)),
{
    lemma_shard_in_range(kind, total, bin, name, fpos);
}

/// Hash-based partitioning is deterministic: the shard of an identifier
/// depends only on its characters and the shard count, never on the position
/// of the case in the filtered sequence or on the invocation.
pub proof fn lemma_hash_partition_deterministic(
    total: u64,
    b1: Seq<char>,
    n1: Seq<char>,
    p1: nat,
    b2: Seq<char>,
    n2: Seq<char>,
    p2: nat,
)
    requires
        total >= 1,
        b1 == b2,
        n1 == n2,
    ensures
        spec_shard(PartitionKind::Hash, total, b1, n1, p1) == spec_shard(PartitionKind::Hash,
            total, b2, n2, p2),
{
}

/// Compute the shard of a hash value.
pub fn hash_shard(h: u64, total: u64) -> (s: u64)
    requires
        total >= 1,
    ensures
        s == h % total + 1,
        1 <= s <= total,
{
    proof {
        lemma_mod_bound(h as int, total as int);
    }
    h % total + 1
}

/// Compute the shard of a filtered-sequence position.
pub fn count_shard(fpos: usize, total: u64) -> (s: u64)
    requires
        total >= 1,
    ensures
        s == (fpos as int) % (total as int) + 1,
        1 <= s <= total,
{
    proof {
        lemma_mod_bound(fpos as int, total as int);
    }
    (fpos as u64) % total + 1
}

} // verus!
