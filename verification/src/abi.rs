//! The shared vocabulary of the distribution layer: result codes, strategies,
//! partitions of a collection across locales, gather results and memory budgets.

use vstd::prelude::*;
use crate::text::str_eq;

verus! {

/// FFI result codes shared with the native runtime.
#[derive(Debug, Clone, Copy, PartialEq, Eq, Structural)]
pub enum FfiResult {
    /// Operation succeeded (0)
    Success,
    /// Generic error (1)
    Error,
    /// Invalid parameter (2)
    InvalidParam,
    /// Out of memory, buffer too small (3)
    OutOfMemory,
    /// Null pointer in FFI call (4)
    NullPointer,
    /// Item processing failed after all retries (5)
    RetryExhausted,
    /// Checkpoint save/load failed (6)
    CheckpointError,
}

/// The integer that stands for each result code at the C boundary.
pub open spec fn ffi_result_code(r: FfiResult) -> i32 {
    match r {
        FfiResult::Success => 0,
        FfiResult::Error => 1,
        FfiResult::InvalidParam => 2,
        FfiResult::OutOfMemory => 3,
        FfiResult::NullPointer => 4,
        FfiResult::RetryExhausted => 5,
        FfiResult::CheckpointError => 6,
    }
}

impl FfiResult {
    /// The integer that stands for this result code at the C boundary.
    pub fn code(self) -> (c: i32)
        ensures
            c == ffi_result_code(self),
    {
        match self {
            FfiResult::Success => 0,
            FfiResult::Error => 1,
            FfiResult::InvalidParam => 2,
            FfiResult::OutOfMemory => 3,
            FfiResult::NullPointer => 4,
            FfiResult::RetryExhausted => 5,
            FfiResult::CheckpointError => 6,
        }
    }
}

/// How the items of a workload are distributed across locales.
#[derive(Debug, Clone, Copy, PartialEq, Eq, Structural)]
pub enum PartitionStrategy {
    /// Even distribution: locale i gets items [i*N/K .. (i+1)*N/K)
    PerItem,
    /// Fixed-size chunks of grainSize items, round-robin across locales
    Chunk,
    /// Dynamic work-stealing
    Adaptive,
    /// Block-distributed domain decomposition
    Spatial,
    /// Route by key hash: same key, same locale
    Keyed,
}

/// The strategy that a manifest string names, if it names one.
pub open spec fn parse_partition_strategy(s: Seq<char>) -> Option<PartitionStrategy> {
    if s == "per-item"@ {
        Some(PartitionStrategy::PerItem)
    } else if s == "chunk"@ {
        Some(PartitionStrategy::Chunk)
    } else if s == "adaptive"@ {
        Some(PartitionStrategy::Adaptive)
    } else if s == "spatial"@ {
        Some(PartitionStrategy::Spatial)
    } else if s == "keyed"@ {
        Some(PartitionStrategy::Keyed)
    } else {
        None
    }
}

impl PartitionStrategy {
    /// Parse from manifest string.
    pub fn from_str(s: &str) -> (res: Option<Self>)
        ensures
            res == parse_partition_strategy(s@),
            s@ == "per-item"@ ==> res == Some(PartitionStrategy::PerItem),
            s@ == "chunk"@ ==> res == Some(PartitionStrategy::Chunk),
            s@ == "adaptive"@ ==> res == Some(PartitionStrategy::Adaptive),
            s@ == "spatial"@ ==> res == Some(PartitionStrategy::Spatial),
            s@ == "keyed"@ ==> res == Some(PartitionStrategy::Keyed),
            res is None <==> (s@ != "per-item"@ && s@ != "chunk"@ && s@ != "adaptive"@ && s@
                != "spatial"@ && s@ != "keyed"@),
    {
        proof {
            reveal_strlit("per-item");
            reveal_strlit("chunk");
            reveal_strlit("adaptive");
            reveal_strlit("spatial");
            reveal_strlit("keyed");
            assert("per-item"@[0] == 'p');
            assert("chunk"@[0] == 'c');
            assert("adaptive"@[0] == 'a');
            assert("spatial"@[0] == 's');
            assert("keyed"@[0] == 'k');
        }
        if str_eq(s, "per-item") {
            Some(PartitionStrategy::PerItem)
        } else if str_eq(s, "chunk") {
            Some(PartitionStrategy::Chunk)
        } else if str_eq(s, "adaptive") {
            Some(PartitionStrategy::Adaptive)
        } else if str_eq(s, "spatial") {
            Some(PartitionStrategy::Spatial)
        } else if str_eq(s, "keyed") {
            Some(PartitionStrategy::Keyed)
        } else {
            None
        }
    }
}

/// How the results of the locales are combined.
#[derive(Debug, Clone, Copy, PartialEq, Eq, Structural)]
pub enum GatherStrategy {
    /// Concatenate all results
    Merge,
    /// Fold results into one via reduce function
    Reduce,
    /// Logarithmic pairwise reduction across locales
    TreeReduce,
    /// Results available incrementally
    Stream,
    /// Return first result matching a predicate
    First,
}

/// The gather strategy that a manifest string names, if it names one.
pub open spec fn parse_gather_strategy(s: Seq<char>) -> Option<GatherStrategy> {
    if s == "merge"@ {
        Some(GatherStrategy::Merge)
    } else if s == "reduce"@ {
        Some(GatherStrategy::Reduce)
    } else if s == "tree-reduce"@ {
        Some(GatherStrategy::TreeReduce)
    } else if s == "stream"@ {
        Some(GatherStrategy::Stream)
    } else if s == "first"@ {
        Some(GatherStrategy::First)
    } else {
        None
    }
}

impl GatherStrategy {
    /// Parse from manifest string.
    pub fn from_str(s: &str) -> (res: Option<Self>)
        ensures
            res == parse_gather_strategy(s@),
            s@ == "merge"@ ==> res == Some(GatherStrategy::Merge),
            s@ == "reduce"@ ==> res == Some(GatherStrategy::Reduce),
            s@ == "tree-reduce"@ ==> res == Some(GatherStrategy::TreeReduce),
            s@ == "stream"@ ==> res == Some(GatherStrategy::Stream),
            s@ == "first"@ ==> res == Some(GatherStrategy::First),
            res is None <==> (s@ != "merge"@ && s@ != "reduce"@ && s@ != "tree-reduce"@ && s@
                != "stream"@ && s@ != "first"@),
    {
        proof {
            reveal_strlit("merge");
            reveal_strlit("reduce");
            reveal_strlit("tree-reduce");
            reveal_strlit("stream");
            reveal_strlit("first");
            assert("merge"@[0] == 'm');
            assert("reduce"@[0] == 'r');
            assert("tree-reduce"@[0] == 't');
            assert("stream"@[0] == 's');
            assert("first"@[0] == 'f');
        }
        if str_eq(s, "merge") {
            Some(GatherStrategy::Merge)
        } else if str_eq(s, "reduce") {
            Some(GatherStrategy::Reduce)
        } else if str_eq(s, "tree-reduce") {
            Some(GatherStrategy::TreeReduce)
        } else if str_eq(s, "stream") {
            Some(GatherStrategy::Stream)
        } else if str_eq(s, "first") {
            Some(GatherStrategy::First)
        } else {
            None
        }
    }
}

/// A contiguous range of items assigned to one locale.
#[derive(Debug, Clone, Copy, PartialEq, Eq, Structural)]
pub struct Slice {
    /// First item index in this slice
    pub start: u64,
    /// Number of items in this slice
    pub count: u64,
}

impl Slice {
    /// One past the last item index of the slice.
    pub open spec fn end(self) -> int {
        self.start + self.count
    }

    /// Whether item index `x` belongs to the slice.
    pub open spec fn holds(self, x: int) -> bool {
        self.start <= x < self.end()
    }
}

/// Two slices overlap when they share an item index: both hold items, and
/// each one starts before the other one ends.
pub open spec fn slices_overlap(a: Slice, b: Slice) -> bool {
    a.count > 0 && b.count > 0 && a.start < b.end() && b.start < a.end()
}

/// The sum of a sequence of counts.
pub open spec fn seq_sum(s: Seq<u64>) -> int
    decreases s.len(),
{
    if s.len() == 0 {
        0
    } else {
        seq_sum(s.drop_last()) + s.last()
    }
}

/// The counts of a sequence of slices.
pub open spec fn counts_of(slices: Seq<Slice>) -> Seq<u64> {
    slices.map_values(|s: Slice| s.count)
}

/// The number of items that a sequence of slices holds, counted with repetition.
pub open spec fn slices_total(slices: Seq<Slice>) -> int {
    seq_sum(counts_of(slices))
}

/// No two distinct slices overlap.
pub open spec fn pairwise_apart(slices: Seq<Slice>) -> bool {
    forall|i: int, j: int|
        0 <= i < j < slices.len() ==> !slices_overlap(#[trigger] slices[i], #[trigger] slices[j])
}

/// The slices lie end to end from index 0: each one starts where the ones
/// before it end, and together they count `total` items.
pub open spec fn tiles(slices: Seq<Slice>, total: int) -> bool {
    &&& forall|i: int|
        0 <= i < slices.len() ==> (#[trigger] slices[i]).start == slices_total(slices.take(i))
    &&& slices_total(slices) == total
}

/// Every item index of `[0, total)` lies in some slice, and no slice holds
/// an index outside it.
pub open spec fn covers(slices: Seq<Slice>, total: int) -> bool {
    forall|x: int| (0 <= x < total) <==> #[trigger] held_by_some(slices, x)
}

/// Some slice holds item index `x`.
pub open spec fn held_by_some(slices: Seq<Slice>, x: int) -> bool {
    exists|i: int| 0 <= i < slices.len() && (#[trigger] slices[i].holds(x))
}

/// A partition of N items across K locales.
#[derive(Debug, Clone)]
pub struct Partition {
    /// Total number of items being partitioned.
    pub total_items: u64,
    /// Number of locales (partitions).
    pub num_locales: u32,
    /// Grain size: items per task.
    pub grain_size: u32,
    /// Slice assignments: one per locale.
    pub slices: Vec<Slice>,
}

/// Per-item partition: the number of items that locale `i` of `k` receives.
pub open spec fn per_item_count(total: int, k: int, i: int) -> int {
    total / k + if i < total % k { 1int } else { 0int }
}

/// Per-item partition: the first item index of locale `i` of `k`.
pub open spec fn per_item_start(total: int, k: int, i: int) -> int {
    i * (total / k) + if i < total % k { i } else { total % k }
}

/// Chunked partition: the number of chunks of `grain` items that `total` items make.
pub open spec fn chunk_total(total: int, grain: int) -> int {
    (total + grain - 1) / grain
}

/// Chunked partition: the number of chunks that each locale is given.
pub open spec fn chunks_per_locale(total: int, locales: int, grain: int) -> int {
    (chunk_total(total, grain) + locales - 1) / locales
}

/// Chunked partition: the number of items that each locale is given at most.
pub open spec fn chunked_width(total: int, locales: int, grain: int) -> int {
    chunks_per_locale(total, locales, grain) * grain
}

/// Chunked partition: the first item index of locale `i`, for a given width.
pub open spec fn chunked_start(total: int, width: int, i: int) -> int {
    if i * width < total { i * width } else { total }
}

/// Whether `Partition::chunked` can compute its arithmetic in 64 bits.
pub open spec fn chunked_fits(total: int, locales: int, grain: int) -> bool {
    &&& total + grain <= u64::MAX
    &&& chunk_total(total, grain) + locales <= u64::MAX
    &&& chunked_width(total, locales, grain) <= u64::MAX
}

impl Partition {
    /// The slice counts add up to the total number of items.
    pub open spec fn is_complete(&self) -> bool {
        slices_total(self.slices@) == self.total_items
    }

    /// No two slices overlap.
    pub open spec fn has_no_overlap(&self) -> bool {
        pairwise_apart(self.slices@)
    }

    /// The slices cover exactly the item indices `[0, total_items)`.
    pub open spec fn covers_all_items(&self) -> bool {
        covers(self.slices@, self.total_items as int)
    }

    /// Create a per-item partition: each locale gets total/K items.
    /// First (N mod K) locales get one extra item.
    pub fn per_item(total_items: u64, num_locales: u32) -> (p: Self)
        requires
            num_locales > 0,
        ensures
            p.total_items == total_items,
            p.num_locales == num_locales,
            p.grain_size == 1,
            p.slices@.len() == num_locales,
            forall|i: int|
                0 <= i < num_locales ==> {
                    &&& (#[trigger] p.slices@[i]).start == per_item_start(
                        total_items as int,
                        num_locales as int,
                        i,
                    )
                    &&& p.slices@[i].count == per_item_count(
                        total_items as int,
                        num_locales as int,
                        i,
                    )
                },
            forall|i: int|
                0 <= i < num_locales ==> (#[trigger] p.slices@[i]).count == total_items as int
                    / num_locales as int + if i < total_items as int % num_locales as int {
                    1int
                } else {
                    0int
                },
            forall|i: int, j: int|
                0 <= i <= j < num_locales ==> #[trigger] p.slices@[j].count
                    <= #[trigger] p.slices@[i].count <= p.slices@[j].count + 1,
            tiles(p.slices@, total_items as int),
            p.is_complete(),
            p.has_no_overlap(),
            p.covers_all_items(),
    {
        let k = num_locales as u64;
        let base = total_items / k;
        let remainder = total_items % k;
        let ghost t = total_items as int;
        let ghost kk = k as int;
        proof {
            lemma_per_item_end(t, kk);
        }
        let mut slices: Vec<Slice> = Vec::with_capacity(num_locales as usize);
        let mut offset: u64 = 0;
        let mut i: u64 = 0;
        while i < k
            invariant
                k == num_locales,
                k > 0,
                base == t / kk,
                remainder == t % kk,
                t == total_items,
                kk == k,
                i <= k,
                slices@.len() == i,
                offset == per_item_start(t, kk, i as int),
                per_item_start(t, kk, kk) == t,
                tiles(slices@, offset as int),
                forall|j: int|
                    0 <= j < i ==> {
                        &&& (#[trigger] slices@[j]).start == per_item_start(t, kk, j)
                        &&& slices@[j].count == per_item_count(t, kk, j)
                    },
            decreases k - i,
        {
            proof {
                lemma_per_item_step(t, kk, i as int);
            }
            let count = base + if i < remainder { 1u64 } else { 0u64 };
            let slice = Slice { start: offset, count };
            proof {
                lemma_tiles_push(slices@, offset as int, slice);
            }
            slices.push(slice);
            offset = offset + count;
            i = i + 1;
        }
        proof {
            lemma_tiling_partitions(slices@, t);
        }
        Partition { total_items, num_locales, grain_size: 1, slices }
    }

    /// Create a chunked partition: items grouped into chunks of `grain_size`.
    pub fn chunked(total_items: u64, num_locales: u32, grain_size: u32) -> (p: Self)
        requires
            num_locales > 0,
            grain_size > 0,
            chunked_fits(total_items as int, num_locales as int, grain_size as int),
        ensures
            p.total_items == total_items,
            p.num_locales == num_locales,
            p.grain_size == grain_size,
            p.slices@.len() == num_locales,
            forall|i: int|
                0 <= i < num_locales ==> {
                    let w = chunked_width(
                        total_items as int,
                        num_locales as int,
                        grain_size as int,
                    );
                    &&& (#[trigger] p.slices@[i]).start == chunked_start(
                        total_items as int,
                        w,
                        i,
                    )
                    &&& p.slices@[i].count == chunked_start(total_items as int, w, i + 1)
                        - chunked_start(total_items as int, w, i)
                },
            forall|i: int|
                0 <= i < num_locales ==> {
                    let t = total_items as int;
                    let w = ((t + grain_size - 1) / (grain_size as int) + num_locales - 1) / (
                    num_locales as int) * grain_size;
                    let lo = if i * w < t { i * w } else { t };
                    let hi = if (i + 1) * w < t { (i + 1) * w } else { t };
                    &&& (#[trigger] p.slices@[i]).start == lo
                    &&& p.slices@[i].count == hi - lo
                    &&& p.slices@[i].count <= w
                    &&& w % (grain_size as int) == 0
                },
            tiles(p.slices@, total_items as int),
            p.is_complete(),
            p.has_no_overlap(),
            p.covers_all_items(),
    {
        let g = grain_size as u64;
        let num_chunks = (total_items + g - 1) / g;
        let chunks_each = (num_chunks + num_locales as u64 - 1) / num_locales as u64;
        let width = chunks_each * g;
        let ghost t = total_items as int;
        let ghost w = width as int;
        proof {
            lemma_chunked_covers(t, num_locales as int, g as int);
            assert(0 * w == 0);
            assert(chunked_start(t, w, 0) == 0);
        }
        let mut slices: Vec<Slice> = Vec::with_capacity(num_locales as usize);
        let mut offset: u64 = 0;
        let mut i: u32 = 0;
        while i < num_locales
            invariant
                t == total_items,
                w == width,
                w == chunked_width(t, num_locales as int, grain_size as int),
                w >= 0,
                num_locales * w >= t,
                i <= num_locales,
                slices@.len() == i,
                offset == chunked_start(t, w, i as int),
                tiles(slices@, offset as int),
                forall|j: int|
                    0 <= j < i ==> {
                        &&& (#[trigger] slices@[j]).start == chunked_start(t, w, j)
                        &&& slices@[j].count == chunked_start(t, w, j + 1) - chunked_start(
                            t,
                            w,
                            j,
                        )
                    },
            decreases num_locales - i,
        {
            proof {
                lemma_chunked_step(t, w, i as int);
            }
            let rest = total_items.saturating_sub(offset);
            let count = if width < rest { width } else { rest };
            let slice = Slice { start: offset, count };
            proof {
                lemma_tiles_push(slices@, offset as int, slice);
            }
            slices.push(slice);
            offset = offset + count;
            i = i + 1;
        }
        proof {
            assert(chunked_start(t, w, num_locales as int) == t);
            lemma_tiling_partitions(slices@, t);
            assert forall|i: int| 0 <= i < num_locales implies (#[trigger] slices@[i]).count <= w
                && w % (grain_size as int) == 0 by {
                lemma_chunked_step(t, w, i);
                lemma_chunked_whole_chunks(t, num_locales as int, grain_size as int, i);
            }
        }
        Partition { total_items, num_locales, grain_size, slices }
    }

    /// Verify partition completeness: sum of all slice counts == total_items.
    pub fn verify_completeness(&self) -> (res: bool)
        ensures
            res == self.is_complete(),
    {
        let n = self.slices.len();
        let ghost counts = counts_of(self.slices@);
        let mut sum: u64 = 0;
        let mut i: usize = 0;
        while i < n
            invariant
                n == self.slices@.len(),
                counts == counts_of(self.slices@),
                i <= n,
                sum == seq_sum(counts.take(i as int)),
                sum <= self.total_items,
            decreases n - i,
        {
            let c = self.slices[i].count;
            proof {
                lemma_seq_sum_take_step(counts, i as int);
            }
            if c > self.total_items - sum {
                proof {
                    lemma_seq_sum_prefix_le(counts, i as int + 1, n as int);
                    assert(counts.take(n as int) =~= counts);
                }
                return false;
            }
            sum = sum + c;
            i = i + 1;
        }
        proof {
            assert(counts.take(n as int) =~= counts);
        }
        sum == self.total_items
    }

    /// Verify no overlaps: no two slices share any index.
    pub fn verify_no_overlap(&self) -> (res: bool)
        ensures
            res == self.has_no_overlap(),
    {
        let n = self.slices.len();
        let mut i: usize = 0;
        while i < n
            invariant
                n == self.slices@.len(),
                i <= n,
                forall|p: int, q: int|
                    0 <= p < i && p < q < n ==> !slices_overlap(
                        #[trigger] self.slices@[p],
                        #[trigger] self.slices@[q],
                    ),
            decreases n - i,
        {
            let a = self.slices[i];
            let end_a = a.start as u128 + a.count as u128;
            let mut j: usize = i + 1;
            while j < n
                invariant
                    n == self.slices@.len(),
                    i < n,
                    i + 1 <= j <= n,
                    a == self.slices@[i as int],
                    end_a == a.end(),
                    forall|p: int, q: int|
                        0 <= p < i && p < q < n ==> !slices_overlap(
                            #[trigger] self.slices@[p],
                            #[trigger] self.slices@[q],
                        ),
                    forall|q: int|
                        i < q < j ==> !slices_overlap(
                            self.slices@[i as int],
                            #[trigger] self.slices@[q],
                        ),
                decreases n - j,
            {
                let b = self.slices[j];
                let end_b = b.start as u128 + b.count as u128;
                if a.count > 0 && b.count > 0 && (a.start as u128) < end_b && (b.start
                    as u128) < end_a {
                    assert(slices_overlap(self.slices@[i as int], self.slices@[j as int]));
                    return false;
                }
                j = j + 1;
            }
            i = i + 1;
        }
        true
    }

    /// Verify this is a valid partition (complete + disjoint).
    pub fn verify(&self) -> (res: bool)
        ensures
            res == (self.is_complete() && self.has_no_overlap()),
    {
        self.verify_completeness() && self.verify_no_overlap()
    }
}

/// Metadata about a serialisation format.
#[derive(Debug, Clone)]
pub struct SerializationContract {
    /// Name of the serialisation format (matches manifest options).
    pub format: String,
    /// Maximum buffer size needed for any single item.
    pub max_item_bytes: usize,
    /// Whether the format is self-describing (JSON, CBOR) or schema-dependent (bincode).
    pub self_describing: bool,
}

/// Result of a gather operation.
#[derive(Debug, Clone)]
pub struct GatherResult {
    /// Total results gathered across all locales.
    pub total_results: u64,
    /// Per-locale result counts (for verification).
    pub locale_counts: Vec<u64>,
    /// Gather strategy used.
    pub strategy: GatherStrategy,
}

impl GatherResult {
    /// Verify that total_results == sum of locale_counts (gather conservation).
    pub fn verify_conservation(&self) -> (res: bool)
        ensures
            res == (seq_sum(self.locale_counts@) == self.total_results),
    {
        let n = self.locale_counts.len();
        let ghost counts = self.locale_counts@;
        let mut sum: u64 = 0;
        let mut i: usize = 0;
        while i < n
            invariant
                n == counts.len(),
                counts == self.locale_counts@,
                i <= n,
                sum == seq_sum(counts.take(i as int)),
                sum <= self.total_results,
            decreases n - i,
        {
            let c = self.locale_counts[i];
            proof {
                lemma_seq_sum_take_step(counts, i as int);
            }
            if c > self.total_results - sum {
                proof {
                    lemma_seq_sum_prefix_le(counts, i as int + 1, n as int);
                    assert(counts.take(n as int) =~= counts);
                }
                return false;
            }
            sum = sum + c;
            i = i + 1;
        }
        proof {
            assert(counts.take(n as int) =~= counts);
        }
        sum == self.total_results
    }
}

/// Bytes in one megabyte, as budgets round to it.
pub const MEGABYTE: u64 = 1_048_576;

/// Bytes of bookkeeping per item: an 8-byte size and a 1-byte flag.
pub const METADATA_BYTES_PER_ITEM: u64 = 9;

/// Per-locale memory budget estimate.
/// Helps users determine whether their workload fits in available RAM.
#[derive(Debug, Clone, Copy, PartialEq, Eq, Structural)]
pub struct MemoryBudget {
    /// Items assigned to this locale
    pub items_per_locale: u64,
    /// Input buffer memory (bytes)
    pub input_bytes: u64,
    /// Output buffer memory (bytes)
    pub output_bytes: u64,
    /// Size tracking arrays (bytes)
    pub metadata_bytes: u64,
    /// Total estimated memory per locale (bytes)
    pub total_bytes: u64,
    /// Total in megabytes (rounded up)
    pub total_mb: u64,
}

/// The items that each locale budgets for: one more than an even share.
pub open spec fn budget_items(total_items: int, num_locales: int) -> int {
    total_items / num_locales + 1
}

/// The bytes that a locale budgets for in all: input, output and bookkeeping.
pub open spec fn budget_bytes(total_items: int, num_locales: int, max_item_bytes: int) -> int {
    let items = budget_items(total_items, num_locales);
    items * max_item_bytes + items * max_item_bytes + items * METADATA_BYTES_PER_ITEM
}

impl MemoryBudget {
    /// Calculate the per-locale memory budget for a workload.
    pub fn calculate(total_items: u64, num_locales: u32, max_item_bytes: u64) -> (b: Self)
        requires
            num_locales > 0,
            budget_bytes(total_items as int, num_locales as int, max_item_bytes as int) + MEGABYTE
                - 1 <= u64::MAX,
        ensures
            b.items_per_locale == budget_items(total_items as int, num_locales as int),
            b.items_per_locale == total_items as int / num_locales as int + 1,
            b.items_per_locale * num_locales > total_items,
            b.items_per_locale * num_locales <= total_items + num_locales,
            b.input_bytes == b.items_per_locale * max_item_bytes,
            b.output_bytes == b.items_per_locale * max_item_bytes,
            b.metadata_bytes == b.items_per_locale * METADATA_BYTES_PER_ITEM,
            b.metadata_bytes == b.items_per_locale * 9,
            b.total_bytes == b.input_bytes + b.output_bytes + b.metadata_bytes,
            b.total_bytes == budget_bytes(
                total_items as int,
                num_locales as int,
                max_item_bytes as int,
            ),
            b.total_mb == (b.total_bytes + MEGABYTE - 1) / (MEGABYTE as int),
            b.total_mb * MEGABYTE >= b.total_bytes,
            b.total_bytes > 0 ==> (b.total_mb - 1) * MEGABYTE < b.total_bytes,
            b.total_mb * 1_048_576 >= b.total_bytes,
            b.total_mb * 1_048_576 < b.total_bytes + 1_048_576,
    {
        let ghost items = budget_items(total_items as int, num_locales as int);
        assert(total_items / (num_locales as u64) >= 0);
        assert(items * max_item_bytes >= 0 && items * METADATA_BYTES_PER_ITEM >= 0) by (nonlinear_arith)
            requires
                items >= 1,
                max_item_bytes >= 0,
        ;
        let items_per_locale = total_items / num_locales as u64 + 1;
        proof {
            lemma_budget_covers_even_share(total_items as int, num_locales as int);
        }
        let input_bytes = items_per_locale * max_item_bytes;
        let output_bytes = items_per_locale * max_item_bytes;
        let metadata_bytes = items_per_locale * METADATA_BYTES_PER_ITEM;
        let total_bytes = input_bytes + output_bytes + metadata_bytes;
        let total_mb = (total_bytes + (MEGABYTE - 1)) / MEGABYTE;
        MemoryBudget {
            items_per_locale,
            input_bytes,
            output_bytes,
            metadata_bytes,
            total_bytes,
            total_mb,
        }
    }
}

/// One more than an even share of the items, taken by every locale, covers
/// all the items, and exceeds them by at most one item per locale.
pub proof fn lemma_budget_covers_even_share(total: int, locales: int)
    requires
        total >= 0,
        locales > 0,
    ensures
        (total / locales + 1) * locales > total,
        (total / locales + 1) * locales <= total + locales,
{
    let q = total / locales;
    let r = total % locales;
    vstd::arithmetic::div_mod::lemma_fundamental_div_mod(total, locales);
    assert(0 <= r < locales) by (nonlinear_arith)
        requires
            locales > 0,
            r == total % locales,
    ;
    assert((q + 1) * locales == locales * q + locales) by (nonlinear_arith);
}

/// Per-item partitions are balanced: no locale gets more than one item more
/// than another, and locales earlier in the order never get fewer.
pub proof fn lemma_per_item_balanced(total: int, k: int, i: int, j: int)
    requires
        total >= 0,
        k > 0,
        0 <= i <= j < k,
    ensures
        per_item_count(total, k, j) <= per_item_count(total, k, i) <= per_item_count(total, k, j)
            + 1,
{
}

/// The overlap test is exactly the question whether two slices share an
/// item index.
pub proof fn lemma_overlap_is_shared_index(a: Slice, b: Slice)
    ensures
        slices_overlap(a, b) <==> exists|x: int| #[trigger] a.holds(x) && b.holds(x),
{
    if slices_overlap(a, b) {
        let x = if a.start < b.start { b.start as int } else { a.start as int };
        assert(a.holds(x) && b.holds(x));
    }
}

/// In a partition that passes the overlap check, no item index belongs to two
/// slices.
pub proof fn lemma_apart_slices_share_no_index(slices: Seq<Slice>, i: int, j: int, x: int)
    requires
        pairwise_apart(slices),
        0 <= i < j < slices.len(),
    ensures
        !(slices[i].holds(x) && slices[j].holds(x)),
{
    lemma_overlap_is_shared_index(slices[i], slices[j]);
}

/// Some index below `n` is mapped to `k`.
pub open spec fn in_image(perm: spec_fn(int) -> int, n: int, k: int) -> bool {
    exists|i: int| 0 <= i < n && #[trigger] perm(i) == k
}

/// The overlap check does not depend on the order of the slices: reordering
/// them by any permutation `perm` (slice `i` of `q` is slice `perm(i)` of
/// `p`) leaves the answer unchanged.
pub proof fn lemma_overlap_check_ignores_order(p: Seq<Slice>, q: Seq<Slice>, perm: spec_fn(int) -> int)
    requires
        q.len() == p.len(),
        forall|i: int| 0 <= i < q.len() ==> 0 <= #[trigger] perm(i) < p.len() && q[i] == p[perm(i)],
        forall|i: int, j: int| 0 <= i < q.len() && 0 <= j < q.len() && i != j ==> #[trigger] perm(i)
            != #[trigger] perm(j),
        forall|k: int| 0 <= k < p.len() ==> #[trigger] in_image(perm, q.len() as int, k),
    ensures
        pairwise_apart(q) == pairwise_apart(p),
{
    if pairwise_apart(p) {
        assert forall|i: int, j: int| 0 <= i < j < q.len() implies !slices_overlap(
            #[trigger] q[i],
            #[trigger] q[j],
        ) by {
            let (a, b) = (perm(i), perm(j));
            if a < b {
                assert(!slices_overlap(p[a], p[b]));
            } else {
                assert(!slices_overlap(p[b], p[a]));
            }
        }
    }
    if pairwise_apart(q) {
        assert forall|a: int, b: int| 0 <= a < b < p.len() implies !slices_overlap(
            #[trigger] p[a],
            #[trigger] p[b],
        ) by {
            assert(in_image(perm, q.len() as int, a));
            assert(in_image(perm, q.len() as int, b));
            let i = choose|i: int| 0 <= i < q.len() && #[trigger] perm(i) == a;
            let j = choose|j: int| 0 <= j < q.len() && #[trigger] perm(j) == b;
            if i < j {
                assert(!slices_overlap(q[i], q[j]));
            } else {
                assert(!slices_overlap(q[j], q[i]));
            }
        }
    }
}

/// The item indices that the first `k` slices hold.
pub open spec fn held_by_first(slices: Seq<Slice>, k: int) -> Set<int> {
    Set::new(|x: int| exists|i: int| 0 <= i < k && (#[trigger] slices[i].holds(x)))
}

proof fn lemma_held_by_first_len(slices: Seq<Slice>, k: int)
    requires
        pairwise_apart(slices),
        0 <= k <= slices.len(),
    ensures
        held_by_first(slices, k).finite(),
        held_by_first(slices, k).len() == seq_sum(counts_of(slices).take(k)),
    decreases k,
{
    if k == 0 {
        assert(held_by_first(slices, 0) =~= Set::<int>::empty());
        assert(counts_of(slices).take(0) =~= Seq::<u64>::empty());
    } else {
        let last = slices[k - 1];
        let prev = held_by_first(slices, k - 1);
        let range = vstd::set_lib::set_int_range(last.start as int, last.end());
        lemma_held_by_first_len(slices, k - 1);
        vstd::set_lib::lemma_int_range(last.start as int, last.end());
        assert forall|x: int| #[trigger] held_by_first(slices, k).contains(x) <==> (prev
            + range).contains(x) by {
            if held_by_first(slices, k).contains(x) {
                let i = choose|i: int| 0 <= i < k && (#[trigger] slices[i].holds(x));
                if i < k - 1 {
                    assert(prev.contains(x));
                }
            }
            if range.contains(x) {
                assert(slices[k - 1].holds(x));
            }
            if prev.contains(x) {
                let i = choose|i: int| 0 <= i < k - 1 && (#[trigger] slices[i].holds(x));
                assert(slices[i].holds(x));
            }
        }
        assert(held_by_first(slices, k) =~= prev + range);
        assert forall|x: int| !(prev.contains(x) && range.contains(x)) by {
            if prev.contains(x) && range.contains(x) {
                let i = choose|i: int| 0 <= i < k - 1 && (#[trigger] slices[i].holds(x));
                assert(last.holds(x));
                lemma_overlap_is_shared_index(slices[i], last);
                assert(!slices_overlap(slices[i], slices[k - 1]));
            }
        }
        assert(prev.disjoint(range));
        vstd::set_lib::lemma_set_disjoint_lens(prev, range);
        lemma_seq_sum_take_step(counts_of(slices), k - 1);
    }
}

/// A partition that passes `verify` and whose slices lie within its items
/// holds each item index exactly once: every index below `total_items` lies
/// in some slice, and in no two.
pub proof fn lemma_verified_partition_holds_each_index_once(p: Partition)
    requires
        p.is_complete(),
        p.has_no_overlap(),
        forall|i: int| 0 <= i < p.slices@.len() ==> (#[trigger] p.slices@[i]).end() <= p.total_items,
    ensures
        p.covers_all_items(),
        forall|x: int, i: int, j: int|
            0 <= i < p.slices@.len() && 0 <= j < p.slices@.len() && i != j ==> !(
            #[trigger] p.slices@[i].holds(x) && #[trigger] p.slices@[j].holds(x)),
{
    let s = p.slices@;
    let n = s.len() as int;
    let total = p.total_items as int;
    lemma_held_by_first_len(s, n);
    assert(counts_of(s).take(n) =~= counts_of(s));
    let held = held_by_first(s, n);
    let all = vstd::set_lib::set_int_range(0, total);
    vstd::set_lib::lemma_int_range(0, total);
    assert(held.subset_of(all)) by {
        assert forall|x: int| held.contains(x) implies all.contains(x) by {
            let i = choose|i: int| 0 <= i < n && (#[trigger] s[i].holds(x));
            assert(s[i].end() <= total);
        }
    }
    vstd::set_lib::lemma_subset_equality(held, all);
    assert forall|x: int| (0 <= x < total) <==> #[trigger] held_by_some(s, x) by {
        if 0 <= x < total {
            assert(all.contains(x));
            assert(held.contains(x));
        }
        if held_by_some(s, x) {
            let i = choose|i: int| 0 <= i < n && (#[trigger] s[i].holds(x));
            assert(held.contains(x));
        }
    }
    assert forall|x: int, i: int, j: int|
        0 <= i < n && 0 <= j < n && i != j implies !(#[trigger] s[i].holds(x)
        && #[trigger] s[j].holds(x)) by {
        if i < j {
            lemma_apart_slices_share_no_index(s, i, j, x);
        } else {
            lemma_apart_slices_share_no_index(s, j, i, x);
        }
    }
}

/// A chunked partition hands out whole chunks: each locale's allowance is a
/// whole number of chunks, every slice is within it, and only a slice that
/// reaches the last item can be short of it.
pub proof fn lemma_chunked_whole_chunks(total: int, locales: int, grain: int, i: int)
    requires
        total >= 0,
        locales > 0,
        grain > 0,
        i >= 0,
    ensures
        chunked_width(total, locales, grain) % grain == 0,
        chunked_start(total, chunked_width(total, locales, grain), i + 1) - chunked_start(
            total,
            chunked_width(total, locales, grain),
            i,
        ) <= chunked_width(total, locales, grain),
        chunked_start(total, chunked_width(total, locales, grain), i + 1) < total ==> chunked_start(
            total,
            chunked_width(total, locales, grain),
            i + 1,
        ) - chunked_start(total, chunked_width(total, locales, grain), i) == chunked_width(
            total,
            locales,
            grain,
        ),
{
    let c = chunks_per_locale(total, locales, grain);
    let w = chunked_width(total, locales, grain);
    lemma_chunked_covers(total, locales, grain);
    vstd::arithmetic::div_mod::lemma_mod_multiples_basic(c, grain);
    lemma_chunked_step(total, w, i);
}

// ---------------------------------------------------------------------------
// Lemmas on sums and tilings
// ---------------------------------------------------------------------------

/// Extending a prefix by one element adds that element to its sum.
proof fn lemma_seq_sum_take_step(s: Seq<u64>, i: int)
    requires
        0 <= i < s.len(),
    ensures
        seq_sum(s.take(i + 1)) == seq_sum(s.take(i)) + s[i],
{
    assert(s.take(i + 1).drop_last() =~= s.take(i));
}

/// The sums of longer prefixes are no smaller.
proof fn lemma_seq_sum_prefix_le(s: Seq<u64>, i: int, j: int)
    requires
        0 <= i <= j <= s.len(),
    ensures
        seq_sum(s.take(i)) <= seq_sum(s.take(j)),
    decreases j - i,
{
    if i < j {
        lemma_seq_sum_take_step(s, j - 1);
        lemma_seq_sum_prefix_le(s, i, j - 1);
    }
}

proof fn lemma_counts_take(slices: Seq<Slice>, i: int)
    requires
        0 <= i <= slices.len(),
    ensures
        counts_of(slices.take(i)) == counts_of(slices).take(i),
{
    assert(counts_of(slices.take(i)) =~= counts_of(slices).take(i));
}

/// Appending a slice that starts where a tiling ends extends the tiling.
proof fn lemma_tiles_push(slices: Seq<Slice>, total: int, next: Slice)
    requires
        tiles(slices, total),
        next.start == total,
    ensures
        tiles(slices.push(next), total + next.count),
{
    let s2 = slices.push(next);
    assert forall|i: int| 0 <= i < s2.len() implies (#[trigger] s2[i]).start == slices_total(
        s2.take(i),
    ) by {
        if i < slices.len() {
            assert(s2.take(i) =~= slices.take(i));
        } else {
            assert(s2.take(i) =~= slices);
        }
    }
    assert(counts_of(s2).drop_last() =~= counts_of(slices));
}

/// A tiling from 0 to `total` is a valid partition of `[0, total)`: its
/// counts add up to `total`, no two of its slices overlap, and the slices
/// hold exactly the indices of `[0, total)`.
pub proof fn lemma_tiling_partitions(slices: Seq<Slice>, total: int)
    requires
        tiles(slices, total),
    ensures
        slices_total(slices) == total,
        pairwise_apart(slices),
        covers(slices, total),
{
    let c = counts_of(slices);
    let n = slices.len() as int;
    assert(c.take(n) =~= c);
    assert forall|i: int| 0 <= i < n implies 0 <= slices_total(slices.take(i))
        && (#[trigger] slices[i]).end() == slices_total(slices.take(i + 1))
        && slices[i].end() <= total by {
        lemma_counts_take(slices, i);
        lemma_counts_take(slices, i + 1);
        lemma_seq_sum_take_step(c, i);
        lemma_seq_sum_prefix_le(c, 0, i);
        lemma_seq_sum_prefix_le(c, i + 1, n);
        assert(c.take(0) =~= Seq::<u64>::empty());
    }
    assert forall|i: int, j: int| 0 <= i < j < n implies !slices_overlap(
        #[trigger] slices[i],
        #[trigger] slices[j],
    ) by {
        lemma_counts_take(slices, i + 1);
        lemma_counts_take(slices, j);
        lemma_seq_sum_prefix_le(c, i + 1, j);
    }
    assert forall|x: int| (0 <= x < total) <==> #[trigger] held_by_some(slices, x) by {
        if 0 <= x < total {
            assert(slices.take(n) =~= slices);
            lemma_tiling_finds(slices, total, x, n);
        }
    }
}

proof fn lemma_tiling_finds(slices: Seq<Slice>, total: int, x: int, k: int)
    requires
        tiles(slices, total),
        0 <= k <= slices.len(),
        0 <= x < slices_total(slices.take(k)),
        forall|i: int|
            0 <= i < slices.len() ==> (#[trigger] slices[i]).end() == slices_total(
                slices.take(i + 1),
            ),
    ensures
        exists|i: int| 0 <= i < k && (#[trigger] slices[i].holds(x)),
    decreases k,
{
    if k == 0 {
        assert(counts_of(slices.take(0)) =~= Seq::<u64>::empty());
    } else {
        if x >= slices_total(slices.take(k - 1)) {
            assert(slices[k - 1].holds(x));
        } else {
            lemma_tiling_finds(slices, total, x, k - 1);
        }
    }
}

// ---------------------------------------------------------------------------
// Arithmetic of the partitioning formulas
// ---------------------------------------------------------------------------

proof fn lemma_per_item_end(t: int, k: int)
    requires
        t >= 0,
        k > 0,
    ensures
        per_item_start(t, k, k) == t,
        0 <= t % k < k,
        t / k >= 0,
{
    vstd::arithmetic::div_mod::lemma_fundamental_div_mod(t, k);
    assert(0 <= t % k < k) by (nonlinear_arith)
        requires
            k > 0,
    ;
    assert(t / k >= 0) by (nonlinear_arith)
        requires
            k > 0,
            t >= 0,
    ;
    assert(k * (t / k) == (t / k) * k) by (nonlinear_arith);
}

proof fn lemma_per_item_step(t: int, k: int, i: int)
    requires
        t >= 0,
        k > 0,
        0 <= i < k,
        per_item_start(t, k, k) == t,
    ensures
        per_item_start(t, k, i + 1) == per_item_start(t, k, i) + per_item_count(t, k, i),
        per_item_start(t, k, i + 1) <= t,
        per_item_start(t, k, i) >= 0,
        per_item_count(t, k, i) >= 0,
{
    let b = t / k;
    let r = t % k;
    assert(0 <= r < k) by (nonlinear_arith)
        requires
            k > 0,
            r == t % k,
    ;
    assert(b >= 0) by (nonlinear_arith)
        requires
            k > 0,
            t >= 0,
            b == t / k,
    ;
    assert((i + 1) * b == i * b + b) by (nonlinear_arith);
    assert((i + 1) * b <= k * b) by (nonlinear_arith)
        requires
            i + 1 <= k,
            b >= 0,
    ;
    assert(i * b >= 0) by (nonlinear_arith)
        requires
            i >= 0,
            b >= 0,
    ;
}

proof fn lemma_chunked_covers(t: int, l: int, g: int)
    requires
        t >= 0,
        l > 0,
        g > 0,
    ensures
        chunked_width(t, l, g) >= 0,
        l * chunked_width(t, l, g) >= t,
{
    let nc = chunk_total(t, g);
    let cpl = chunks_per_locale(t, l, g);
    lemma_ceil_div(t, g);
    lemma_ceil_div(nc, l);
    assert(nc * g >= t);
    assert(cpl * l >= nc);
    assert(cpl >= 0) by (nonlinear_arith)
        requires
            nc >= 0,
            l > 0,
            cpl == (nc + l - 1) / l,
    ;
    assert(l * (cpl * g) >= t) by (nonlinear_arith)
        requires
            cpl * l >= nc,
            nc * g >= t,
            g > 0,
    ;
    assert(cpl * g >= 0) by (nonlinear_arith)
        requires
            cpl >= 0,
            g > 0,
    ;
}

/// Rounding up a quotient: `((a + b - 1) / b) * b` is at least `a`.
proof fn lemma_ceil_div(a: int, b: int)
    requires
        a >= 0,
        b > 0,
    ensures
        ((a + b - 1) / b) * b >= a,
        (a + b - 1) / b >= 0,
{
    let x = a + b - 1;
    vstd::arithmetic::div_mod::lemma_fundamental_div_mod(x, b);
    assert(0 <= x % b < b) by (nonlinear_arith)
        requires
            b > 0,
    ;
    assert(b * (x / b) == (x / b) * b) by (nonlinear_arith);
    assert(x / b >= 0) by (nonlinear_arith)
        requires
            b > 0,
            x >= 0,
    ;
}

proof fn lemma_chunked_step(t: int, w: int, i: int)
    requires
        t >= 0,
        w >= 0,
        i >= 0,
    ensures
        chunked_start(t, w, i) <= t,
        chunked_start(t, w, i) >= 0,
        chunked_start(t, w, i + 1) == chunked_start(t, w, i) + (if w < t - chunked_start(
            t,
            w,
            i,
        ) {
            w
        } else {
            t - chunked_start(t, w, i)
        }),
{
    assert((i + 1) * w == i * w + w) by (nonlinear_arith);
    assert(i * w >= 0) by (nonlinear_arith)
        requires
            i >= 0,
            w >= 0,
    ;
}

} // verus!
