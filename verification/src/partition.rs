//! Partitioned-query orchestration: planning and fan-in bookkeeping.
//!
//! The discovered cursors, in server order, define adjacent range
//! boundaries. With no cursors the server declined to partition and the
//! query falls back to a single unpartitioned stream whose every item is
//! tagged with the whole-collection partition. Otherwise the boundary
//! list `[none] + cursors + [none]` forms consecutive pairs, one range
//! sub-query per pair; each range's results are tagged with a partition
//! carrying the bounds its sub-query actually used. At most `parallelism`
//! range sub-queries run at once; [`ParallelismGate`] is the admission
//! control that enforces the cap.

use vstd::prelude::*;
use crate::errors::FirestoreError;
use crate::params::{
    FirestorePartition, FirestoreQueryCursor, FirestoreQueryParams,
};

verus! {

/// One planned range sub-query: the derived query parameters and the
/// partition tag carrying the same bounds.
#[derive(Debug, PartialEq, Eq)]
pub struct FirestorePartitionRange {
    pub params: FirestoreQueryParams,
    pub partition: FirestorePartition,
}

/// What the partitioned query runs: a single unpartitioned fallback
/// stream, or one range sub-query per boundary pair.
#[derive(Debug, PartialEq, Eq)]
pub enum FirestorePartitionPlan {
    /// The server produced no cursors: fall back to one unpartitioned
    /// query over the base parameters.
    Fallback(FirestoreQueryParams),
    /// One range sub-query per consecutive boundary pair.
    Partitioned(Vec<FirestorePartitionRange>),
}

/// The lower bound of range `k` among `n + 1` ranges over `n` cursors:
/// the base query's own bound for the first range, else the cursor before
/// the range.
pub open spec fn range_start_at(
    base: FirestoreQueryParams,
    cursors: Seq<FirestoreQueryCursor>,
    k: int,
) -> Option<FirestoreQueryCursor> {
    if k == 0 {
        base.start_at
    } else {
        Some(cursors[k - 1])
    }
}

/// The upper bound of range `k` among `n + 1` ranges over `n` cursors:
/// the cursor after the range, else the base query's own bound for the
/// last range.
pub open spec fn range_end_at(
    base: FirestoreQueryParams,
    cursors: Seq<FirestoreQueryCursor>,
    k: int,
) -> Option<FirestoreQueryCursor> {
    if k == cursors.len() {
        base.end_at
    } else {
        Some(cursors[k])
    }
}

/// Range `k` is the base query narrowed to its boundary pair, tagged with
/// a partition carrying the bounds the sub-query uses.
pub open spec fn range_matches(
    range: FirestorePartitionRange,
    base: FirestoreQueryParams,
    cursors: Seq<FirestoreQueryCursor>,
    k: int,
) -> bool {
    &&& range.params == (FirestoreQueryParams {
        start_at: range_start_at(base, cursors, k),
        end_at: range_end_at(base, cursors, k),
        ..base
    })
    &&& range.partition.start_at == range_start_at(base, cursors, k)
    &&& range.partition.end_at == range_end_at(base, cursors, k)
}

/// Plans a partitioned query from the discovered cursors: the fallback
/// when there are none, otherwise exactly `cursors.len() + 1` range
/// sub-queries whose bounds walk the boundary list in order.
pub fn plan_partition_query(
    base: &FirestoreQueryParams,
    cursors: Vec<FirestoreQueryCursor>,
) -> (r: FirestorePartitionPlan)
    requires
        cursors@.len() < usize::MAX,
    ensures
        cursors@.len() == 0 ==> r == FirestorePartitionPlan::Fallback(*base),
        cursors@.len() > 0 ==> (r matches FirestorePartitionPlan::Partitioned(ranges) && {
            &&& ranges@.len() == cursors@.len() + 1
            &&& forall|k: int|
                0 <= k < ranges@.len() ==> range_matches(#[trigger] ranges@[k], *base, cursors@, k)
        }),
{
    if cursors.len() == 0 {
        return FirestorePartitionPlan::Fallback(base.clone());
    }
    let n = cursors.len();
    let mut ranges: Vec<FirestorePartitionRange> = Vec::new();
    let mut k: usize = 0;
    while k < n + 1
        invariant
            cursors@.len() == n,
            0 < n < usize::MAX,
            k <= n + 1,
            ranges@.len() == k,
            forall|j: int| 0 <= j < k ==> range_matches(#[trigger] ranges@[j], *base, cursors@, j),
        decreases n + 1 - k,
    {
        let start_at: Option<FirestoreQueryCursor> = if k == 0 {
            base.start_at.clone()
        } else {
            Some(cursors[k - 1].clone())
        };
        let end_at: Option<FirestoreQueryCursor> = if k == n {
            base.end_at.clone()
        } else {
            Some(cursors[k].clone())
        };
        let mut params = base.clone();
        params.mopt_start_at(start_at);
        let end_for_params = end_at.clone();
        params.mopt_end_at(end_for_params);
        let partition = FirestorePartition::new().opt_start_at(
            params.start_at.clone(),
        ).opt_end_at(params.end_at.clone());
        ranges.push(FirestorePartitionRange { params, partition });
        k = k + 1;
    }
    FirestorePartitionPlan::Partitioned(ranges)
}

/// Tags every result of one range with that range's partition: successes
/// become `(partition, item)` pairs, failures pass through unchanged as
/// the range's own error elements.
pub fn tag_partition_results<T>(
    partition: &FirestorePartition,
    items: Vec<Result<T, FirestoreError>>,
) -> (r: Vec<Result<(FirestorePartition, T), FirestoreError>>)
    ensures
        r@.len() == items@.len(),
        forall|j: int|
            0 <= j < items@.len() ==> (#[trigger] r@[j]) == (match items@[j] {
                Ok(v) => Ok((*partition, v)),
                Err(e) => Err::<(FirestorePartition, T), FirestoreError>(e),
            }),
{
    let ghost orig: Seq<Result<T, FirestoreError>> = items@;
    let mut rest = items;
    let mut out: Vec<Result<(FirestorePartition, T), FirestoreError>> = Vec::new();
    let ghost mut i: int = 0;
    while rest.len() > 0
        invariant
            0 <= i,
            i + rest.len() == orig.len(),
            rest@ == orig.subrange(i, orig.len() as int),
            out@.len() == i,
            forall|j: int|
                0 <= j < i ==> (#[trigger] out@[j]) == (match orig[j] {
                    Ok(v) => Ok((*partition, v)),
                    Err(e) => Err::<(FirestorePartition, T), FirestoreError>(e),
                }),
        decreases rest.len(),
    {
        let item = rest.remove(0);
        proof {
            assert(item == orig[i]);
            assert(rest@ =~= orig.subrange(i + 1, orig.len() as int));
        }
        match item {
            Ok(v) => out.push(Ok((partition.clone(), v))),
            Err(e) => out.push(Err(e)),
        }
        proof {
            i = i + 1;
        }
    }
    out
}

/// Tags the fallback stream: when the server declined to partition,
/// every emitted item carries the whole-collection partition, the one
/// with no bound on either side.
pub fn tag_fallback_results<T>(items: Vec<Result<T, FirestoreError>>) -> (r: Vec<
    Result<(FirestorePartition, T), FirestoreError>,
>)
    ensures
        r@.len() == items@.len(),
        forall|j: int|
            0 <= j < items@.len() ==> (#[trigger] r@[j]) == (match items@[j] {
                Ok(v) => Ok(
                    (FirestorePartition { start_at: None, end_at: None }, v),
                ),
                Err(e) => Err::<(FirestorePartition, T), FirestoreError>(e),
            }),
{
    let whole = FirestorePartition::new();
    tag_partition_results(&whole, items)
}

/// The results of one range, each tagged with the range's partition.
pub open spec fn tagged_range_output<T>(
    partition: FirestorePartition,
    items: Seq<Result<T, FirestoreError>>,
) -> Seq<Result<(FirestorePartition, T), FirestoreError>> {
    items.map_values(
        |item: Result<T, FirestoreError>|
            match item {
                Ok(v) => Ok((partition, v)),
                Err(e) => Err(e),
            },
    )
}

/// The fan-in of all ranges taken in range order: each range's tagged
/// output, one after the other.
pub open spec fn merged_range_outputs<T>(
    partitions: Seq<FirestorePartition>,
    outputs: Seq<Seq<Result<T, FirestoreError>>>,
) -> Seq<Result<(FirestorePartition, T), FirestoreError>>
    decreases partitions.len(),
{
    if partitions.len() == 0 {
        Seq::empty()
    } else {
        tagged_range_output(partitions[0], outputs[0]) + merged_range_outputs(
            partitions.drop_first(),
            outputs.drop_first(),
        )
    }
}

/// Funnels the outputs of all planned ranges into one sequence, given
/// positionally: the items range `k` produced — or its single error
/// element — against the plan's range `k`.
///
/// The real fan-in pushes each item as soon as whichever worker produced
/// it, so the merged order across ranges is arrival order and varies
/// between runs; this materialization realizes one admissible arrival
/// order, the range order itself, and within each range keeps the range's
/// own order, as every admissible order must.
pub fn merge_range_results<T>(
    ranges: &Vec<FirestorePartitionRange>,
    outputs: Vec<Vec<Result<T, FirestoreError>>>,
) -> (r: Vec<Result<(FirestorePartition, T), FirestoreError>>)
    requires
        ranges@.len() == outputs@.len(),
    ensures
        r@ == merged_range_outputs(
            ranges@.map_values(|rg: FirestorePartitionRange| rg.partition),
            outputs@.map_values(|o: Vec<Result<T, FirestoreError>>| o@),
        ),
{
    let ghost partitions: Seq<FirestorePartition> = ranges@.map_values(
        |rg: FirestorePartitionRange| rg.partition,
    );
    let ghost all: Seq<Seq<Result<T, FirestoreError>>> = outputs@.map_values(
        |o: Vec<Result<T, FirestoreError>>| o@,
    );
    let n = ranges.len();
    let mut rest = outputs;
    let mut out: Vec<Result<(FirestorePartition, T), FirestoreError>> = Vec::new();
    let mut k: usize = 0;
    proof {
        assert(partitions.subrange(0, partitions.len() as int) =~= partitions);
        assert(all.subrange(0, all.len() as int) =~= all);
    }
    while rest.len() > 0
        invariant
            ranges@.len() == all.len(),
            all.len() == n,
            partitions == ranges@.map_values(|rg: FirestorePartitionRange| rg.partition),
            k + rest.len() == n,
            forall|j: int| 0 <= j < rest.len() ==> (#[trigger] rest@[j])@ == all[k + j],
            merged_range_outputs(partitions, all) == out@ + merged_range_outputs(
                partitions.subrange(k as int, partitions.len() as int),
                all.subrange(k as int, all.len() as int),
            ),
        decreases rest.len(),
    {
        let ghost p_suffix: Seq<FirestorePartition> = partitions.subrange(
            k as int,
            partitions.len() as int,
        );
        let ghost o_suffix: Seq<Seq<Result<T, FirestoreError>>> = all.subrange(
            k as int,
            all.len() as int,
        );
        let items = rest.remove(0);
        proof {
            assert(items@ == all[k as int]);
            assert(p_suffix[0] == partitions[k as int]);
            assert(o_suffix[0] == all[k as int]);
            assert(p_suffix.drop_first() =~= partitions.subrange(
                k + 1,
                partitions.len() as int,
            ));
            assert(o_suffix.drop_first() =~= all.subrange(k + 1, all.len() as int));
        }
        let mut tagged = tag_partition_results(&ranges[k].partition, items);
        proof {
            assert(tagged@ =~= tagged_range_output(partitions[k as int], all[k as int]));
        }
        out.append(&mut tagged);
        k = k + 1;
    }
    proof {
        assert(partitions.subrange(k as int, partitions.len() as int).len() == 0);
        assert(out@ =~= merged_range_outputs(partitions, all));
    }
    out
}

/// Admission control of the fan-out stage: at most `limit` range
/// sub-queries are admitted at once. A worker is admitted only while a
/// slot is free and gives its slot back when it finishes; the count of
/// admitted workers never exceeds the limit.
#[derive(Debug)]
pub struct ParallelismGate {
    active: usize,
    limit: usize,
}

impl ParallelismGate {
    /// How many workers are admitted now.
    pub closed spec fn active_count(&self) -> nat {
        self.active as nat
    }

    /// The admission cap.
    pub closed spec fn limit(&self) -> nat {
        self.limit as nat
    }

    /// Well-formedness: admitted workers never exceed the cap.
    pub open spec fn wf(&self) -> bool {
        self.active_count() <= self.limit()
    }

    /// A fresh gate with the given cap and no admitted workers.
    pub fn new(limit: usize) -> (g: Self)
        ensures
            g.wf(),
            g.active_count() == 0,
            g.limit() == limit,
    {
        ParallelismGate { active: 0, limit }
    }

    /// Admits one worker when a slot is free; the cap is never exceeded.
    pub fn try_acquire(&mut self) -> (admitted: bool)
        requires
            old(self).wf(),
        ensures
            final(self).wf(),
            final(self).limit() == old(self).limit(),
            admitted <==> old(self).active_count() < old(self).limit(),
            admitted ==> final(self).active_count() == old(self).active_count() + 1,
            !admitted ==> final(self).active_count() == old(self).active_count(),
    {
        if self.active < self.limit {
            self.active = self.active + 1;
            true
        } else {
            false
        }
    }

    /// Releases the slot of one finished worker.
    pub fn release(&mut self)
        requires
            old(self).wf(),
            old(self).active_count() > 0,
        ensures
            final(self).wf(),
            final(self).limit() == old(self).limit(),
            final(self).active_count() == old(self).active_count() - 1,
    {
        self.active = self.active - 1;
    }
}

} // verus!
