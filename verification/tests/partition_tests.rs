use firestore_query::errors::FirestoreError;
use firestore_query::params::{
    FirestoreDocument, FirestorePartition, FirestoreQueryCursor, FirestoreQueryParams,
};
use firestore_query::partition::{
    merge_range_results, plan_partition_query, tag_fallback_results, tag_partition_results,
    FirestorePartitionPlan, ParallelismGate,
};

fn cursor(encoded: &str) -> FirestoreQueryCursor {
    FirestoreQueryCursor {
        encoded: encoded.to_string(),
    }
}

fn base() -> FirestoreQueryParams {
    FirestoreQueryParams {
        collection_id: "users".to_string(),
        parent: None,
        filter_spec: "f".to_string(),
        start_at: None,
        end_at: None,
        limit: None,
    }
}

#[test]
fn zero_cursors_fall_back_to_unpartitioned_query() {
    let plan = plan_partition_query(&base(), vec![]);
    assert_eq!(plan, FirestorePartitionPlan::Fallback(base()));
}

#[test]
fn fallback_items_carry_boundless_partition() {
    let whole = FirestorePartition::new();
    assert_eq!(whole.start_at, None);
    assert_eq!(whole.end_at, None);
    let items: Vec<Result<FirestoreDocument, FirestoreError>> = vec![
        Ok(FirestoreDocument {
            name: "d1".to_string(),
            data: "{}".to_string(),
        }),
        Ok(FirestoreDocument {
            name: "d2".to_string(),
            data: "{}".to_string(),
        }),
    ];
    let tagged = tag_fallback_results(items);
    for t in tagged {
        let (p, _) = t.unwrap();
        assert_eq!(p.start_at, None);
        assert_eq!(p.end_at, None);
    }
}

#[test]
fn two_cursors_make_three_bounded_ranges() {
    let plan = plan_partition_query(&base(), vec![cursor("c1"), cursor("c2")]);
    let ranges = match plan {
        FirestorePartitionPlan::Partitioned(r) => r,
        FirestorePartitionPlan::Fallback(_) => panic!("expected ranges"),
    };
    assert_eq!(ranges.len(), 3);

    assert_eq!(ranges[0].params.start_at, None);
    assert_eq!(ranges[0].params.end_at, Some(cursor("c1")));
    assert_eq!(ranges[1].params.start_at, Some(cursor("c1")));
    assert_eq!(ranges[1].params.end_at, Some(cursor("c2")));
    assert_eq!(ranges[2].params.start_at, Some(cursor("c2")));
    assert_eq!(ranges[2].params.end_at, None);

    for r in &ranges {
        // Each tag carries the bounds its own sub-query uses, and the
        // rest of the base query is unchanged.
        assert_eq!(r.partition.start_at, r.params.start_at);
        assert_eq!(r.partition.end_at, r.params.end_at);
        assert_eq!(r.params.collection_id, "users");
        assert_eq!(r.params.filter_spec, "f");
    }
}

#[test]
fn ranges_keep_base_bounds_at_the_edges() {
    let mut b = base();
    b.start_at = Some(cursor("low"));
    b.end_at = Some(cursor("high"));
    let plan = plan_partition_query(&b, vec![cursor("mid")]);
    let ranges = match plan {
        FirestorePartitionPlan::Partitioned(r) => r,
        FirestorePartitionPlan::Fallback(_) => panic!("expected ranges"),
    };
    assert_eq!(ranges.len(), 2);
    assert_eq!(ranges[0].params.start_at, Some(cursor("low")));
    assert_eq!(ranges[0].params.end_at, Some(cursor("mid")));
    assert_eq!(ranges[1].params.start_at, Some(cursor("mid")));
    assert_eq!(ranges[1].params.end_at, Some(cursor("high")));
}

#[test]
fn tagging_passes_errors_through_unchanged() {
    let partition = FirestorePartition::new().opt_start_at(Some(cursor("c1")));
    let items: Vec<Result<u32, FirestoreError>> =
        vec![Ok(1), Err(FirestoreError::Transport(5)), Ok(2)];
    let tagged = tag_partition_results(&partition, items);
    assert_eq!(tagged.len(), 3);
    assert_eq!(
        tagged[0],
        Ok((
            FirestorePartition {
                start_at: Some(cursor("c1")),
                end_at: None
            },
            1
        ))
    );
    assert_eq!(tagged[1], Err(FirestoreError::Transport(5)));
    assert!(tagged[2].is_ok());
}

#[test]
fn gate_admits_at_most_the_parallelism_cap() {
    let mut gate = ParallelismGate::new(2);
    assert!(gate.try_acquire());
    assert!(gate.try_acquire());
    assert!(!gate.try_acquire());
    gate.release();
    assert!(gate.try_acquire());
    assert!(!gate.try_acquire());
}

#[test]
fn gate_with_zero_limit_admits_nobody() {
    let mut gate = ParallelismGate::new(0);
    assert!(!gate.try_acquire());
}

#[test]
fn merged_ranges_keep_each_ranges_own_order() {
    let plan = plan_partition_query(&base(), vec![cursor("c1")]);
    let ranges = match plan {
        FirestorePartitionPlan::Partitioned(r) => r,
        FirestorePartitionPlan::Fallback(_) => panic!("expected ranges"),
    };
    let outputs: Vec<Vec<Result<u32, FirestoreError>>> = vec![
        vec![Ok(1), Err(FirestoreError::Transport(9)), Ok(2)],
        vec![Ok(3)],
    ];
    let merged = merge_range_results(&ranges, outputs);
    assert_eq!(merged.len(), 4);
    assert_eq!(
        merged[0],
        Ok((ranges[0].partition.clone(), 1))
    );
    assert_eq!(merged[1], Err(FirestoreError::Transport(9)));
    assert_eq!(merged[2], Ok((ranges[0].partition.clone(), 2)));
    assert_eq!(merged[3], Ok((ranges[1].partition.clone(), 3)));
}
