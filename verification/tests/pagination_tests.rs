use firestore_query::errors::{FirestoreDatabaseError, FirestoreError};
use firestore_query::pagination::{paginate_partition_cursors, pagination_step, FirestorePartitionPage};
use firestore_query::params::{
    FirestorePartitionQueryParams, FirestoreQueryCursor, FirestoreQueryParams,
};
use firestore_query::request::{FirestoreConsistencySelector, FirestoreSessionParams,
    UNSUPPORTED_CONSISTENCY_SELECTOR};

fn cursor(encoded: &str) -> FirestoreQueryCursor {
    FirestoreQueryCursor {
        encoded: encoded.to_string(),
    }
}

fn partition_params() -> FirestorePartitionQueryParams {
    FirestorePartitionQueryParams {
        query_params: FirestoreQueryParams {
            collection_id: "users".to_string(),
            parent: None,
            filter_spec: "".to_string(),
            start_at: None,
            end_at: None,
            limit: None,
        },
        partition_count: 4,
        page_size: 2,
        page_token: None,
    }
}

fn session() -> FirestoreSessionParams {
    FirestoreSessionParams {
        documents_path: "projects/p/databases/d/documents".to_string(),
        consistency_selector: None,
        max_retries: 0,
    }
}

#[test]
fn two_pages_flatten_in_order_and_terminate() {
    // Tokens chain "" -> "tok1" -> "", with cursors [c1] then [c2, c3].
    let pages = vec![
        Ok(FirestorePartitionPage {
            cursors: vec![cursor("c1")],
            next_page_token: "tok1".to_string(),
        }),
        Ok(FirestorePartitionPage {
            cursors: vec![cursor("c2"), cursor("c3")],
            next_page_token: "".to_string(),
        }),
        // A further page must never be requested.
        Ok(FirestorePartitionPage {
            cursors: vec![cursor("c4")],
            next_page_token: "".to_string(),
        }),
    ];
    let (reqs, out) = paginate_partition_cursors(&partition_params(), &session(), pages).unwrap();
    assert_eq!(reqs.len(), 2);
    assert_eq!(reqs[0].page_token, "");
    assert_eq!(reqs[1].page_token, "tok1");
    assert_eq!(
        out,
        vec![Ok(cursor("c1")), Ok(cursor("c2")), Ok(cursor("c3"))]
    );
}

#[test]
fn single_page_without_token_ends_after_one_request() {
    let pages = vec![Ok(FirestorePartitionPage {
        cursors: vec![],
        next_page_token: "".to_string(),
    })];
    let (reqs, out) = paginate_partition_cursors(&partition_params(), &session(), pages).unwrap();
    assert_eq!(reqs.len(), 1);
    assert!(out.is_empty());
}

#[test]
fn page_fetch_error_emits_one_element_and_stops() {
    let pages = vec![
        Ok(FirestorePartitionPage {
            cursors: vec![cursor("c1")],
            next_page_token: "tok1".to_string(),
        }),
        Err(FirestoreError::Transport(3)),
        Ok(FirestorePartitionPage {
            cursors: vec![cursor("c2")],
            next_page_token: "".to_string(),
        }),
    ];
    let (reqs, out) = paginate_partition_cursors(&partition_params(), &session(), pages).unwrap();
    assert_eq!(reqs.len(), 2);
    assert_eq!(
        out,
        vec![Ok(cursor("c1")), Err(FirestoreError::Transport(3))]
    );
}

#[test]
fn requests_carry_partitioning_knobs() {
    let pages = vec![Ok(FirestorePartitionPage {
        cursors: vec![],
        next_page_token: "".to_string(),
    })];
    let (reqs, _) = paginate_partition_cursors(&partition_params(), &session(), pages).unwrap();
    assert_eq!(reqs[0].partition_count, 4);
    assert_eq!(reqs[0].page_size, 2);
    assert_eq!(reqs[0].parent, "projects/p/databases/d/documents");
    assert_eq!(reqs[0].query.collection_id, "users");
}

#[test]
fn step_continues_on_nonempty_token() {
    let params = partition_params();
    let (emitted, next) = pagination_step(
        params.clone(),
        Ok(FirestorePartitionPage {
            cursors: vec![cursor("c1"), cursor("c2")],
            next_page_token: "tok2".to_string(),
        }),
    );
    assert_eq!(emitted, vec![Ok(cursor("c1")), Ok(cursor("c2"))]);
    let next = next.unwrap();
    assert_eq!(next.page_token, Some("tok2".to_string()));
    assert_eq!(next.query_params, params.query_params);
}

#[test]
fn step_stops_on_empty_token_or_error() {
    let (emitted, next) = pagination_step(
        partition_params(),
        Ok(FirestorePartitionPage {
            cursors: vec![],
            next_page_token: "".to_string(),
        }),
    );
    assert!(emitted.is_empty());
    assert!(next.is_none());

    let (emitted, next) = pagination_step(
        partition_params(),
        Err(FirestoreError::Database(FirestoreDatabaseError {
            retry_possible: true,
            code: 6,
        })),
    );
    assert_eq!(emitted.len(), 1);
    assert!(emitted[0].is_err());
    assert!(next.is_none());
}

#[test]
fn transaction_consistency_fails_before_any_page() {
    let mut s = session();
    s.consistency_selector = Some(FirestoreConsistencySelector::Transaction("tx".to_string()));
    let pages = vec![Ok(FirestorePartitionPage {
        cursors: vec![cursor("c1")],
        next_page_token: "".to_string(),
    })];
    let err = paginate_partition_cursors(&partition_params(), &s, pages).unwrap_err();
    assert_eq!(
        err,
        FirestoreError::Configuration(UNSUPPORTED_CONSISTENCY_SELECTOR)
    );
}
