use firestore_query::errors::{FirestoreDatabaseError, FirestoreError};
use firestore_query::params::FirestoreDocument;
use firestore_query::projection::{project_documents, projection_to_element};
use firestore_query::query::{
    query_doc_with_retries, stream_query_doc, stream_query_doc_with_errors,
};
use firestore_query::stream::{
    adapt_element_dropping, adapt_element_surfacing, collect_batch, collect_dropping,
    collect_surfacing, FirestoreStreamElement,
};

fn doc(name: &str) -> FirestoreDocument {
    FirestoreDocument {
        name: name.to_string(),
        data: "{}".to_string(),
    }
}

fn item_error(code: u32) -> FirestoreError {
    FirestoreError::Database(FirestoreDatabaseError {
        retry_possible: false,
        code,
    })
}

fn mixed_elements() -> Vec<FirestoreStreamElement<FirestoreDocument>> {
    vec![
        FirestoreStreamElement::Found(doc("doc1")),
        FirestoreStreamElement::Failed(item_error(1)),
        FirestoreStreamElement::Found(doc("doc2")),
        FirestoreStreamElement::Empty,
    ]
}

#[test]
fn drop_errors_mode_keeps_survivors_in_order() {
    let out = collect_dropping(mixed_elements());
    assert_eq!(out, vec![doc("doc1"), doc("doc2")]);
}

#[test]
fn surface_errors_mode_keeps_errors_in_place() {
    let out = collect_surfacing(mixed_elements());
    assert_eq!(
        out,
        vec![Ok(doc("doc1")), Err(item_error(1)), Ok(doc("doc2"))]
    );
}

#[test]
fn batch_mode_fails_on_first_item_failure() {
    let out = collect_batch(mixed_elements());
    assert_eq!(out, Err(item_error(1)));
}

#[test]
fn batch_mode_skips_empty_markers() {
    let elements = vec![
        FirestoreStreamElement::Empty,
        FirestoreStreamElement::Found(doc("a")),
        FirestoreStreamElement::Empty,
        FirestoreStreamElement::Found(doc("b")),
    ];
    let out = collect_batch(elements);
    assert_eq!(out, Ok(vec![doc("a"), doc("b")]));
}

#[test]
fn adapt_single_elements() {
    assert_eq!(
        adapt_element_dropping(FirestoreStreamElement::Found(3u32)),
        Some(3)
    );
    assert_eq!(
        adapt_element_dropping(FirestoreStreamElement::<u32>::Failed(item_error(2))),
        None
    );
    assert_eq!(
        adapt_element_dropping(FirestoreStreamElement::<u32>::Empty),
        None
    );
    assert_eq!(
        adapt_element_surfacing(FirestoreStreamElement::Found(3u32)),
        Some(Ok(3))
    );
    assert_eq!(
        adapt_element_surfacing(FirestoreStreamElement::<u32>::Failed(item_error(2))),
        Some(Err(item_error(2)))
    );
    assert_eq!(
        adapt_element_surfacing(FirestoreStreamElement::<u32>::Empty),
        None
    );
}

#[test]
fn projection_failure_obeys_drop_and_surface_policy() {
    // A document whose shape does not match the target type yields a
    // deserialization failure; as a stream element it is dropped in
    // drop-errors mode and delivered in surface-errors mode.
    let failed: Result<u32, FirestoreError> = Err(FirestoreError::Deserialization(9));
    let element = projection_to_element(failed);
    assert_eq!(
        element,
        FirestoreStreamElement::Failed(FirestoreError::Deserialization(9))
    );
    assert_eq!(adapt_element_dropping(element), None);
    let element = projection_to_element(Err::<u32, _>(FirestoreError::Deserialization(9)));
    assert_eq!(
        adapt_element_surfacing(element),
        Some(Err(FirestoreError::Deserialization(9)))
    );
}

#[test]
fn batch_projection_is_all_or_nothing() {
    let ok: Vec<Result<u32, FirestoreError>> = vec![Ok(1), Ok(2)];
    assert_eq!(project_documents(ok), Ok(vec![1, 2]));
    let bad: Vec<Result<u32, FirestoreError>> = vec![
        Ok(1),
        Err(FirestoreError::Deserialization(3)),
        Ok(2),
        Err(FirestoreError::Deserialization(4)),
    ];
    assert_eq!(
        project_documents(bad),
        Err(FirestoreError::Deserialization(3))
    );
}

#[test]
fn batch_query_with_retries_collects_all_or_nothing() {
    let retry_err = FirestoreError::Database(FirestoreDatabaseError {
        retry_possible: true,
        code: 5,
    });
    let attempts = vec![
        Err(retry_err),
        Ok(vec![
            FirestoreStreamElement::Found(doc("x")),
            FirestoreStreamElement::Empty,
            FirestoreStreamElement::Found(doc("y")),
        ]),
    ];
    let (made, outcome) = query_doc_with_retries(attempts, 2);
    assert_eq!(made, 2);
    assert_eq!(outcome, Ok(vec![doc("x"), doc("y")]));
}

#[test]
fn streaming_paths_adapt_established_stream() {
    let attempts = vec![Ok(mixed_elements())];
    let (made, outcome) = stream_query_doc(attempts, 0);
    assert_eq!(made, 1);
    assert_eq!(outcome, Ok(vec![doc("doc1"), doc("doc2")]));

    let attempts = vec![Ok(mixed_elements())];
    let (made, outcome) = stream_query_doc_with_errors(attempts, 0);
    assert_eq!(made, 1);
    assert_eq!(
        outcome,
        Ok(vec![Ok(doc("doc1")), Err(item_error(1)), Ok(doc("doc2"))])
    );
}

#[test]
fn establishment_error_ends_streaming_call() {
    let attempts: Vec<Result<Vec<FirestoreStreamElement<FirestoreDocument>>, FirestoreError>> =
        vec![Err(FirestoreError::Transport(2))];
    let (made, outcome) = stream_query_doc(attempts, 0);
    assert_eq!(made, 1);
    assert_eq!(outcome, Err(FirestoreError::Transport(2)));
}
