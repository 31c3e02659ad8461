use candid::Principal;
use video_feed::cursor::FetchCursor;
use video_feed::error::PostViewError;
use video_feed::feed::{
    FeedResultType, HybridPhase, HybridStep, MLFeedResponse, NsfwFilter, SourceQuery,
    SourceResponse, TopPostsFetchError, VideoFetchStream, WARMUP_THRESHOLD,
};
use video_feed::post::PostReference;

fn reference(post_id: u64) -> PostReference {
    PostReference {
        publisher_canister_id: Principal::from_slice(&[8, 8]),
        post_id,
    }
}

fn references(n: u64) -> Vec<PostReference> {
    (0..n).map(reference).collect()
}

#[test]
fn cursor_advances_monotonically() {
    let mut cursor = FetchCursor::new(0, 10);
    cursor.advance();
    assert_eq!(cursor.start, 10);
    assert_eq!(cursor.limit, 10);
    cursor.advance_by(7);
    assert_eq!(cursor.start, 17);
}

#[test]
fn catalog_query_carries_cursor_and_policy() {
    let s = VideoFetchStream::new(FetchCursor::new(30, 25));
    let q = s.catalog_query(true);
    assert_eq!((q.start, q.limit, q.filter), (30, 25, NsfwFilter::IncludeNsfw));
    let q = s.catalog_query(false);
    assert_eq!(q.filter, NsfwFilter::ExcludeNsfw);
}

#[test]
fn warmup_boundary_is_inclusive_on_recommendation_side() {
    let below = VideoFetchStream::new(FetchCursor::new(WARMUP_THRESHOLD - 1, 10));
    let (phase, query) = below.fetch_post_uids_hybrid(false, Vec::new());
    assert_eq!(phase, HybridPhase::UsingCatalog);
    assert!(matches!(query, SourceQuery::Catalog(_)));

    let at = VideoFetchStream::new(FetchCursor::new(WARMUP_THRESHOLD, 10));
    let (phase, query) = at.fetch_post_uids_hybrid(false, Vec::new());
    assert_eq!(phase, HybridPhase::UsingRecommendation);
    assert!(matches!(query, SourceQuery::MLFeed(_)));
}

#[test]
fn short_catalog_page_signals_exhaustion() {
    // Ten requested, three returned, no explicit end-of-list signal: the
    // page must still be marked exhausted.
    let s = VideoFetchStream::new(FetchCursor::new(0, 10));
    let res = s.fetch_post_uids_chunked(4, Ok(references(3))).unwrap();
    assert!(res.end);
    assert_eq!(res.res_type, FeedResultType::PostCache);
}

#[test]
fn full_catalog_page_is_not_exhausted() {
    let s = VideoFetchStream::new(FetchCursor::new(0, 10));
    let res = s.fetch_post_uids_chunked(4, Ok(references(10))).unwrap();
    assert!(!res.end);
    assert_eq!(res.chunks.iter().map(|c| c.len()).sum::<usize>(), 10);
}

#[test]
fn end_of_list_is_an_empty_exhausted_page() {
    let s = VideoFetchStream::new(FetchCursor::new(90, 10));
    let res = s
        .fetch_post_uids_chunked(4, Err(TopPostsFetchError::ReachedEndOfItemsList))
        .unwrap();
    assert!(res.end);
    assert!(res.chunks.is_empty());
    assert_eq!(res.res_type, FeedResultType::PostCache);
}

#[test]
fn other_catalog_refusals_fail_the_call() {
    let s = VideoFetchStream::new(FetchCursor::new(0, 10));
    let err = s
        .fetch_post_uids_chunked(4, Err(TopPostsFetchError::InvalidBoundsPassed))
        .unwrap_err();
    assert_eq!(
        err,
        PostViewError::Canister("canister refused to send posts".to_string())
    );
}

#[test]
fn catalog_chunks_preserve_order() {
    let s = VideoFetchStream::new(FetchCursor::new(0, 10));
    let res = s.fetch_post_uids_chunked(3, Ok(references(8))).unwrap();
    assert_eq!(
        res.chunks.iter().map(|c| c.len()).collect::<Vec<_>>(),
        vec![3, 3, 2]
    );
    let flat: Vec<u64> = res.chunks.iter().flatten().map(|r| r.post_id).collect();
    assert_eq!(flat, (0..8).collect::<Vec<_>>());
}

#[test]
fn ml_feed_batch_is_a_recommendation_page() {
    let s = VideoFetchStream::new(FetchCursor::new(20, 10));
    let res = s
        .fetch_post_uids_ml_feed_chunked(4, MLFeedResponse::Batch(references(10)))
        .unwrap();
    assert!(!res.end);
    assert_eq!(res.res_type, FeedResultType::MLFeed);
}

#[test]
fn short_ml_feed_batch_signals_exhaustion() {
    let s = VideoFetchStream::new(FetchCursor::new(20, 10));
    let res = s
        .fetch_post_uids_ml_feed_chunked(4, MLFeedResponse::Batch(references(2)))
        .unwrap();
    assert!(res.end);
}

#[test]
fn ml_feed_unavailable_error_variant() {
    let s = VideoFetchStream::new(FetchCursor::new(20, 10));
    let err = s
        .fetch_post_uids_ml_feed_chunked(4, MLFeedResponse::Unavailable)
        .unwrap_err();
    assert_eq!(err, PostViewError::Unavailable);
}

#[test]
fn ml_feed_failure_error_variant() {
    let s = VideoFetchStream::new(FetchCursor::new(20, 10));
    let err = s
        .fetch_post_uids_ml_feed_chunked(4, MLFeedResponse::Failed("boom".to_string()))
        .unwrap_err();
    assert_eq!(
        err,
        PostViewError::MLFeedError("ML feed server failed to send results".to_string())
    );
}

#[test]
fn fallback_queries_each_source_exactly_once() {
    // Recommendation feed permanently unavailable: the hybrid flow must
    // query the recommendation source once, then the catalog once, and
    // return the catalog's result.
    let s = VideoFetchStream::new(FetchCursor::new(20, 10));
    let mut ml_calls: u32 = 0;
    let mut catalog_calls: u32 = 0;

    let (phase, query) = s.fetch_post_uids_hybrid(false, Vec::new());
    assert_eq!(phase, HybridPhase::UsingRecommendation);
    let response = match query {
        SourceQuery::MLFeed(_) => {
            ml_calls += 1;
            SourceResponse::MLFeed(MLFeedResponse::Unavailable)
        }
        SourceQuery::Catalog(_) => unreachable!("catalog must not be queried first here"),
    };

    let step = s.fetch_post_uids_hybrid_resume(4, false, phase, response);
    let (phase, query) = match step {
        HybridStep::Query(p, q) => (p, q),
        HybridStep::Done(_) => unreachable!("the engine must fall back, not finish"),
    };
    assert_eq!(phase, HybridPhase::FallingBackToCatalog);
    let response = match query {
        SourceQuery::Catalog(q) => {
            catalog_calls += 1;
            assert_eq!((q.start, q.limit), (20, 10));
            SourceResponse::Catalog(Ok(references(10)))
        }
        SourceQuery::MLFeed(_) => unreachable!("the fallback must query the catalog"),
    };

    let step = s.fetch_post_uids_hybrid_resume(4, false, phase, response);
    let res = match step {
        HybridStep::Done(done) => done.unwrap(),
        HybridStep::Query(_, _) => unreachable!("a catalog response settles the call"),
    };
    assert_eq!(res.res_type, FeedResultType::PostCache);
    assert_eq!((ml_calls, catalog_calls), (1, 1));
}

#[test]
fn catalog_failure_on_fallback_surfaces() {
    let s = VideoFetchStream::new(FetchCursor::new(20, 10));
    let step = s.fetch_post_uids_hybrid_resume(
        4,
        false,
        HybridPhase::FallingBackToCatalog,
        SourceResponse::Catalog(Err(TopPostsFetchError::InvalidBoundsPassed)),
    );
    match step {
        HybridStep::Done(done) => assert!(done.is_err()),
        HybridStep::Query(_, _) => unreachable!("a catalog response settles the call"),
    }
}

#[test]
fn hybrid_session_scenario() {
    // limit 10, threshold 15. From offset 0 the catalog serves the page;
    // a full page leaves the feed unexhausted and the caller advances.
    let mut cursor = FetchCursor::new(0, 10);
    let s = VideoFetchStream::new(cursor);
    let (phase, query) = s.fetch_post_uids_hybrid(false, Vec::new());
    assert_eq!(phase, HybridPhase::UsingCatalog);
    match &query {
        SourceQuery::Catalog(q) => assert_eq!((q.start, q.limit), (0, 10)),
        SourceQuery::MLFeed(_) => unreachable!("warm-up must use the catalog"),
    }
    let step = s.fetch_post_uids_hybrid_resume(
        4,
        false,
        phase,
        SourceResponse::Catalog(Ok(references(10))),
    );
    let res = match step {
        HybridStep::Done(done) => done.unwrap(),
        HybridStep::Query(_, _) => unreachable!("a catalog response settles the call"),
    };
    assert!(!res.end);
    assert_eq!(res.res_type, FeedResultType::PostCache);

    // Still below the threshold after one page: catalog again.
    cursor.advance();
    assert_eq!(cursor.start, 10);
    let s = VideoFetchStream::new(cursor);
    let (phase, _) = s.fetch_post_uids_hybrid(false, Vec::new());
    assert_eq!(phase, HybridPhase::UsingCatalog);

    // At offset 15 the recommendation feed is preferred; unavailable, so
    // the engine falls back to the catalog at the same offset and the
    // page is tagged as a catalog page.
    cursor.advance_by(5);
    assert_eq!(cursor.start, 15);
    let s = VideoFetchStream::new(cursor);
    let (phase, _) = s.fetch_post_uids_hybrid(false, Vec::new());
    assert_eq!(phase, HybridPhase::UsingRecommendation);
    let step = s.fetch_post_uids_hybrid_resume(
        4,
        false,
        phase,
        SourceResponse::MLFeed(MLFeedResponse::Unavailable),
    );
    let (phase, query) = match step {
        HybridStep::Query(p, q) => (p, q),
        HybridStep::Done(_) => unreachable!("the engine must fall back, not finish"),
    };
    match query {
        SourceQuery::Catalog(q) => assert_eq!((q.start, q.limit), (15, 10)),
        SourceQuery::MLFeed(_) => unreachable!("the fallback must query the catalog"),
    }
    let step = s.fetch_post_uids_hybrid_resume(
        4,
        false,
        phase,
        SourceResponse::Catalog(Ok(references(10))),
    );
    match step {
        HybridStep::Done(done) => {
            assert_eq!(done.unwrap().res_type, FeedResultType::PostCache);
        }
        HybridStep::Query(_, _) => unreachable!("a catalog response settles the call"),
    }
}
