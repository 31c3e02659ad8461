use vstd::prelude::*;

use crate::cursor::FetchCursor;
use crate::error::PostViewError;
use crate::post::{PostDetails, PostReference};
use crate::resolver::{chunk_references, chunked, chunks_view};

verus! {

/// Catalog offsets below this bootstrap the session from the deterministic
/// catalog; from this offset on, the personalized feed is preferred.
pub const WARMUP_THRESHOLD: u64 = 15;

/// Which upstream source produced a page.
#[derive(Clone, Copy, PartialEq, Eq, Structural, Debug)]
pub enum FeedResultType {
    PostCache,
    MLFeed,
}

/// The NSFW policy a catalog query carries through to the upstream, opaque
/// to the engine beyond pass-through.
#[derive(Clone, Copy, PartialEq, Eq, Structural, Debug)]
pub enum NsfwFilter {
    IncludeNsfw,
    ExcludeNsfw,
}

/// How the catalog upstream refuses a page request. Reaching the end of
/// the item list is a normal termination, not a failure.
#[derive(Clone, Copy, PartialEq, Eq, Structural, Debug)]
pub enum TopPostsFetchError {
    ReachedEndOfItemsList,
    InvalidBoundsPassed,
    ExceededMaxNumberOfItemsAllowedInOneRequest,
}

/// A fully determined catalog page request: offset, page size and policy.
#[derive(Clone, Copy, PartialEq, Eq, Structural, Debug)]
pub struct CatalogQuery {
    pub start: u64,
    pub limit: u64,
    pub filter: NsfwFilter,
}

/// A fully determined recommendation feed request: the page size and the
/// recently viewed records the service personalizes against.
#[derive(PartialEq, Eq, Debug)]
pub struct MLFeedQuery {
    pub limit: u64,
    pub video_queue: Vec<PostDetails>,
}

/// An upstream request the engine asks its caller to perform.
#[derive(PartialEq, Eq, Debug)]
pub enum SourceQuery {
    Catalog(CatalogQuery),
    MLFeed(MLFeedQuery),
}

/// What the recommendation upstream came back with: a batch of references,
/// a report that no live session exists, or a failure with its detail.
#[derive(Clone, PartialEq, Eq, Debug)]
pub enum MLFeedResponse {
    Batch(Vec<PostReference>),
    Unavailable,
    Failed(String),
}

/// An upstream response the caller hands back to the engine.
#[derive(PartialEq, Eq, Debug)]
pub enum SourceResponse {
    Catalog(Result<Vec<PostReference>, TopPostsFetchError>),
    MLFeed(MLFeedResponse),
}

/// Where a hybrid fetch stands while an upstream response is pending.
#[derive(Clone, Copy, PartialEq, Eq, Structural, Debug)]
pub enum HybridPhase {
    UsingCatalog,
    UsingRecommendation,
    FallingBackToCatalog,
}

/// One page of the feed: the references to resolve, cut into chunks in
/// input order; whether the producing source is exhausted; and which
/// source produced it.
#[derive(PartialEq, Eq, Debug)]
pub struct FetchVideosRes {
    pub chunks: Vec<Vec<PostReference>>,
    pub end: bool,
    pub res_type: FeedResultType,
}

/// What a hybrid fetch asks for next: another upstream query, or the
/// call's final result.
#[derive(PartialEq, Eq, Debug)]
pub enum HybridStep {
    Query(HybridPhase, SourceQuery),
    Done(Result<FetchVideosRes, PostViewError>),
}

/// The feed engine for one page fetch, built from the caller's cursor.
#[derive(Clone, Copy, PartialEq, Eq, Structural, Debug)]
pub struct VideoFetchStream {
    pub cursor: FetchCursor,
}

impl VideoFetchStream {
    pub fn new(cursor: FetchCursor) -> (s: Self)
        ensures
            s.cursor == cursor,
    {
        VideoFetchStream { cursor }
    }

    /// The catalog request this cursor and policy determine.
    pub open spec fn catalog_query_spec(self, allow_nsfw: bool) -> CatalogQuery {
        CatalogQuery {
            start: self.cursor.start,
            limit: self.cursor.limit,
            filter: if allow_nsfw {
                NsfwFilter::IncludeNsfw
            } else {
                NsfwFilter::ExcludeNsfw
            },
        }
    }

    pub fn catalog_query(&self, allow_nsfw: bool) -> (q: CatalogQuery)
        ensures
            q == self.catalog_query_spec(allow_nsfw),
    {
        CatalogQuery {
            start: self.cursor.start,
            limit: self.cursor.limit,
            filter: if allow_nsfw {
                NsfwFilter::IncludeNsfw
            } else {
                NsfwFilter::ExcludeNsfw
            },
        }
    }

    /// How a catalog response becomes this call's result.
    ///
    /// An explicit end-of-list refusal is a normal, empty, exhausted page.
    /// Any other refusal is a failure of the call. A returned batch keeps
    /// its order, cut into chunks, and the page is exhausted exactly when
    /// the batch under-fills the cursor's page size.
    pub open spec fn catalog_fetch_ok(
        self,
        chunk_size: int,
        response: Result<Vec<PostReference>, TopPostsFetchError>,
        r: Result<FetchVideosRes, PostViewError>,
    ) -> bool {
        match response {
            Ok(items) => {
                &&& r matches Ok(res)
                &&& chunks_view(res.chunks@) == chunked(items@, chunk_size)
                &&& res.end == (items@.len() < self.cursor.limit)
                &&& res.res_type == FeedResultType::PostCache
            },
            Err(TopPostsFetchError::ReachedEndOfItemsList) => {
                &&& r matches Ok(res)
                &&& res.chunks@.len() == 0
                &&& res.end == true
                &&& res.res_type == FeedResultType::PostCache
            },
            Err(_) => {
                &&& r matches Err(e)
                &&& e matches PostViewError::Canister(detail)
                &&& detail@ == "canister refused to send posts"@
            },
        }
    }

    /// Interpret the catalog upstream's response for this cursor's page.
    pub fn fetch_post_uids_chunked(
        &self,
        chunks: usize,
        response: Result<Vec<PostReference>, TopPostsFetchError>,
    ) -> (r: Result<FetchVideosRes, PostViewError>)
        requires
            chunks >= 1,
            self.cursor.wf(),
        ensures
            self.catalog_fetch_ok(chunks as int, response, r),
    {
        match response {
            Ok(items) => {
                let end = (items.len() as u64) < self.cursor.limit;
                let chunk_vec = chunk_references(items, chunks);
                Ok(FetchVideosRes { chunks: chunk_vec, end, res_type: FeedResultType::PostCache })
            },
            Err(TopPostsFetchError::ReachedEndOfItemsList) => Ok(
                FetchVideosRes { chunks: Vec::new(), end: true, res_type: FeedResultType::PostCache },
            ),
            Err(_) => Err(PostViewError::Canister("canister refused to send posts".to_string())),
        }
    }

    /// How a recommendation feed response becomes this call's result.
    ///
    /// A missing session surfaces as `Unavailable`, an upstream failure as
    /// `MLFeedError`; a returned batch keeps its order, cut into chunks,
    /// and the page is exhausted exactly when the batch under-fills the
    /// cursor's page size.
    pub open spec fn ml_feed_fetch_ok(
        self,
        chunk_size: int,
        response: MLFeedResponse,
        r: Result<FetchVideosRes, PostViewError>,
    ) -> bool {
        match response {
            MLFeedResponse::Batch(items) => {
                &&& r matches Ok(res)
                &&& chunks_view(res.chunks@) == chunked(items@, chunk_size)
                &&& res.end == (items@.len() < self.cursor.limit)
                &&& res.res_type == FeedResultType::MLFeed
            },
            MLFeedResponse::Unavailable => {
                &&& r matches Err(e)
                &&& e == PostViewError::Unavailable
            },
            MLFeedResponse::Failed(_) => {
                &&& r matches Err(e)
                &&& e matches PostViewError::MLFeedError(detail)
                &&& detail@ == "ML feed server failed to send results"@
            },
        }
    }

    /// Interpret the recommendation upstream's response for this cursor's
    /// page.
    pub fn fetch_post_uids_ml_feed_chunked(&self, chunks: usize, response: MLFeedResponse) -> (r:
        Result<FetchVideosRes, PostViewError>)
        requires
            chunks >= 1,
            self.cursor.wf(),
        ensures
            self.ml_feed_fetch_ok(chunks as int, response, r),
    {
        match response {
            MLFeedResponse::Batch(items) => {
                let end = (items.len() as u64) < self.cursor.limit;
                let chunk_vec = chunk_references(items, chunks);
                Ok(FetchVideosRes { chunks: chunk_vec, end, res_type: FeedResultType::MLFeed })
            },
            MLFeedResponse::Unavailable => Err(PostViewError::Unavailable),
            MLFeedResponse::Failed(_) => Err(
                PostViewError::MLFeedError("ML feed server failed to send results".to_string()),
            ),
        }
    }

    /// Where a hybrid fetch starts: below the warm-up threshold the
    /// catalog bootstraps the session; from the threshold on, the
    /// recommendation feed is preferred.
    pub open spec fn hybrid_begin_spec(self, allow_nsfw: bool, video_queue: Vec<PostDetails>) -> (
        HybridPhase,
        SourceQuery,
    ) {
        if self.cursor.start < WARMUP_THRESHOLD {
            (HybridPhase::UsingCatalog, SourceQuery::Catalog(self.catalog_query_spec(allow_nsfw)))
        } else {
            (
                HybridPhase::UsingRecommendation,
                SourceQuery::MLFeed(MLFeedQuery { limit: self.cursor.limit, video_queue }),
            )
        }
    }

    /// Begin a hybrid page fetch: select the source for this cursor and
    /// hand back the query the caller must perform next.
    pub fn fetch_post_uids_hybrid(&self, allow_nsfw: bool, video_queue: Vec<PostDetails>) -> (r: (
        HybridPhase,
        SourceQuery,
    ))
        ensures
            r == self.hybrid_begin_spec(allow_nsfw, video_queue),
    {
        if self.cursor.start < WARMUP_THRESHOLD {
            (HybridPhase::UsingCatalog, SourceQuery::Catalog(self.catalog_query(allow_nsfw)))
        } else {
            (
                HybridPhase::UsingRecommendation,
                SourceQuery::MLFeed(MLFeedQuery { limit: self.cursor.limit, video_queue }),
            )
        }
    }

    /// Which kind of response each pending phase awaits.
    pub open spec fn phase_expects(phase: HybridPhase, response: SourceResponse) -> bool {
        match phase {
            HybridPhase::UsingCatalog => response is Catalog,
            HybridPhase::FallingBackToCatalog => response is Catalog,
            HybridPhase::UsingRecommendation => response is MLFeed,
        }
    }

    /// How one upstream response advances a hybrid fetch.
    ///
    /// A catalog response — first choice or fallback — settles the call.
    /// A recommendation batch settles the call; any recommendation
    /// failure, unavailability included, is swallowed and the engine asks
    /// for the catalog with the same cursor instead.
    pub open spec fn hybrid_resume_ok(
        self,
        allow_nsfw: bool,
        chunk_size: int,
        phase: HybridPhase,
        response: SourceResponse,
        r: HybridStep,
    ) -> bool {
        match (phase, response) {
            (HybridPhase::UsingCatalog, SourceResponse::Catalog(cr)) => {
                &&& r matches HybridStep::Done(d)
                &&& self.catalog_fetch_ok(chunk_size, cr, d)
            },
            (HybridPhase::FallingBackToCatalog, SourceResponse::Catalog(cr)) => {
                &&& r matches HybridStep::Done(d)
                &&& self.catalog_fetch_ok(chunk_size, cr, d)
            },
            (HybridPhase::UsingRecommendation, SourceResponse::MLFeed(mr)) => match mr {
                MLFeedResponse::Batch(_) => {
                    &&& r matches HybridStep::Done(d)
                    &&& self.ml_feed_fetch_ok(chunk_size, mr, d)
                },
                MLFeedResponse::Unavailable | MLFeedResponse::Failed(_) => r == HybridStep::Query(
                    HybridPhase::FallingBackToCatalog,
                    SourceQuery::Catalog(self.catalog_query_spec(allow_nsfw)),
                ),
            },
            _ => true,
        }
    }

    /// Advance a hybrid page fetch with the response to the query the
    /// engine asked for last.
    pub fn fetch_post_uids_hybrid_resume(
        &self,
        chunks: usize,
        allow_nsfw: bool,
        phase: HybridPhase,
        response: SourceResponse,
    ) -> (r: HybridStep)
        requires
            chunks >= 1,
            self.cursor.wf(),
            Self::phase_expects(phase, response),
        ensures
            self.hybrid_resume_ok(allow_nsfw, chunks as int, phase, response, r),
    {
        match (phase, response) {
            (HybridPhase::UsingCatalog, SourceResponse::Catalog(cr)) => HybridStep::Done(
                self.fetch_post_uids_chunked(chunks, cr),
            ),
            (HybridPhase::FallingBackToCatalog, SourceResponse::Catalog(cr)) => HybridStep::Done(
                self.fetch_post_uids_chunked(chunks, cr),
            ),
            (HybridPhase::UsingRecommendation, SourceResponse::MLFeed(mr)) => match mr {
                MLFeedResponse::Batch(_) => HybridStep::Done(
                    self.fetch_post_uids_ml_feed_chunked(chunks, mr),
                ),
                MLFeedResponse::Unavailable | MLFeedResponse::Failed(_) => HybridStep::Query(
                    HybridPhase::FallingBackToCatalog,
                    SourceQuery::Catalog(self.catalog_query(allow_nsfw)),
                ),
            },
            (HybridPhase::UsingCatalog, SourceResponse::MLFeed(_)) => HybridStep::Done(
                Err(PostViewError::Unavailable),
            ),
            (HybridPhase::FallingBackToCatalog, SourceResponse::MLFeed(_)) => HybridStep::Done(
                Err(PostViewError::Unavailable),
            ),
            (HybridPhase::UsingRecommendation, SourceResponse::Catalog(_)) => HybridStep::Done(
                Err(PostViewError::Unavailable),
            ),
        }
    }
}

/// Warm-up boundary: a cursor one step below the threshold still selects
/// the catalog; a cursor at the threshold selects the recommendation feed,
/// so the boundary is inclusive on the recommendation side.
pub proof fn lemma_warmup_boundary(
    low: VideoFetchStream,
    high: VideoFetchStream,
    allow_nsfw: bool,
    vq_low: Vec<PostDetails>,
    vq_high: Vec<PostDetails>,
)
    requires
        low.cursor.start == WARMUP_THRESHOLD - 1,
        high.cursor.start == WARMUP_THRESHOLD,
    ensures
        low.hybrid_begin_spec(allow_nsfw, vq_low).0 == HybridPhase::UsingCatalog,
        high.hybrid_begin_spec(allow_nsfw, vq_high).0 == HybridPhase::UsingRecommendation,
{
}

/// Exhaustion signaling: a catalog page with fewer items than the cursor's
/// page size marks the source exhausted even though no explicit
/// end-of-list signal was returned.
pub proof fn lemma_exhaustion_signaling(
    s: VideoFetchStream,
    chunk_size: int,
    items: Vec<PostReference>,
    r: Result<FetchVideosRes, PostViewError>,
)
    requires
        s.catalog_fetch_ok(chunk_size, Ok(items), r),
        items@.len() < s.cursor.limit,
    ensures
        r matches Ok(res) && res.end,
{
}

/// Fallback determinism: with the cursor at or past the warm-up threshold
/// and the recommendation feed unavailable, a hybrid fetch queries the
/// recommendation feed exactly once, then the catalog exactly once with
/// the same cursor, and the catalog's interpretation is the call's final
/// result — the recommendation failure never surfaces.
pub proof fn lemma_fallback_determinism(
    s: VideoFetchStream,
    allow_nsfw: bool,
    video_queue: Vec<PostDetails>,
    chunk_size: int,
    first: (HybridPhase, SourceQuery),
    second: HybridStep,
    third: HybridStep,
    catalog_response: Result<Vec<PostReference>, TopPostsFetchError>,
)
    requires
        s.cursor.start >= WARMUP_THRESHOLD,
        first == s.hybrid_begin_spec(allow_nsfw, video_queue),
        s.hybrid_resume_ok(
            allow_nsfw,
            chunk_size,
            first.0,
            SourceResponse::MLFeed(MLFeedResponse::Unavailable),
            second,
        ),
        second matches HybridStep::Query(p2, q2) ==> s.hybrid_resume_ok(
            allow_nsfw,
            chunk_size,
            p2,
            SourceResponse::Catalog(catalog_response),
            third,
        ),
    ensures
        first.0 == HybridPhase::UsingRecommendation,
        first.1 matches SourceQuery::MLFeed(q) && q.limit == s.cursor.limit && q.video_queue
            == video_queue,
        second == HybridStep::Query(
            HybridPhase::FallingBackToCatalog,
            SourceQuery::Catalog(s.catalog_query_spec(allow_nsfw)),
        ),
        third matches HybridStep::Done(d) && s.catalog_fetch_ok(chunk_size, catalog_response, d),
{
}

} // verus!
