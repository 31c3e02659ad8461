use vstd::prelude::*;

use crate::error::PostViewError;
use crate::post::{PostDetails, PostReference};

verus! {

/// What the resolution backend reports for one reference: the post's stable
/// content identifier, that the post no longer exists, or an upstream
/// failure with its detail.
#[derive(Clone, PartialEq, Eq, Debug)]
pub enum UidResolution {
    Found(String),
    NotFound,
    Failed(String),
}

/// How one reference and its backend report combine into one output item:
/// a found identifier yields the resolved record, and each failure is
/// carried as an error at the reference's position, never dropped.
pub open spec fn resolve_one_spec(r: PostReference, u: UidResolution) -> Result<
    PostDetails,
    PostViewError,
> {
    match u {
        UidResolution::Found(uid) => Ok(
            PostDetails { canister_id: r.publisher_canister_id, post_id: r.post_id, uid },
        ),
        UidResolution::NotFound => Err(PostViewError::NotFound),
        UidResolution::Failed(detail) => Err(PostViewError::Canister(detail)),
    }
}

/// The whole output of resolving a reference sequence: item `i` is the
/// outcome for reference `i`, so output positions correspond one to one to
/// input positions.
pub open spec fn resolved_seq(refs: Seq<PostReference>, outs: Seq<UidResolution>) -> Seq<
    Result<PostDetails, PostViewError>,
> {
    Seq::new(refs.len(), |i: int| resolve_one_spec(refs[i], outs[i]))
}

/// A sequence cut into consecutive chunks of `c` items, the last chunk
/// holding whatever remains. Output order is input order.
pub open spec fn chunked<T>(s: Seq<T>, c: int) -> Seq<Seq<T>>
    recommends
        c >= 1,
    decreases s.len(),
    when c >= 1
{
    if s.len() == 0 {
        Seq::empty()
    } else if s.len() <= c {
        seq![s]
    } else {
        seq![s.take(c)] + chunked(s.skip(c), c)
    }
}

/// The mathematical contents of a vector of chunks.
pub open spec fn chunks_view<T>(cs: Seq<Vec<T>>) -> Seq<Seq<T>> {
    cs.map(|i: int, chunk: Vec<T>| chunk@)
}

/// Concatenating the chunks of a sequence gives the sequence back: chunking
/// loses nothing and reorders nothing.
pub proof fn lemma_chunked_flatten<T>(s: Seq<T>, c: int)
    requires
        c >= 1,
    ensures
        chunked(s, c).flatten() == s,
    decreases s.len(),
{
    if s.len() == 0 {
        assert(chunked(s, c).flatten() =~= s);
    } else if s.len() <= c {
        chunked(s, c).lemma_flatten_singleton();
    } else {
        lemma_chunked_flatten(s.skip(c), c);
        vstd::seq_lib::lemma_flatten_concat(seq![s.take(c)], chunked(s.skip(c), c));
        seq![s.take(c)].lemma_flatten_singleton();
        assert(s.take(c) + s.skip(c) =~= s);
    }
}

/// The chunk layout in closed form: chunk `i` holds exactly the input
/// positions from `i * c` up to, but not including, the smaller of
/// `(i + 1) * c` and the input's length.
pub proof fn lemma_chunked_index<T>(s: Seq<T>, c: int, i: int)
    requires
        c >= 1,
        0 <= i < chunked(s, c).len(),
    ensures
        0 <= i * c < s.len(),
        chunked(s, c)[i] == s.subrange(
            i * c,
            if (i + 1) * c <= s.len() {
                (i + 1) * c
            } else {
                s.len() as int
            },
        ),
    decreases s.len(),
{
    if s.len() <= c {
        assert(i == 0);
        assert(chunked(s, c)[0] == s);
        assert(s.subrange(0, s.len() as int) =~= s);
        assert(i * c == 0 && (i + 1) * c == c) by (nonlinear_arith)
            requires
                i == 0,
        ;
    } else if i == 0 {
        assert(chunked(s, c)[0] == s.take(c));
        assert(s.take(c) =~= s.subrange(0, c));
        assert(i * c == 0 && (i + 1) * c == c) by (nonlinear_arith)
            requires
                i == 0,
        ;
    } else {
        assert(chunked(s, c)[i] == chunked(s.skip(c), c)[i - 1]);
        lemma_chunked_index(s.skip(c), c, i - 1);
        let len2 = s.len() - c;
        let lo2 = (i - 1) * c;
        let hi2 = if i * c <= len2 {
            i * c
        } else {
            len2 as int
        };
        assert((i - 1) * c == i * c - c) by (nonlinear_arith);
        assert((i + 1) * c == i * c + c) by (nonlinear_arith);
        assert((i - 1) * c >= 0) by (nonlinear_arith)
            requires
                i >= 1,
                c >= 1,
        ;
        assert(0 <= lo2 <= hi2 <= len2);
        assert(s.skip(c).subrange(lo2, hi2) =~= s.subrange(lo2 + c, hi2 + c));
    }
}

/// Cut a batch of references into consecutive chunks of `chunk_size`,
/// keeping input order, so the caller can resolve and consume chunk by
/// chunk before the whole page is done.
pub fn chunk_references(refs: Vec<PostReference>, chunk_size: usize) -> (out: Vec<
    Vec<PostReference>,
>)
    requires
        chunk_size >= 1,
    ensures
        chunks_view(out@) == chunked(refs@, chunk_size as int),
{
    let ghost orig = refs@;
    let ghost c = chunk_size as int;
    let mut refs = refs;
    let mut out: Vec<Vec<PostReference>> = Vec::new();
    while refs.len() > 0
        invariant
            c == chunk_size as int,
            c >= 1,
            chunks_view(out@) + chunked(refs@, c) == chunked(orig, c),
        decreases refs@.len(),
    {
        let ghost pre = refs@;
        let ghost out_pre = out@;
        let take_n: usize = if refs.len() < chunk_size {
            refs.len()
        } else {
            chunk_size
        };
        let mut chunk: Vec<PostReference> = Vec::new();
        let mut j: usize = 0;
        while j < take_n
            invariant
                j <= take_n,
                take_n <= pre.len(),
                chunk@ == pre.take(j as int),
                refs@ == pre.skip(j as int),
            decreases take_n - j,
        {
            let x = refs.remove(0);
            proof {
                assert(x == pre[j as int]);
                assert(refs@ =~= pre.skip(j as int + 1));
            }
            chunk.push(x);
            proof {
                assert(chunk@ =~= pre.take(j as int + 1));
            }
            j = j + 1;
        }
        out.push(chunk);
        proof {
            let rest = chunked(refs@, c);
            if pre.len() <= c {
                assert(chunk@ =~= pre);
                assert(refs@ =~= Seq::<PostReference>::empty());
                assert(chunked(pre, c) =~= seq![chunk@] + rest);
            } else {
                assert(chunk@ =~= pre.take(c));
                assert(refs@ =~= pre.skip(c));
                assert(chunked(pre, c) =~= seq![chunk@] + rest);
            }
            assert(chunks_view(out@) =~= chunks_view(out_pre).push(chunk@));
            assert(chunks_view(out@) + rest =~= chunks_view(out_pre) + (seq![chunk@] + rest));
            assert(chunks_view(out@) + rest =~= chunked(orig, c));
        }
    }
    proof {
        assert(chunks_view(out@) =~= chunked(orig, c));
    }
    out
}

pub fn resolve_one(r: PostReference, u: UidResolution) -> (res: Result<PostDetails, PostViewError>)
    ensures
        res == resolve_one_spec(r, u),
{
    match u {
        UidResolution::Found(uid) => Ok(
            PostDetails { canister_id: r.publisher_canister_id, post_id: r.post_id, uid },
        ),
        UidResolution::NotFound => Err(PostViewError::NotFound),
        UidResolution::Failed(detail) => Err(PostViewError::Canister(detail)),
    }
}

/// Resolve a batch of references against the backend reports the caller
/// gathered, one report per reference, preserving input order.
pub fn resolve_references(refs: Vec<PostReference>, lookups: Vec<UidResolution>) -> (out: Vec<
    Result<PostDetails, PostViewError>,
>)
    requires
        lookups@.len() == refs@.len(),
    ensures
        out@ == resolved_seq(refs@, lookups@),
{
    let ghost gr = refs@;
    let ghost gl = lookups@;
    let mut refs = refs;
    let mut lookups = lookups;
    let mut out: Vec<Result<PostDetails, PostViewError>> = Vec::new();
    while refs.len() > 0
        invariant
            gl.len() == gr.len(),
            lookups@.len() == refs@.len(),
            out@.len() + refs@.len() == gr.len(),
            refs@ == gr.skip(out@.len() as int),
            lookups@ == gl.skip(out@.len() as int),
            out@ == resolved_seq(gr, gl).take(out@.len() as int),
        decreases refs@.len(),
    {
        let ghost n = out@.len() as int;
        let r = refs.remove(0);
        let u = lookups.remove(0);
        proof {
            assert(r == gr[n]);
            assert(u == gl[n]);
            assert(refs@ =~= gr.skip(n + 1));
            assert(lookups@ =~= gl.skip(n + 1));
        }
        out.push(resolve_one(r, u));
        proof {
            assert(out@ =~= resolved_seq(gr, gl).take(n + 1));
        }
    }
    proof {
        assert(out@ =~= resolved_seq(gr, gl));
    }
    out
}

/// Chunking commutes with resolution: resolving each chunk of a reference
/// batch against the matching chunk of backend reports gives exactly the
/// chunks of the whole batch's resolution.
proof fn lemma_chunked_resolved(refs: Seq<PostReference>, outs: Seq<UidResolution>, c: int)
    requires
        c >= 1,
        outs.len() == refs.len(),
    ensures
        chunked(refs, c).len() == chunked(outs, c).len(),
        Seq::new(
            chunked(refs, c).len(),
            |i: int| resolved_seq(chunked(refs, c)[i], chunked(outs, c)[i]),
        ) == chunked(resolved_seq(refs, outs), c),
    decreases refs.len(),
{
    let res = resolved_seq(refs, outs);
    let n = chunked(refs, c).len();
    let per_chunk = Seq::new(n, |i: int| resolved_seq(chunked(refs, c)[i], chunked(outs, c)[i]));
    if refs.len() == 0 {
        assert(per_chunk =~= chunked(res, c));
    } else if refs.len() <= c {
        assert(chunked(refs, c)[0] == refs);
        assert(chunked(outs, c)[0] == outs);
        assert(chunked(res, c)[0] == res);
        assert(per_chunk =~= chunked(res, c));
    } else {
        lemma_chunked_resolved(refs.skip(c), outs.skip(c), c);
        assert(resolved_seq(refs.take(c), outs.take(c)) =~= res.take(c));
        assert(resolved_seq(refs.skip(c), outs.skip(c)) =~= res.skip(c));
        let tail = Seq::new(
            chunked(refs.skip(c), c).len(),
            |i: int| resolved_seq(chunked(refs.skip(c), c)[i], chunked(outs.skip(c), c)[i]),
        );
        assert forall|i: int| 0 <= i < n implies per_chunk[i] == chunked(res, c)[i] by {
            if i == 0 {
                assert(chunked(refs, c)[0] == refs.take(c));
                assert(chunked(outs, c)[0] == outs.take(c));
                assert(chunked(res, c)[0] == res.take(c));
            } else {
                assert(chunked(refs, c)[i] == chunked(refs.skip(c), c)[i - 1]);
                assert(chunked(outs, c)[i] == chunked(outs.skip(c), c)[i - 1]);
                assert(chunked(res, c)[i] == chunked(res.skip(c), c)[i - 1]);
                assert(tail[i - 1] == resolved_seq(
                    chunked(refs.skip(c), c)[i - 1],
                    chunked(outs.skip(c), c)[i - 1],
                ));
            }
        }
        assert(per_chunk =~= chunked(res, c));
    }
}

/// Order preservation: for any reference batch and chunk size, resolving
/// chunk by chunk and concatenating the emitted chunks yields a sequence
/// whose positions correspond one to one to the batch's positions,
/// whatever order the individual resolutions completed in.
pub proof fn lemma_order_preservation(refs: Seq<PostReference>, outs: Seq<UidResolution>, c: int)
    requires
        c >= 1,
        outs.len() == refs.len(),
    ensures
        chunked(refs, c).len() == chunked(outs, c).len(),
        Seq::new(
            chunked(refs, c).len(),
            |i: int| resolved_seq(chunked(refs, c)[i], chunked(outs, c)[i]),
        ).flatten() == resolved_seq(refs, outs),
        resolved_seq(refs, outs).len() == refs.len(),
{
    lemma_chunked_resolved(refs, outs, c);
    lemma_chunked_flatten(resolved_seq(refs, outs), c);
}

/// Partial failure isolation: if exactly the reference at position `k`
/// fails to resolve, the output carries an error exactly at position `k`
/// and a resolved record everywhere else, and no item is dropped.
pub proof fn lemma_partial_failure_isolation(
    refs: Seq<PostReference>,
    outs: Seq<UidResolution>,
    k: int,
)
    requires
        outs.len() == refs.len(),
        0 <= k < outs.len(),
        !(outs[k] is Found),
        forall|j: int| 0 <= j < outs.len() && j != k ==> outs[j] is Found,
    ensures
        resolved_seq(refs, outs).len() == refs.len(),
        resolved_seq(refs, outs)[k] is Err,
        forall|j: int| 0 <= j < refs.len() && j != k ==> resolved_seq(refs, outs)[j] is Ok,
{
}

/// A backend assignment of one report to every reference it knows, as the
/// deterministic resolution backend guarantees: the identifier depends only
/// on the reference.
pub open spec fn consistent_with(
    refs: Seq<PostReference>,
    outs: Seq<UidResolution>,
    backend: Map<PostReference, UidResolution>,
) -> bool {
    &&& outs.len() == refs.len()
    &&& forall|i: int|
        0 <= i < refs.len() ==> backend.dom().contains(#[trigger] refs[i]) && outs[i]
            == backend[refs[i]]
}

/// Idempotent resolution: two batches resolved against the same backend
/// give the same record — in particular the same uid — wherever they name
/// the same reference, whether within one call or across calls.
pub proof fn lemma_idempotent_resolution(
    backend: Map<PostReference, UidResolution>,
    refs1: Seq<PostReference>,
    outs1: Seq<UidResolution>,
    refs2: Seq<PostReference>,
    outs2: Seq<UidResolution>,
    i: int,
    j: int,
)
    requires
        consistent_with(refs1, outs1, backend),
        consistent_with(refs2, outs2, backend),
        0 <= i < refs1.len(),
        0 <= j < refs2.len(),
        refs1[i] == refs2[j],
    ensures
        resolved_seq(refs1, outs1)[i] == resolved_seq(refs2, outs2)[j],
{
    assert(outs1[i] == backend[refs1[i]]);
    assert(outs2[j] == backend[refs2[j]]);
}

} // verus!
