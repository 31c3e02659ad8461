use vstd::prelude::*;

verus! {

/// Failures the feed engine can report.
///
/// `Canister` carries an upstream failure of the catalog or of a single
/// reference resolution; `MLFeedError` an upstream failure of the
/// recommendation feed; `Unavailable` means the recommendation feed cannot
/// be used in the current context (no live session); `NotFound` marks a
/// single reference whose post no longer exists.
#[derive(Clone, PartialEq, Eq, Debug)]
pub enum PostViewError {
    Canister(String),
    MLFeedError(String),
    Unavailable,
    NotFound,
}

} // verus!
