use vstd::prelude::*;

verus! {

/// Publisher identities are IC principals. The engine only carries them
/// through from source to resolver, so the type is declared opaque: nothing
/// is assumed about its contents.
#[verifier::external_type_specification]
#[verifier::external_body]
pub struct ExPrincipal(candid::Principal);

/// Relies on candid::Principal's derived Clone: the type is Copy, so a
/// clone is the same value.
pub assume_specification[ <candid::Principal as Clone>::clone ](p: &candid::Principal) -> (r:
    candid::Principal)
    ensures
        r == *p,
;

/// A raw reference naming a post without its resolved metadata: the
/// publisher hosting it and the post's identifier, unique within that
/// publisher.
#[derive(Clone, Copy, PartialEq, Eq, Debug)]
pub struct PostReference {
    pub publisher_canister_id: candid::Principal,
    pub post_id: u64,
}

/// A fully resolved post record: the reference it came from together with
/// the stable content identifier used to build playback URLs.
#[derive(Clone, PartialEq, Eq, Debug)]
pub struct PostDetails {
    pub canister_id: candid::Principal,
    pub post_id: u64,
    pub uid: String,
}

} // verus!
