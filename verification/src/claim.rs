//! Claims: byte strings of bounded length, held in `frame_support`'s `BoundedVec`.
use vstd::prelude::*;

verus! {

#[verifier::external_type_specification]
#[verifier::external_body]
#[verifier::reject_recursive_types(T)]
#[verifier::reject_recursive_types(S)]
pub struct ExBoundedVec<T, S>(frame_support::BoundedVec<T, S>);

#[verifier::external_type_specification]
#[verifier::external_body]
pub struct ExConstU32<const N: u32>(frame_support::traits::ConstU32<N>);

/// The greatest number of bytes that a claim may hold. The bound is part of the claim's type,
/// so it is fixed here; a runtime that hosts the registry must configure the same bound.
pub const MAX_CLAIM_LENGTH: u32 = 512;

/// A claim: the digest of a document, at most `MAX_CLAIM_LENGTH` bytes long.
pub type Claim = frame_support::BoundedVec<u8, frame_support::traits::ConstU32<MAX_CLAIM_LENGTH>>;

/// The bytes that a claim holds.
pub uninterp spec fn claim_bytes(c: Claim) -> Seq<u8>;

/// `<BoundedVec<u8, ConstU32<MAX_CLAIM_LENGTH>> as TryFrom<Vec<u8>>>::try_from`: accepts the
/// vector exactly when its length is within the bound, and then holds the same bytes; otherwise
/// it hands the vector back.
#[verifier::external_body]
pub(crate) fn bounded_try_from(v: Vec<u8>) -> (r: Result<Claim, Vec<u8>>)
    ensures
        r is Ok <==> v@.len() <= MAX_CLAIM_LENGTH,
        r matches Ok(c) ==> claim_bytes(c) == v@,
        r matches Err(e) ==> e@ == v@,
{
    Claim::try_from(v)
}

/// `<BoundedVec<u8, _> as AsRef<[u8]>>::as_ref`: the bytes of the claim as a slice. Every
/// constructor of `BoundedVec` keeps the length within the bound, so the slice is no longer
/// than `MAX_CLAIM_LENGTH`.
#[verifier::external_body]
pub(crate) fn bounded_as_slice(c: &Claim) -> (r: &[u8])
    ensures
        r@ == claim_bytes(*c),
        r@.len() <= MAX_CLAIM_LENGTH,
{
    c.as_ref()
}

/// `<BoundedVec<u8, _> as Clone>::clone`: a claim with the same bytes.
#[verifier::external_body]
pub(crate) fn bounded_clone(c: &Claim) -> (r: Claim)
    ensures
        claim_bytes(r) == claim_bytes(*c),
{
    c.clone()
}

/// Whether two byte slices hold the same bytes.
pub fn bytes_equal(a: &[u8], b: &[u8]) -> (r: bool)
    ensures
        r == (a@ == b@),
{
    if a.len() != b.len() {
        return false;
    }
    let mut i: usize = 0;
    while i < a.len()
        invariant
            a@.len() == b@.len(),
            i <= a@.len(),
            forall|j: int| 0 <= j < i ==> a@[j] == b@[j],
        decreases a@.len() - i,
    {
        if a[i] != b[i] {
            return false;
        }
        i = i + 1;
    }
    proof {
        assert(a@ =~= b@);
    }
    true
}

} // verus!
