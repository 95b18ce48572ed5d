//! The secure byte container that carries every secret value: the raw
//! password, the master key, the site seed and the rendered password.
//!
//! Secrets live in `secstr::SecStr`, which locks its storage in memory and
//! overwrites every byte with zero before the storage is released. To the
//! verifier the container is opaque; `sec_bytes` names the bytes it holds,
//! and the two accessors below relate the container to that name.

use vstd::prelude::*;

verus! {

#[verifier::external_type_specification]
#[verifier::external_body]
#[verifier::reject_recursive_types(T)]
pub struct ExSecVec<T: Sized + Copy>(secstr::SecVec<T>);

/// The bytes a `SecStr` holds, as a mathematical sequence.
pub uninterp spec fn sec_bytes(s: secstr::SecStr) -> Seq<u8>;

/// Relies on `secstr::SecVec::new`: the container stores exactly the bytes
/// of the vector it is given.
#[verifier::external_body]
pub fn sec_new(v: Vec<u8>) -> (r: secstr::SecStr)
    ensures
        sec_bytes(r) == v@,
{
    secstr::SecStr::new(v)
}

/// Relies on `secstr::SecVec::unsecure`: it borrows exactly the stored
/// bytes. Plaintext access to a secret is this one clearly named call.
#[verifier::external_body]
pub fn sec_unsecure(s: &secstr::SecStr) -> (r: &[u8])
    ensures
        r@ == sec_bytes(*s),
{
    s.unsecure()
}

} // verus!
