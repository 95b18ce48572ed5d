//! The two cryptographic primitives, behind trusted wrappers: memory-hard
//! key stretching (scrypt) and the keyed hash (HMAC-SHA-256).
//!
//! Both results are pure functions of their arguments; `scrypt_of` and
//! `hmac_sha256_of` name them, and every contract above this module speaks
//! of those names.

use vstd::prelude::*;

verus! {

/// The scrypt derivation of `password` with `salt` under cost parameters
/// `n`, `r`, `p`, producing `out_len` bytes.
pub uninterp spec fn scrypt_of(
    password: Seq<u8>,
    salt: Seq<u8>,
    n: u64,
    r: u32,
    p: u32,
    out_len: usize,
) -> Seq<u8>;

/// The HMAC-SHA-256 tag of `msg` under `key`.
pub uninterp spec fn hmac_sha256_of(key: Seq<u8>, msg: Seq<u8>) -> Seq<u8>;

/// The conditions under which `scrypt::Params::new` accepts cost parameters
/// and `scrypt::scrypt` accepts the output length, as its source states
/// them: positive `r` and `p`, both memory products within address range,
/// `r * p` below 2^30, and a nonempty output of at most (2^32 - 1) * 32
/// bytes. `n` must separately be a power of two.
pub open spec fn scrypt_params_ok(n: u64, r: u32, p: u32, out_len: usize) -> bool {
    &&& 0 < r
    &&& 0 < p
    &&& (n as nat) * (r as nat) * 128 <= usize::MAX as nat
    &&& (r as nat) * (p as nat) * 128 <= usize::MAX as nat
    &&& (r as nat) * (p as nat) < 0x4000_0000
    &&& 0 < out_len
    &&& out_len as nat <= 0xffff_ffff * 32
}

/// `n` is a power of two that fits in 64 bits.
pub open spec fn is_pow2_u64(n: u64) -> bool {
    exists|k: u8| k < 64 && n == (1u64 << k)
}

/// Relies on `scrypt::Params::new` and `scrypt::scrypt`: under
/// `scrypt_params_ok` the parameters are accepted and the output buffer is
/// filled with the scrypt derivation of `password` and `salt`, a function
/// of the arguments alone.
#[verifier::external_body]
pub fn scrypt_kdf(password: &[u8], salt: &[u8], log_n: u8, r: u32, p: u32, out_len: usize) -> (out:
    Vec<u8>)
    requires
        log_n < 64,
        scrypt_params_ok(1u64 << log_n, r, p, out_len),
    ensures
        out@ == scrypt_of(password@, salt@, 1u64 << log_n, r, p, out_len),
        out@.len() == out_len,
{
    let params = scrypt::Params::new(log_n, r, p).expect("parameters were checked");
    let mut out = vec![0u8; out_len];
    scrypt::scrypt(password, salt, &params, &mut out).expect("output length was checked");
    out
}

/// Relies on `hmac::Hmac<sha2::Sha256>`: `new_from_slice` accepts a key of
/// any length, and `update` then `finalize` yield the 32-byte HMAC-SHA-256
/// tag of the message, a function of key and message alone.
#[verifier::external_body]
pub fn hmac_sha256(key: &[u8], msg: &[u8]) -> (r: Vec<u8>)
    ensures
        r@ == hmac_sha256_of(key@, msg@),
        r@.len() == 32,
{
    let mut mac = <hmac::Hmac<sha2::Sha256> as hmac::KeyInit>::new_from_slice(key).expect(
        "HMAC accepts keys of any length",
    );
    hmac::Mac::update(&mut mac, msg);
    hmac::Mac::finalize(mac).into_bytes().to_vec()
}

} // verus!
