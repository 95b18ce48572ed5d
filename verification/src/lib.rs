//! Deterministic, stateless password derivation.
//!
//! A memorized master password and a user name yield a 64-byte master key;
//! the master key, a site name and a counter yield a 32-byte site seed; the
//! seed and a template tier yield a printable site password. A parallel
//! branch derives a small glyph-and-color identicon from the raw password,
//! for visual confirmation before the expensive key stretching runs.
//!
//! Every secret travels in a secure container that zeroes its storage on
//! release; see `secure`. No derived value is ever persisted: the same
//! inputs always reproduce the same passwords.

use vstd::prelude::*;
use vstd::string::StringSliceAdditionalSpecFns;

pub mod crypto;
pub mod encode;
pub mod identicon;
pub mod laws;
pub mod secure;
pub mod templates;

use crate::crypto::{hmac_sha256, hmac_sha256_of, is_pow2_u64, scrypt_kdf, scrypt_of,
    scrypt_params_ok};
use crate::encode::{master_salt, master_salt_bytes, site_msg, site_msg_bytes};
use crate::identicon::{accessory_glyph, body_glyph, color_index, left_arm_glyph, right_arm_glyph,
    spec_accessory, spec_body, spec_color, spec_left_arm, spec_right_arm};
use crate::secure::{sec_bytes, sec_new, sec_unsecure};
use crate::templates::{chosen_template, password_char, spec_password_char, spec_site_password,
    template_views};

verus! {

/// How a derivation can fail.
#[derive(Clone, Copy, Debug, PartialEq, Eq, Structural)]
pub enum Error {
    /// A cryptographic primitive rejected its parameters. Fatal and not
    /// retryable: it indicates misconfiguration, never a transient fault.
    Crypto,
    /// A caller-supplied selector names no known template tier.
    InvalidArgument,
}

/// The 64-byte master key for a password and a user name: scrypt of the
/// password with the salted user identity, under the fixed cost parameters
/// 32768, 8, 2.
pub open spec fn master_key_of(password: Seq<u8>, name: Seq<u8>) -> Seq<u8>
    recommends
        name.len() <= u32::MAX,
{
    scrypt_of(password, master_salt(name), 32768u64, 8u32, 2u32, 64usize)
}

/// The 32-byte site seed for a master key, a site name and a counter: the
/// keyed hash of the site message under the master key.
pub open spec fn site_seed_of(master_key: Seq<u8>, site: Seq<u8>, counter: u32) -> Seq<u8>
    recommends
        site.len() <= u32::MAX,
{
    hmac_sha256_of(master_key, site_msg(site, counter))
}

/// Stretch `password` with `salt` into a `result_len`-byte key, under
/// caller-chosen scrypt cost parameters. Fails, with `Error::Crypto`,
/// exactly when the parameters are ones the primitive rejects.
pub fn gen_master_key_custom(
    password: secstr::SecStr,
    salt: secstr::SecStr,
    n: u64,
    r: u32,
    p: u32,
    result_len: usize,
) -> (res: Result<secstr::SecStr, Error>)
    ensures
        res is Ok <==> (is_pow2_u64(n) && scrypt_params_ok(n, r, p, result_len)),
        res matches Ok(key) ==> sec_bytes(key) == scrypt_of(
            sec_bytes(password),
            sec_bytes(salt),
            n,
            r,
            p,
            result_len,
        ),
        res matches Ok(key) ==> sec_bytes(key).len() == result_len,
        res matches Err(e) ==> e == Error::Crypto,
{
    let mut log_n: u8 = 0;
    while log_n < 64 && (1u64 << log_n) != n
        invariant
            log_n <= 64,
            forall|j: u8| j < log_n ==> (1u64 << j) != n,
        decreases 64 - log_n,
    {
        log_n = log_n + 1;
    }
    if log_n == 64 {
        proof {
            assert(forall|k: u8| k < 64 ==> (1u64 << k) != n);
        }
        return Err(Error::Crypto);
    }
    if r == 0 || p == 0 {
        return Err(Error::Crypto);
    }
    let n_wide = n as u128;
    let r_wide = r as u128;
    let p_wide = p as u128;
    proof {
        assert(n_wide * r_wide * 128 <= u128::MAX && r_wide * p_wide * 128 <= u128::MAX)
            by (nonlinear_arith)
            requires
                n_wide <= u64::MAX,
                r_wide <= u32::MAX,
                p_wide <= u32::MAX,
        ;
    }
    if n_wide * r_wide * 128 > usize::MAX as u128 {
        return Err(Error::Crypto);
    }
    if r_wide * p_wide * 128 > usize::MAX as u128 {
        return Err(Error::Crypto);
    }
    if r_wide * p_wide >= 0x4000_0000 {
        return Err(Error::Crypto);
    }
    if result_len == 0 || result_len as u64 > 0xffff_ffff_u64 * 32 {
        return Err(Error::Crypto);
    }
    let key = scrypt_kdf(sec_unsecure(&password), sec_unsecure(&salt), log_n, r, p, result_len);
    Ok(sec_new(key))
}

/// Derive the 64-byte master key for `password` and user `name` under the
/// fixed, compatibility-critical cost parameters (32768, 8, 2). Never
/// fails: those parameters are always accepted.
pub fn gen_master_key(password: secstr::SecStr, name: &str) -> (res: Result<
    secstr::SecStr,
    Error,
>)
    requires
        name.spec_bytes().len() <= u32::MAX,
    ensures
        res matches Ok(key) && sec_bytes(key) == master_key_of(
            sec_bytes(password),
            name.spec_bytes(),
        ),
        res matches Ok(key) && sec_bytes(key).len() == 64,
{
    let salt = master_salt_bytes(name.as_bytes());
    proof {
        assert(32768u64 == (1u64 << 15u8)) by (bit_vector);
        assert(is_pow2_u64(32768u64));
    }
    gen_master_key_custom(password, sec_new(salt), 32768, 8, 2, 64)
}

/// Derive the 32-byte site seed for `master_key`, `site_name` and
/// `counter`. Never fails: the keyed hash accepts a key of any length.
pub fn gen_site_seed(master_key: &secstr::SecStr, site_name: &str, counter: u32) -> (res: Result<
    secstr::SecStr,
    Error,
>)
    requires
        site_name.spec_bytes().len() <= u32::MAX,
    ensures
        res matches Ok(seed) && sec_bytes(seed) == site_seed_of(
            sec_bytes(*master_key),
            site_name.spec_bytes(),
            counter,
        ),
        res matches Ok(seed) && sec_bytes(seed).len() == 32,
{
    let msg = site_msg_bytes(site_name.as_bytes(), counter);
    let seed = hmac_sha256(sec_unsecure(master_key), msg.as_slice());
    Ok(sec_new(seed))
}

/// Render a readable password from a site seed and a template list. The
/// first seed byte selects the template; each later seed byte selects one
/// character from the alphabet of the class code at its position. Pure and
/// deterministic: the same seed and templates always yield the same
/// password.
pub fn gen_site_password<'a>(site_seed: &secstr::SecStr, templates: &'a [&'a str]) -> (r:
    secstr::SecStr)
    requires
        sec_bytes(*site_seed).len() == 32,
        0 < templates@.len(),
        forall|i: int| 0 <= i < templates@.len() ==> 0 < (#[trigger] templates@[i]@).len() <= 31,
    ensures
        sec_bytes(r) == spec_site_password(sec_bytes(*site_seed), template_views(templates@)),
{
    let seed = sec_unsecure(site_seed);
    let idx = (seed[0] as usize) % templates.len();
    let template: &str = templates[idx];
    let n = template.unicode_len();
    let ghost views = template_views(templates@);
    proof {
        assert(template@ == views[idx as int]);
        assert(template@ == chosen_template(seed@, views));
    }
    let mut out: Vec<u8> = Vec::new();
    let mut j: usize = 0;
    while j < n
        invariant
            j <= n,
            n == template@.len(),
            n <= 31,
            seed@ == sec_bytes(*site_seed),
            seed@.len() == 32,
            template@ == chosen_template(seed@, views),
            out@ =~= Seq::new(j as nat, |k: int| spec_password_char(template@[k], seed@[k + 1])),
        decreases n - j,
    {
        let class = template.get_char(j);
        out.push(password_char(class, seed[j + 1]));
        j = j + 1;
    }
    proof {
        assert(out@ =~= spec_site_password(sec_bytes(*site_seed), views));
    }
    sec_new(out)
}

/// The identicon descriptor: four glyphs and a color index, derived from
/// the raw master password and a display name. Safe to show or log; it
/// reveals nothing usable about the password.
#[derive(Debug, PartialEq, Eq)]
pub struct Identicon {
    pub left_arm: &'static str,
    pub right_arm: &'static str,
    pub body: &'static str,
    pub accessory: &'static str,
    pub color: u8,
}

/// The 32-byte seed the identicon is drawn from: the keyed hash of the
/// display name under the raw password. Keyed by the password, not the
/// master key, so the identicon can be shown before key stretching runs.
pub open spec fn identicon_seed_of(password: Seq<u8>, name: Seq<u8>) -> Seq<u8> {
    hmac_sha256_of(password, name)
}

/// Derive the identicon for a master password and a display name. Bytes 0
/// to 3 of the seed select the glyphs; byte 4 selects the color, which is
/// always in 1..=7.
pub fn create_identicon(master_pass: &secstr::SecStr, name: &str) -> (r: Identicon)
    ensures
        r.left_arm@ == spec_left_arm(identicon_seed_of(sec_bytes(*master_pass), name.spec_bytes())[0]),
        r.body@ == spec_body(identicon_seed_of(sec_bytes(*master_pass), name.spec_bytes())[1]),
        r.right_arm@ == spec_right_arm(
            identicon_seed_of(sec_bytes(*master_pass), name.spec_bytes())[2],
        ),
        r.accessory@ == spec_accessory(
            identicon_seed_of(sec_bytes(*master_pass), name.spec_bytes())[3],
        ),
        r.color == spec_color(identicon_seed_of(sec_bytes(*master_pass), name.spec_bytes())[4]),
        1 <= r.color <= 7,
{
    let seed = hmac_sha256(sec_unsecure(master_pass), name.as_bytes());
    Identicon {
        left_arm: left_arm_glyph(seed[0]),
        body: body_glyph(seed[1]),
        right_arm: right_arm_glyph(seed[2]),
        accessory: accessory_glyph(seed[3]),
        color: color_index(seed[4]),
    }
}

} // verus!
