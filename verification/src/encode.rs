//! Byte-level construction of the salt and of the keyed-hash message: a
//! fixed domain-separation prefix, big-endian length prefixes, and the
//! identity or site bytes themselves.

use vstd::prelude::*;
use vstd::slice::slice_to_vec;
use vstd::string::StringSliceAdditionalSpecFns;
use vstd::string::StrSliceExecFns;

verus! {

/// Four big-endian bytes of a 32-bit value, most significant first.
pub open spec fn be32(x: u32) -> Seq<u8> {
    seq![
        (x / 0x1000000) as u8,
        ((x / 0x10000) % 0x100) as u8,
        ((x / 0x100) % 0x100) as u8,
        (x % 0x100) as u8,
    ]
}

/// Encode a 32-bit value as four big-endian bytes.
pub fn be32_bytes(x: u32) -> (r: Vec<u8>)
    ensures
        r@ == be32(x),
{
    let b0: u8 = (x / 0x1000000) as u8;
    let b1: u8 = ((x / 0x10000) % 0x100) as u8;
    let b2: u8 = ((x / 0x100) % 0x100) as u8;
    let b3: u8 = (x % 0x100) as u8;
    let r: Vec<u8> = vec![b0, b1, b2, b3];
    proof {
        assert(r@ =~= be32(x));
    }
    r
}

/// The domain-separation prefix that opens every salt and every site
/// message.
pub open spec fn domain_prefix() -> Seq<u8> {
    "com.lyndir.masterpassword".spec_bytes()
}

/// The domain-separation prefix as bytes.
pub fn domain_prefix_bytes() -> (r: Vec<u8>)
    ensures
        r@ == domain_prefix(),
{
    "com.lyndir.masterpassword".as_bytes_vec()
}

/// The salt for master key stretching: the domain prefix, the big-endian
/// length of the user name, and the user name bytes.
pub open spec fn master_salt(name: Seq<u8>) -> Seq<u8>
    recommends
        name.len() <= u32::MAX,
{
    domain_prefix() + be32(name.len() as u32) + name
}

/// Build the master key salt for a user name.
pub fn master_salt_bytes(name: &[u8]) -> (r: Vec<u8>)
    requires
        name@.len() <= u32::MAX,
    ensures
        r@ == master_salt(name@),
{
    let mut salt = domain_prefix_bytes();
    let mut len_bytes = be32_bytes(name.len() as u32);
    salt.append(&mut len_bytes);
    let mut name_vec = slice_to_vec(name);
    salt.append(&mut name_vec);
    proof {
        assert(salt@ =~= master_salt(name@));
    }
    salt
}

/// The message whose keyed hash is the site seed: the domain prefix, the
/// big-endian length of the site name, the site name bytes, and the
/// big-endian counter.
pub open spec fn site_msg(site: Seq<u8>, counter: u32) -> Seq<u8>
    recommends
        site.len() <= u32::MAX,
{
    domain_prefix() + be32(site.len() as u32) + site + be32(counter)
}

/// Build the site seed message for a site name and counter.
pub fn site_msg_bytes(site: &[u8], counter: u32) -> (r: Vec<u8>)
    requires
        site@.len() <= u32::MAX,
    ensures
        r@ == site_msg(site@, counter),
{
    let mut msg = domain_prefix_bytes();
    let mut len_bytes = be32_bytes(site.len() as u32);
    msg.append(&mut len_bytes);
    let mut site_vec = slice_to_vec(site);
    msg.append(&mut site_vec);
    let mut counter_bytes = be32_bytes(counter);
    msg.append(&mut counter_bytes);
    proof {
        assert(msg@ =~= site_msg(site@, counter));
    }
    msg
}

} // verus!
