//! Laws of the derivation pipeline, stated and proved once over the spec
//! functions that the executable functions' contracts are written in.

use vstd::prelude::*;

use crate::templates::{chosen_template, lemma_alphabet_nonempty, spec_alphabet,
    spec_site_password};
use crate::{master_key_of, site_seed_of};

verus! {

/// The whole pipeline as one function: password and name give the master
/// key, master key, site and counter give the seed, seed and templates give
/// the rendered password.
pub open spec fn site_password_of(
    password: Seq<u8>,
    name: Seq<u8>,
    site: Seq<u8>,
    counter: u32,
    templates: Seq<Seq<char>>,
) -> Seq<u8>
    recommends
        name.len() <= u32::MAX,
        site.len() <= u32::MAX,
        0 < templates.len(),
{
    spec_site_password(site_seed_of(master_key_of(password, name), site, counter), templates)
}

/// Determinism: the pipeline is a mathematical function of its five inputs,
/// so any two results derived from the same password, name, site, counter
/// and template list are byte-identical.
pub proof fn lemma_derivation_deterministic(
    password: Seq<u8>,
    name: Seq<u8>,
    site: Seq<u8>,
    counter: u32,
    templates: Seq<Seq<char>>,
    r1: Seq<u8>,
    r2: Seq<u8>,
)
    requires
        r1 == site_password_of(password, name, site, counter, templates),
        r2 == site_password_of(password, name, site, counter, templates),
    ensures
        r1 == r2,
{
}

/// Template selection stability: which template is chosen depends only on
/// the first seed byte. Two seeds that agree there choose the same
/// template, whatever their other bytes.
pub proof fn lemma_template_choice_stable(s1: Seq<u8>, s2: Seq<u8>, templates: Seq<Seq<char>>)
    requires
        0 < s1.len(),
        0 < s2.len(),
        0 < templates.len(),
        s1[0] == s2[0],
    ensures
        chosen_template(s1, templates) == chosen_template(s2, templates),
{
}

/// Output alphabet conformance: every character of a rendered password
/// belongs to the alphabet of the class code at its position in the chosen
/// template.
pub proof fn lemma_password_in_alphabet(seed: Seq<u8>, templates: Seq<Seq<char>>)
    requires
        0 < seed.len(),
        0 < templates.len(),
    ensures
        forall|j: int|
            0 <= j < spec_site_password(seed, templates).len() ==> spec_alphabet(
                chosen_template(seed, templates)[j],
            ).contains(#[trigger] spec_site_password(seed, templates)[j]),
{
    let t = chosen_template(seed, templates);
    let rendered = spec_site_password(seed, templates);
    assert forall|j: int| 0 <= j < rendered.len() implies spec_alphabet(t[j]).contains(
        rendered[j],
    ) by {
        lemma_alphabet_nonempty(t[j]);
        let a = spec_alphabet(t[j]);
        let m = seed[j + 1] as int % a.len() as int;
        assert(0 <= m < a.len() as int) by (nonlinear_arith)
            requires
                0 < a.len(),
                m == seed[j + 1] as int % a.len() as int,
                seed[j + 1] as int >= 0,
        ;
        assert(rendered[j] == a[m]);
        assert(a.contains(a[m]));
    };
}

} // verus!
