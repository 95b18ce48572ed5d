//! Templates and character classes for password rendering.
//!
//! A template is a short string of character-class codes; a tier is a fixed
//! list of templates of similar strength. The first seed byte selects the
//! template; each later seed byte selects, modulo the class alphabet's
//! length, one printable character. The tables here are part of the
//! compatibility contract: changing one character would change every
//! previously generated password.

use vstd::prelude::*;

verus! {

/// The template tiers, weakest to strongest: pin, basic, short, medium,
/// long, maximum.
#[derive(Clone, Copy, Debug, PartialEq, Eq, Structural)]
pub enum TemplateTier {
    Pin,
    Basic,
    Short,
    Medium,
    Long,
    Maximum,
}

/// The ordered alphabet a template class code draws from: `V`/`v` vowels,
/// `C`/`c` consonants (upper/lower case), `A` any upper-case letter, `a`
/// any letter, `n` a digit, `o` a symbol; any other code falls back to the
/// full alphanumeric-plus-symbol alphabet.
pub open spec fn spec_alphabet(class: char) -> Seq<u8> {
    if class == 'V' {
        seq!['A' as u8, 'E' as u8, 'I' as u8, 'O' as u8, 'U' as u8]
    } else if class == 'C' {
        seq![
            'B' as u8, 'C' as u8, 'D' as u8, 'F' as u8, 'G' as u8, 'H' as u8, 'J' as u8,
            'K' as u8, 'L' as u8, 'M' as u8, 'N' as u8, 'P' as u8, 'Q' as u8, 'R' as u8,
            'S' as u8, 'T' as u8, 'V' as u8, 'W' as u8, 'X' as u8, 'Y' as u8, 'Z' as u8,
        ]
    } else if class == 'v' {
        seq!['a' as u8, 'e' as u8, 'i' as u8, 'o' as u8, 'u' as u8]
    } else if class == 'c' {
        seq![
            'b' as u8, 'c' as u8, 'd' as u8, 'f' as u8, 'g' as u8, 'h' as u8, 'j' as u8,
            'k' as u8, 'l' as u8, 'm' as u8, 'n' as u8, 'p' as u8, 'q' as u8, 'r' as u8,
            's' as u8, 't' as u8, 'v' as u8, 'w' as u8, 'x' as u8, 'y' as u8, 'z' as u8,
        ]
    } else if class == 'A' {
        seq![
            'A' as u8, 'E' as u8, 'I' as u8, 'O' as u8, 'U' as u8, 'B' as u8, 'C' as u8,
            'D' as u8, 'F' as u8, 'G' as u8, 'H' as u8, 'J' as u8, 'K' as u8, 'L' as u8,
            'M' as u8, 'N' as u8, 'P' as u8, 'Q' as u8, 'R' as u8, 'S' as u8, 'T' as u8,
            'V' as u8, 'W' as u8, 'X' as u8, 'Y' as u8, 'Z' as u8,
        ]
    } else if class == 'a' {
        seq![
            'A' as u8, 'E' as u8, 'I' as u8, 'O' as u8, 'U' as u8, 'a' as u8, 'e' as u8,
            'i' as u8, 'o' as u8, 'u' as u8, 'B' as u8, 'C' as u8, 'D' as u8, 'F' as u8,
            'G' as u8, 'H' as u8, 'J' as u8, 'K' as u8, 'L' as u8, 'M' as u8, 'N' as u8,
            'P' as u8, 'Q' as u8, 'R' as u8, 'S' as u8, 'T' as u8, 'V' as u8, 'W' as u8,
            'X' as u8, 'Y' as u8, 'Z' as u8, 'b' as u8, 'c' as u8, 'd' as u8, 'f' as u8,
            'g' as u8, 'h' as u8, 'j' as u8, 'k' as u8, 'l' as u8, 'm' as u8, 'n' as u8,
            'p' as u8, 'q' as u8, 'r' as u8, 's' as u8, 't' as u8, 'v' as u8, 'w' as u8,
            'x' as u8, 'y' as u8, 'z' as u8,
        ]
    } else if class == 'n' {
        seq![
            '0' as u8, '1' as u8, '2' as u8, '3' as u8, '4' as u8, '5' as u8, '6' as u8,
            '7' as u8, '8' as u8, '9' as u8,
        ]
    } else if class == 'o' {
        seq![
            '@' as u8, '&' as u8, '%' as u8, '?' as u8, ',' as u8, '=' as u8, '[' as u8,
            ']' as u8, '_' as u8, ':' as u8, '-' as u8, '+' as u8, '*' as u8, '$' as u8,
            '#' as u8, '!' as u8, '\'' as u8, '^' as u8, '~' as u8, ';' as u8, '(' as u8,
            ')' as u8, '/' as u8, '.' as u8,
        ]
    } else {
        seq![
            'A' as u8, 'E' as u8, 'I' as u8, 'O' as u8, 'U' as u8, 'a' as u8, 'e' as u8,
            'i' as u8, 'o' as u8, 'u' as u8, 'B' as u8, 'C' as u8, 'D' as u8, 'F' as u8,
            'G' as u8, 'H' as u8, 'J' as u8, 'K' as u8, 'L' as u8, 'M' as u8, 'N' as u8,
            'P' as u8, 'Q' as u8, 'R' as u8, 'S' as u8, 'T' as u8, 'V' as u8, 'W' as u8,
            'X' as u8, 'Y' as u8, 'Z' as u8, 'b' as u8, 'c' as u8, 'd' as u8, 'f' as u8,
            'g' as u8, 'h' as u8, 'j' as u8, 'k' as u8, 'l' as u8, 'm' as u8, 'n' as u8,
            'p' as u8, 'q' as u8, 'r' as u8, 's' as u8, 't' as u8, 'v' as u8, 'w' as u8,
            'x' as u8, 'y' as u8, 'z' as u8, '0' as u8, '1' as u8, '2' as u8, '3' as u8,
            '4' as u8, '5' as u8, '6' as u8, '7' as u8, '8' as u8, '9' as u8, '!' as u8,
            '@' as u8, '#' as u8, '$' as u8, '%' as u8, '^' as u8, '&' as u8, '*' as u8,
            '(' as u8, ')' as u8,
        ]
    }
}

/// Every class alphabet is nonempty and at most 72 characters long.
pub proof fn lemma_alphabet_nonempty(class: char)
    ensures
        0 < spec_alphabet(class).len() <= 72,
{
}

/// The alphabet for a class code, as bytes.
pub fn alphabet_bytes(class: char) -> (r: Vec<u8>)
    ensures
        r@ == spec_alphabet(class),
        0 < r@.len(),
{
    let r: Vec<u8> = match class {
        'V' => vec!['A' as u8, 'E' as u8, 'I' as u8, 'O' as u8, 'U' as u8],
        'C' => vec![
            'B' as u8, 'C' as u8, 'D' as u8, 'F' as u8, 'G' as u8, 'H' as u8, 'J' as u8,
            'K' as u8, 'L' as u8, 'M' as u8, 'N' as u8, 'P' as u8, 'Q' as u8, 'R' as u8,
            'S' as u8, 'T' as u8, 'V' as u8, 'W' as u8, 'X' as u8, 'Y' as u8, 'Z' as u8,
        ],
        'v' => vec!['a' as u8, 'e' as u8, 'i' as u8, 'o' as u8, 'u' as u8],
        'c' => vec![
            'b' as u8, 'c' as u8, 'd' as u8, 'f' as u8, 'g' as u8, 'h' as u8, 'j' as u8,
            'k' as u8, 'l' as u8, 'm' as u8, 'n' as u8, 'p' as u8, 'q' as u8, 'r' as u8,
            's' as u8, 't' as u8, 'v' as u8, 'w' as u8, 'x' as u8, 'y' as u8, 'z' as u8,
        ],
        'A' => vec![
            'A' as u8, 'E' as u8, 'I' as u8, 'O' as u8, 'U' as u8, 'B' as u8, 'C' as u8,
            'D' as u8, 'F' as u8, 'G' as u8, 'H' as u8, 'J' as u8, 'K' as u8, 'L' as u8,
            'M' as u8, 'N' as u8, 'P' as u8, 'Q' as u8, 'R' as u8, 'S' as u8, 'T' as u8,
            'V' as u8, 'W' as u8, 'X' as u8, 'Y' as u8, 'Z' as u8,
        ],
        'a' => vec![
            'A' as u8, 'E' as u8, 'I' as u8, 'O' as u8, 'U' as u8, 'a' as u8, 'e' as u8,
            'i' as u8, 'o' as u8, 'u' as u8, 'B' as u8, 'C' as u8, 'D' as u8, 'F' as u8,
            'G' as u8, 'H' as u8, 'J' as u8, 'K' as u8, 'L' as u8, 'M' as u8, 'N' as u8,
            'P' as u8, 'Q' as u8, 'R' as u8, 'S' as u8, 'T' as u8, 'V' as u8, 'W' as u8,
            'X' as u8, 'Y' as u8, 'Z' as u8, 'b' as u8, 'c' as u8, 'd' as u8, 'f' as u8,
            'g' as u8, 'h' as u8, 'j' as u8, 'k' as u8, 'l' as u8, 'm' as u8, 'n' as u8,
            'p' as u8, 'q' as u8, 'r' as u8, 's' as u8, 't' as u8, 'v' as u8, 'w' as u8,
            'x' as u8, 'y' as u8, 'z' as u8,
        ],
        'n' => vec![
            '0' as u8, '1' as u8, '2' as u8, '3' as u8, '4' as u8, '5' as u8, '6' as u8,
            '7' as u8, '8' as u8, '9' as u8,
        ],
        'o' => vec![
            '@' as u8, '&' as u8, '%' as u8, '?' as u8, ',' as u8, '=' as u8, '[' as u8,
            ']' as u8, '_' as u8, ':' as u8, '-' as u8, '+' as u8, '*' as u8, '$' as u8,
            '#' as u8, '!' as u8, '\'' as u8, '^' as u8, '~' as u8, ';' as u8, '(' as u8,
            ')' as u8, '/' as u8, '.' as u8,
        ],
        _ => vec![
            'A' as u8, 'E' as u8, 'I' as u8, 'O' as u8, 'U' as u8, 'a' as u8, 'e' as u8,
            'i' as u8, 'o' as u8, 'u' as u8, 'B' as u8, 'C' as u8, 'D' as u8, 'F' as u8,
            'G' as u8, 'H' as u8, 'J' as u8, 'K' as u8, 'L' as u8, 'M' as u8, 'N' as u8,
            'P' as u8, 'Q' as u8, 'R' as u8, 'S' as u8, 'T' as u8, 'V' as u8, 'W' as u8,
            'X' as u8, 'Y' as u8, 'Z' as u8, 'b' as u8, 'c' as u8, 'd' as u8, 'f' as u8,
            'g' as u8, 'h' as u8, 'j' as u8, 'k' as u8, 'l' as u8, 'm' as u8, 'n' as u8,
            'p' as u8, 'q' as u8, 'r' as u8, 's' as u8, 't' as u8, 'v' as u8, 'w' as u8,
            'x' as u8, 'y' as u8, 'z' as u8, '0' as u8, '1' as u8, '2' as u8, '3' as u8,
            '4' as u8, '5' as u8, '6' as u8, '7' as u8, '8' as u8, '9' as u8, '!' as u8,
            '@' as u8, '#' as u8, '$' as u8, '%' as u8, '^' as u8, '&' as u8, '*' as u8,
            '(' as u8, ')' as u8,
        ],
    };
    proof {
        assert(r@ =~= spec_alphabet(class));
    }
    r
}

/// The character a seed byte selects for a class code: the byte, modulo the
/// alphabet's length, indexes the alphabet.
pub open spec fn spec_password_char(class: char, seed_byte: u8) -> u8 {
    spec_alphabet(class)[seed_byte as int % spec_alphabet(class).len() as int]
}

/// Select the character of `class` that `seed_byte` picks.
pub fn password_char(class: char, seed_byte: u8) -> (r: u8)
    ensures
        r == spec_password_char(class, seed_byte),
{
    let a = alphabet_bytes(class);
    let idx = (seed_byte as usize) % a.len();
    a[idx]
}

/// The template the first seed byte selects from a tier's list.
pub open spec fn chosen_template(seed: Seq<u8>, templates: Seq<Seq<char>>) -> Seq<char>
    recommends
        0 < seed.len(),
        0 < templates.len(),
{
    templates[seed[0] as int % templates.len() as int]
}

/// The rendered password: the first seed byte chooses the template, and
/// seed byte `j + 1` chooses the character for template position `j`.
pub open spec fn spec_site_password(seed: Seq<u8>, templates: Seq<Seq<char>>) -> Seq<u8>
    recommends
        0 < templates.len(),
        chosen_template(seed, templates).len() + 1 <= seed.len(),
{
    let t = chosen_template(seed, templates);
    Seq::new(t.len(), |j: int| spec_password_char(t[j], seed[j + 1]))
}

/// The views of a list of template strings.
pub open spec fn template_views(templates: Seq<&str>) -> Seq<Seq<char>> {
    templates.map_values(|t: &str| t@)
}

/// The fixed template list of each tier. These exact strings are the
/// versioned compatibility contract.
pub open spec fn tier_template_views(tier: TemplateTier) -> Seq<Seq<char>> {
    match tier {
        TemplateTier::Maximum => seq!["anoxxxxxxxxxxxxxxxxx"@, "axxxxxxxxxxxxxxxxxno"@],
        TemplateTier::Long => seq![
            "CvcvnoCvcvCvcv"@, "CvcvCvcvnoCvcv"@, "CvcvCvcvCvcvno"@, "CvccnoCvcvCvcv"@,
            "CvccCvcvnoCvcv"@, "CvccCvcvCvcvno"@, "CvcvnoCvccCvcv"@, "CvcvCvccnoCvcv"@,
            "CvcvCvccCvcvno"@, "CvcvnoCvcvCvcc"@, "CvcvCvcvnoCvcc"@, "CvcvCvcvCvccno"@,
            "CvccnoCvccCvcv"@, "CvccCvccnoCvcv"@, "CvccCvccCvcvno"@, "CvcvnoCvccCvcc"@,
            "CvcvCvccnoCvcc"@, "CvcvCvccCvccno"@, "CvccnoCvcvCvcc"@, "CvccCvcvnoCvcc"@,
            "CvccCvcvCvccno"@,
        ],
        TemplateTier::Medium => seq!["CvcnoCvc"@, "CvcCvcno"@],
        TemplateTier::Short => seq!["Cvcn"@],
        TemplateTier::Basic => seq!["aaanaaan"@, "aannaaan"@, "aaannaaa"@],
        TemplateTier::Pin => seq!["nnnn"@],
    }
}

/// The template list of a tier, as strings.
pub fn templates_for_tier(tier: TemplateTier) -> (r: Vec<&'static str>)
    ensures
        template_views(r@) == tier_template_views(tier),
        0 < r@.len(),
        forall|i: int| 0 <= i < r@.len() ==> 0 < (#[trigger] r@[i]@).len() <= 31,
{
    let r: Vec<&'static str> = match tier {
        TemplateTier::Maximum => vec!["anoxxxxxxxxxxxxxxxxx", "axxxxxxxxxxxxxxxxxno"],
        TemplateTier::Long => vec![
            "CvcvnoCvcvCvcv", "CvcvCvcvnoCvcv", "CvcvCvcvCvcvno", "CvccnoCvcvCvcv",
            "CvccCvcvnoCvcv", "CvccCvcvCvcvno", "CvcvnoCvccCvcv", "CvcvCvccnoCvcv",
            "CvcvCvccCvcvno", "CvcvnoCvcvCvcc", "CvcvCvcvnoCvcc", "CvcvCvcvCvccno",
            "CvccnoCvccCvcv", "CvccCvccnoCvcv", "CvccCvccCvcvno", "CvcvnoCvccCvcc",
            "CvcvCvccnoCvcc", "CvcvCvccCvccno", "CvccnoCvcvCvcc", "CvccCvcvnoCvcc",
            "CvccCvcvCvccno",
        ],
        TemplateTier::Medium => vec!["CvcnoCvc", "CvcCvcno"],
        TemplateTier::Short => vec!["Cvcn"],
        TemplateTier::Basic => vec!["aaanaaan", "aannaaan", "aaannaaa"],
        TemplateTier::Pin => vec!["nnnn"],
    };
    proof {
        assert(template_views(r@) =~= tier_template_views(tier));
        lemma_tier_templates_wf(tier);
        assert forall|i: int| 0 <= i < r@.len() implies 0 < (#[trigger] r@[i]@).len() <= 31 by {
            assert(r@[i]@ == template_views(r@)[i]);
        };
    }
    r
}

/// Every shipped template has between 1 and 31 class codes, so that a
/// 32-byte seed always covers the selector byte plus every position.
pub proof fn lemma_tier_templates_wf(tier: TemplateTier)
    ensures
        0 < tier_template_views(tier).len(),
        forall|i: int|
            0 <= i < tier_template_views(tier).len() ==> 0 < (
            #[trigger] tier_template_views(tier)[i]).len() <= 31,
{
    reveal_strlit("anoxxxxxxxxxxxxxxxxx");
    reveal_strlit("axxxxxxxxxxxxxxxxxno");
    reveal_strlit("CvcvnoCvcvCvcv");
    reveal_strlit("CvcvCvcvnoCvcv");
    reveal_strlit("CvcvCvcvCvcvno");
    reveal_strlit("CvccnoCvcvCvcv");
    reveal_strlit("CvccCvcvnoCvcv");
    reveal_strlit("CvccCvcvCvcvno");
    reveal_strlit("CvcvnoCvccCvcv");
    reveal_strlit("CvcvCvccnoCvcv");
    reveal_strlit("CvcvCvccCvcvno");
    reveal_strlit("CvcvnoCvcvCvcc");
    reveal_strlit("CvcvCvcvnoCvcc");
    reveal_strlit("CvcvCvcvCvccno");
    reveal_strlit("CvccnoCvccCvcv");
    reveal_strlit("CvccCvccnoCvcv");
    reveal_strlit("CvccCvccCvcvno");
    reveal_strlit("CvcvnoCvccCvcc");
    reveal_strlit("CvcvCvccnoCvcc");
    reveal_strlit("CvcvCvccCvccno");
    reveal_strlit("CvccnoCvcvCvcc");
    reveal_strlit("CvccCvcvnoCvcc");
    reveal_strlit("CvccCvcvCvccno");
    reveal_strlit("CvcnoCvc");
    reveal_strlit("CvcCvcno");
    reveal_strlit("Cvcn");
    reveal_strlit("aaanaaan");
    reveal_strlit("aannaaan");
    reveal_strlit("aaannaaa");
    reveal_strlit("nnnn");
}

/// The selector codes of the six tiers, as the foreign-caller boundary
/// names them.
pub open spec fn spec_tier_of(selector: u32) -> Result<TemplateTier, crate::Error> {
    if selector == 10 {
        Ok(TemplateTier::Pin)
    } else if selector == 20 {
        Ok(TemplateTier::Basic)
    } else if selector == 30 {
        Ok(TemplateTier::Short)
    } else if selector == 40 {
        Ok(TemplateTier::Medium)
    } else if selector == 50 {
        Ok(TemplateTier::Long)
    } else if selector == 60 {
        Ok(TemplateTier::Maximum)
    } else {
        Err(crate::Error::InvalidArgument)
    }
}

/// Resolve a numeric tier selector; an unknown selector is rejected with
/// `Error::InvalidArgument` rather than a panic.
pub fn tier_from_selector(selector: u32) -> (res: Result<TemplateTier, crate::Error>)
    ensures
        res == spec_tier_of(selector),
{
    match selector {
        10 => Ok(TemplateTier::Pin),
        20 => Ok(TemplateTier::Basic),
        30 => Ok(TemplateTier::Short),
        40 => Ok(TemplateTier::Medium),
        50 => Ok(TemplateTier::Long),
        60 => Ok(TemplateTier::Maximum),
        _ => Err(crate::Error::InvalidArgument),
    }
}

} // verus!
