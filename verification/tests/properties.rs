use rusterpassword::create_identicon;
use rusterpassword::encode::be32_bytes;
use rusterpassword::encode::master_salt_bytes;
use rusterpassword::encode::site_msg_bytes;
use rusterpassword::gen_master_key;
use rusterpassword::gen_master_key_custom;
use rusterpassword::gen_site_password;
use rusterpassword::gen_site_seed;
use rusterpassword::templates::templates_for_tier;
use rusterpassword::templates::tier_from_selector;
use rusterpassword::templates::TemplateTier;
use rusterpassword::Error;
use secstr::SecStr;

fn seed_with(bytes: &[u8]) -> SecStr {
    assert_eq!(bytes.len(), 32);
    SecStr::new(bytes.to_vec())
}

#[test]
fn full_pipeline_is_deterministic() {
    let run = || {
        let master_key = gen_master_key(SecStr::from("hunter2"), "UserName").unwrap();
        let site_seed = gen_site_seed(&master_key, "example.org", 3).unwrap();
        let templates = templates_for_tier(TemplateTier::Medium);
        gen_site_password(&site_seed, templates.as_slice())
            .unsecure()
            .to_vec()
    };
    assert_eq!(run(), run());
}

#[test]
fn site_seed_avalanche_on_counter() {
    let master_key = SecStr::from("not really a master key");
    let s1 = gen_site_seed(&master_key, "example.org", 1).unwrap();
    let s2 = gen_site_seed(&master_key, "example.org", 2).unwrap();
    let differing = s1
        .unsecure()
        .iter()
        .zip(s2.unsecure().iter())
        .filter(|(a, b)| a != b)
        .count();
    assert!(differing >= 24, "only {} of 32 seed bytes changed", differing);
}

#[test]
fn site_seed_avalanche_on_site_name() {
    let master_key = SecStr::from("not really a master key");
    let s1 = gen_site_seed(&master_key, "a.example", 1).unwrap();
    let s2 = gen_site_seed(&master_key, "b.example", 1).unwrap();
    let differing = s1
        .unsecure()
        .iter()
        .zip(s2.unsecure().iter())
        .filter(|(a, b)| a != b)
        .count();
    assert!(differing >= 24, "only {} of 32 seed bytes changed", differing);
}

#[test]
fn template_choice_depends_only_on_first_seed_byte() {
    // Two seeds that agree in byte 0 select the same template, so the
    // rendered passwords agree wherever the later seed bytes agree.
    let mut a = [7u8; 32];
    let mut b = [7u8; 32];
    a[1] = 100;
    b[1] = 200;
    let templates = templates_for_tier(TemplateTier::Long);
    let pa = gen_site_password(&seed_with(&a), templates.as_slice());
    let pb = gen_site_password(&seed_with(&b), templates.as_slice());
    assert_eq!(pa.unsecure().len(), pb.unsecure().len());
    assert_eq!(&pa.unsecure()[1..], &pb.unsecure()[1..]);
}

#[test]
fn single_template_tier_ignores_selector_byte() {
    let mut a = [42u8; 32];
    let mut b = [42u8; 32];
    a[0] = 0;
    b[0] = 255;
    let templates = templates_for_tier(TemplateTier::Pin);
    let pa = gen_site_password(&seed_with(&a), templates.as_slice());
    let pb = gen_site_password(&seed_with(&b), templates.as_slice());
    assert_eq!(pa.unsecure(), pb.unsecure());
}

#[test]
fn pin_passwords_are_all_digits() {
    let templates = templates_for_tier(TemplateTier::Pin);
    for fill in [0u8, 1, 9, 77, 128, 254, 255] {
        let seed = seed_with(&[fill; 32]);
        let password = gen_site_password(&seed, templates.as_slice());
        assert_eq!(password.unsecure().len(), 4);
        assert!(password.unsecure().iter().all(|b| b.is_ascii_digit()));
    }
}

#[test]
fn rendered_characters_follow_template_classes() {
    // The medium templates are CvcnoCvc and CvcCvcno: check each rendered
    // character against its class alphabet.
    let upper_consonants = b"BCDFGHJKLMNPQRSTVWXYZ";
    let lower_vowels = b"aeiou";
    let lower_consonants = b"bcdfghjklmnpqrstvwxyz";
    let digits = b"0123456789";
    let symbols = b"@&%?,=[]_:-+*$#!'^~;()/.";
    let in_class = |class: u8, ch: u8| -> bool {
        match class {
            b'C' => upper_consonants.contains(&ch),
            b'v' => lower_vowels.contains(&ch),
            b'c' => lower_consonants.contains(&ch),
            b'n' => digits.contains(&ch),
            b'o' => symbols.contains(&ch),
            _ => panic!("unexpected class"),
        }
    };
    let templates = templates_for_tier(TemplateTier::Medium);
    for fill in [3u8, 58, 111, 200] {
        let mut bytes = [fill; 32];
        for (i, b) in bytes.iter_mut().enumerate() {
            *b = fill.wrapping_add(i as u8).wrapping_mul(31);
        }
        let chosen = templates[bytes[0] as usize % templates.len()].as_bytes();
        let password = gen_site_password(&seed_with(&bytes), templates.as_slice());
        let rendered = password.unsecure();
        assert_eq!(rendered.len(), chosen.len());
        for (j, &ch) in rendered.iter().enumerate() {
            assert!(in_class(chosen[j], ch), "position {} broke its class", j);
        }
    }
}

#[test]
fn identicon_color_is_always_in_range() {
    for (password, name) in [
        ("test1234", "test"),
        ("hunter2", "UserName"),
        ("", ""),
        ("another password", "Cosima Niehaus"),
        ("x", "y"),
    ] {
        let identicon = create_identicon(&SecStr::from(password), name);
        assert!((1..=7).contains(&identicon.color));
    }
}

#[test]
fn identicon_is_deterministic() {
    let a = create_identicon(&SecStr::from("test1234"), "test");
    let b = create_identicon(&SecStr::from("test1234"), "test");
    assert_eq!(a, b);
}

#[test]
fn custom_master_key_rejects_bad_parameters() {
    let make = |n: u64, r: u32, p: u32, len: usize| {
        gen_master_key_custom(SecStr::from("pw"), SecStr::from("salt"), n, r, p, len)
    };
    // n must be a power of two.
    assert_eq!(make(0, 8, 2, 64).unwrap_err(), Error::Crypto);
    assert_eq!(make(3, 8, 2, 64).unwrap_err(), Error::Crypto);
    assert_eq!(make(32769, 8, 2, 64).unwrap_err(), Error::Crypto);
    // r and p must be positive.
    assert_eq!(make(2, 0, 2, 64).unwrap_err(), Error::Crypto);
    assert_eq!(make(2, 8, 0, 64).unwrap_err(), Error::Crypto);
    // r * p must stay under 2^30.
    assert_eq!(make(2, 0x10000, 0x4000, 64).unwrap_err(), Error::Crypto);
    // The output must be nonempty and at most (2^32 - 1) * 32 bytes.
    assert_eq!(make(2, 8, 2, 0).unwrap_err(), Error::Crypto);
    assert_eq!(make(2, 8, 2, 0xffff_ffff * 32 + 1).unwrap_err(), Error::Crypto);
}

#[test]
fn custom_master_key_accepts_small_parameters() {
    let key = gen_master_key_custom(SecStr::from("pw"), SecStr::from("salt"), 2, 1, 1, 16)
        .unwrap();
    assert_eq!(key.unsecure().len(), 16);
    // The stretched key is not a copy of the password or the salt.
    assert_ne!(key.unsecure(), b"pw");
    assert_ne!(key.unsecure(), b"salt");
}

#[test]
fn master_key_avalanche_on_password() {
    let k1 = gen_master_key(SecStr::from("hunter2"), "UserName").unwrap();
    let k2 = gen_master_key(SecStr::from("hunter3"), "UserName").unwrap();
    let differing = k1
        .unsecure()
        .iter()
        .zip(k2.unsecure().iter())
        .filter(|(a, b)| a != b)
        .count();
    assert!(differing >= 48, "only {} of 64 key bytes changed", differing);
}

#[test]
fn tier_selectors_resolve_like_the_foreign_boundary() {
    assert_eq!(tier_from_selector(10).unwrap(), TemplateTier::Pin);
    assert_eq!(tier_from_selector(20).unwrap(), TemplateTier::Basic);
    assert_eq!(tier_from_selector(30).unwrap(), TemplateTier::Short);
    assert_eq!(tier_from_selector(40).unwrap(), TemplateTier::Medium);
    assert_eq!(tier_from_selector(50).unwrap(), TemplateTier::Long);
    assert_eq!(tier_from_selector(60).unwrap(), TemplateTier::Maximum);
    assert_eq!(tier_from_selector(0).unwrap_err(), Error::InvalidArgument);
    assert_eq!(tier_from_selector(61).unwrap_err(), Error::InvalidArgument);
}

#[test]
fn big_endian_encoding_is_exact() {
    assert_eq!(be32_bytes(0), vec![0, 0, 0, 0]);
    assert_eq!(be32_bytes(1), vec![0, 0, 0, 1]);
    assert_eq!(be32_bytes(0x01020304), vec![1, 2, 3, 4]);
    assert_eq!(be32_bytes(u32::MAX), vec![255, 255, 255, 255]);
}

#[test]
fn salt_and_message_layout_is_exact() {
    let mut expected_salt = b"com.lyndir.masterpassword".to_vec();
    expected_salt.extend([0, 0, 0, 2]);
    expected_salt.extend(b"ab");
    assert_eq!(master_salt_bytes(b"ab"), expected_salt);

    let mut expected_msg = b"com.lyndir.masterpassword".to_vec();
    expected_msg.extend([0, 0, 0, 4]);
    expected_msg.extend(b"site");
    expected_msg.extend([0, 0, 0, 5]);
    assert_eq!(site_msg_bytes(b"site", 5), expected_msg);
}

#[test]
fn secure_container_round_trips_and_wipes_on_zeroing() {
    let mut secret = SecStr::new(vec![1, 2, 3, 4]);
    assert_eq!(secret.unsecure(), &[1, 2, 3, 4]);
    secret.zero_out();
    assert_eq!(secret.unsecure().len(), 0);
}

#[test]
fn empty_password_and_names_still_derive() {
    let master_key = gen_master_key(SecStr::from(""), "").unwrap();
    assert_eq!(master_key.unsecure().len(), 64);
    let site_seed = gen_site_seed(&master_key, "", 1).unwrap();
    assert_eq!(site_seed.unsecure().len(), 32);
    let templates = templates_for_tier(TemplateTier::Short);
    let password = gen_site_password(&site_seed, templates.as_slice());
    assert_eq!(password.unsecure().len(), 4);
}

#[test]
fn all_tiers_render_within_the_seed_budget() {
    for tier in [
        TemplateTier::Pin,
        TemplateTier::Basic,
        TemplateTier::Short,
        TemplateTier::Medium,
        TemplateTier::Long,
        TemplateTier::Maximum,
    ] {
        let templates = templates_for_tier(tier);
        assert!(!templates.is_empty());
        for t in templates.iter() {
            assert!(!t.is_empty() && t.len() <= 31);
        }
        let password = gen_site_password(&seed_with(&[13u8; 32]), templates.as_slice());
        assert!(!password.unsecure().is_empty());
    }
}
