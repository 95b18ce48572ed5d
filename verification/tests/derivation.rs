use rusterpassword::create_identicon;
use rusterpassword::gen_master_key;
use rusterpassword::gen_site_password;
use rusterpassword::gen_site_seed;
use rusterpassword::templates::templates_for_tier;
use rusterpassword::templates::TemplateTier;
use rusterpassword::Identicon;
use secstr::SecStr;

#[test]
fn test_pin() {
    let master_key =
        gen_master_key(SecStr::from("Correct Horse Battery Staple"), "Cosima Niehaus").unwrap();
    let site_seed = gen_site_seed(&master_key, "bank.com", 1).unwrap();
    let templates = templates_for_tier(TemplateTier::Pin);
    assert_eq!(gen_site_password(&site_seed, templates.as_slice()).unsecure(), b"7404")
}

#[test]
fn test_long() {
    let master_key =
        gen_master_key(SecStr::from("Correct Horse Battery Staple"), "Cosima Niehaus").unwrap();
    let site_seed = gen_site_seed(&master_key, "twitter.com", 5).unwrap();
    let templates = templates_for_tier(TemplateTier::Long);
    assert_eq!(
        gen_site_password(&site_seed, templates.as_slice()).unsecure(),
        b"Kiwe2^BecuRodw"
    )
}

#[test]
fn test_maximum() {
    let master_key = gen_master_key(SecStr::from("hunter2"), "UserName").unwrap();
    let site_seed = gen_site_seed(&master_key, "test", 1).unwrap();
    let templates = templates_for_tier(TemplateTier::Maximum);
    assert_eq!(
        gen_site_password(&site_seed, templates.as_slice()).unsecure(),
        b"e5:kl#V@0uAZ02xKUic5"
    )
}

#[test]
fn test_identicon() {
    let master_pass = SecStr::from("test1234");
    let name = "test";
    let expected = Identicon {
        left_arm: "═",
        right_arm: "╗",
        body: "▓",
        accessory: "♪",
        color: 7u8,
    };
    assert_eq!(create_identicon(&master_pass, name), expected);
}
