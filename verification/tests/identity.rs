use paygate::identity::{Identity, MAX_IDENTITY_LEN, MAX_IDENTITY_TEXT_LEN};

#[test]
fn management_canister_text_parses_to_no_bytes() {
    let id = Identity::from_text("aaaaa-aa").unwrap();
    assert_eq!(id.as_bytes(), &Vec::<u8>::new());
    assert_eq!(id.to_text(), "aaaaa-aa");
}

#[test]
fn anonymous_text_parses_to_its_tag() {
    let id = Identity::from_text("2vxsx-fae").unwrap();
    assert_eq!(id.as_bytes(), &vec![4u8]);
}

#[test]
fn text_form_carries_checksum_and_groups() {
    let id = Identity::from_bytes(vec![0xef, 0xcd, 0xab, 0, 0, 0, 0, 0, 1]).unwrap();
    assert_eq!(id.to_text(), "2chl6-4hpzw-vqaaa-aaaaa-c");
    let parsed = Identity::from_text("2chl6-4hpzw-vqaaa-aaaaa-c").unwrap();
    assert_eq!(parsed.as_bytes(), &vec![0xef, 0xcd, 0xab, 0, 0, 0, 0, 0, 1]);
    assert!(parsed.same_as(&id));
}

#[test]
fn text_is_parsed_without_regard_to_case() {
    let lower = Identity::from_text("2chl6-4hpzw-vqaaa-aaaaa-c").unwrap();
    let upper = Identity::from_text("2CHL6-4HPZW-VQAAA-AAAAA-C").unwrap();
    assert!(lower.same_as(&upper));
}

#[test]
fn malformed_text_is_no_identity() {
    assert_eq!(Identity::from_text(""), None);
    assert_eq!(Identity::from_text("not a principal"), None);
    // A wrong check sequence.
    assert_eq!(Identity::from_text("2chl6-4hpzw-vqaaa-aaaaa-d"), None);
    // Dashes in the wrong places.
    assert_eq!(Identity::from_text("2chl64hpzwvqaaaaaaaac"), None);
}

#[test]
fn ledger_text_with_a_broken_checksum_is_no_identity() {
    let text = "mxzaz-hqmqe-cnarv-dqu6p-osn6o-42zio-q4u4l-q4k2l-q4n2l-q4h2l-76z";
    assert_eq!(Identity::from_text(text), None);
}

#[test]
fn facilitator_text_round_trips() {
    let id = Identity::from_text("ogkpr-lyaaa-aaaap-an5fq-cai").unwrap();
    assert_eq!(id.as_bytes().len(), 10);
    assert_eq!(id.to_text(), "ogkpr-lyaaa-aaaap-an5fq-cai");
}

#[test]
fn identity_takes_at_most_twenty_nine_bytes() {
    assert_eq!(MAX_IDENTITY_LEN, 29);
    let longest = Identity::from_bytes(vec![7u8; 29]).unwrap();
    assert_eq!(longest.as_bytes().len(), 29);
    assert_eq!(Identity::from_text(&longest.to_text()), Some(longest));
    assert_eq!(Identity::from_bytes(vec![7u8; 30]), None);
}

#[test]
fn same_as_compares_bytes() {
    let a = Identity::from_bytes(vec![1, 2, 3]).unwrap();
    let b = Identity::from_bytes(vec![1, 2, 3]).unwrap();
    let c = Identity::from_bytes(vec![1, 2, 4]).unwrap();
    let d = Identity::from_bytes(vec![1, 2]).unwrap();
    assert!(a.same_as(&b));
    assert!(!a.same_as(&c));
    assert!(!a.same_as(&d));
    assert!(!d.same_as(&a));
}

#[test]
fn clone_keeps_the_bytes() {
    let a = Identity::from_bytes(vec![9, 8, 7, 6]).unwrap();
    let b = a.clone();
    assert_eq!(a, b);
    assert_eq!(b.as_bytes(), &vec![9u8, 8, 7, 6]);
}

#[test]
fn from_parsed_applies_the_length_limit() {
    assert_eq!(Identity::from_parsed(None), None);
    assert_eq!(
        Identity::from_parsed(Some(vec![1, 2])),
        Identity::from_bytes(vec![1, 2])
    );
    assert_eq!(Identity::from_parsed(Some(vec![0u8; 30])), None);
}

#[test]
fn longest_identity_has_the_longest_text() {
    assert_eq!(MAX_IDENTITY_TEXT_LEN, 63);
    let longest = Identity::from_bytes(vec![0xffu8; 29]).unwrap();
    let text = longest.to_text();
    assert_eq!(text.len(), 63);
    assert_eq!(Identity::from_text(&text), Some(longest));
}

#[test]
fn text_longer_than_any_identity_is_no_identity() {
    let longest = Identity::from_bytes(vec![0xffu8; 29]).unwrap().to_text();
    assert_eq!(Identity::from_text(&format!("{}-aaaaa", longest)), None);
    assert_eq!(Identity::from_text(&format!("{}a", longest)), None);
    assert_eq!(Identity::from_text(&"a".repeat(64)), None);
    assert_eq!(Identity::from_text(&"aaaaa-".repeat(100_000)), None);
    // Thirty-two characters of two bytes each.
    assert_eq!(Identity::from_text(&"\u{e9}".repeat(32)), None);
}
