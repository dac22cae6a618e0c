use plugininterfaces::add;
use plugininterfaces::uid::{make_long, FUID, TUID, UID};
use std::cmp::Ordering;

#[test]
fn it_works() {
    let result = add(2, 2);
    assert_eq!(result, 4);
}

#[test]
fn make_long_packs_most_significant_first() {
    assert_eq!(make_long(0x12, 0x34, 0x56, 0x78), 0x1234_5678);
    assert_eq!(make_long(0, 0, 0, 0), 0);
    assert_eq!(make_long(0xFF, 0xFF, 0xFF, 0xFF), 0xFFFF_FFFF);
}

#[test]
fn to_tuid_byte_layout() {
    // word 0 little-endian, word 1 as two swapped halves, words 2 and 3
    // big-endian
    let t: TUID = UID::to_tuid(0x0102_0304, 0x0506_0708, 0x090A_0B0C, 0x0D0E_0F10);
    assert_eq!(
        t,
        [
            0x04, 0x03, 0x02, 0x01, 0x06, 0x05, 0x08, 0x07, 0x09, 0x0A, 0x0B, 0x0C, 0x0D, 0x0E,
            0x0F, 0x10
        ]
    );
}

#[test]
fn construct_decompose_round_trip() {
    let f = FUID::new(0x2288_8DD8, 0x156E_45AE, 0x8358_B348, 0x0819_0625);
    assert_eq!(f.get_long_1(), 0x2288_8DD8);
    assert_eq!(f.get_long_2(), 0x156E_45AE);
    assert_eq!(f.get_long_3(), 0x8358_B348);
    assert_eq!(f.get_long_4(), 0x0819_0625);

    let g = FUID::new(0xFFFF_FFFF, 0x0000_0001, 0x8000_0000, 0x7FFF_FFFF);
    assert_eq!(g.get_long_1(), 0xFFFF_FFFF);
    assert_eq!(g.get_long_2(), 0x0000_0001);
    assert_eq!(g.get_long_3(), 0x8000_0000);
    assert_eq!(g.get_long_4(), 0x7FFF_FFFF);
}

#[test]
fn equal_words_equal_identifiers_across_code_paths() {
    // the same four words through three different construction paths
    let a = FUID::new(0x0000_0000, 0x0000_0000, 0xC000_0000, 0x0000_0046);
    let b = FUID::from_words([0x0000_0000, 0x0000_0000, 0xC000_0000, 0x0000_0046]);
    let c = FUID::from(UID::to_tuid(0x0000_0000, 0x0000_0000, 0xC000_0000, 0x0000_0046));
    assert!(a == b);
    assert!(b == c);
    assert!(a == c);
    assert_eq!(a.data, b.data);
}

#[test]
fn equality_agrees_with_bytewise_comparison() {
    let a = FUID::new(0x7A4D_811C, 0x5211_4A1F, 0xAED9_D2EE, 0x0B43_BF9F);
    let mut low = a;
    low.data[3] ^= 0x01; // inside the first 64-bit half
    let mut high = a;
    high.data[12] ^= 0x01; // inside the second 64-bit half
    assert!(a == a);
    assert!(!(a == low));
    assert!(!(a == high));
    assert!(!(low == high));
}

#[test]
fn equality_is_an_equivalence() {
    let a = FUID::new(1, 2, 3, 4);
    let b = FUID::from_words([1, 2, 3, 4]);
    let c = FUID::from(a.data);
    // reflexive
    assert!(a == a);
    // symmetric
    assert!(a == b);
    assert!(b == a);
    // transitive
    assert!(b == c);
    assert!(a == c);
    let d = FUID::new(1, 2, 3, 5);
    assert!(!(a == d));
    assert!(!(d == a));
}

#[test]
fn display_canonical_form() {
    let f = FUID::new(0x0000_0000, 0x0000_0000, 0xC000_0000, 0x0000_0046);
    assert_eq!(f.to_uid_string(), "00000000-0000-c000-0000-000000000046");
}

#[test]
fn display_all_hex_digits() {
    let f = FUID::new(0x7A4D_811C, 0x5211_4A1F, 0xAED9_D2EE, 0x0B43_BF9F);
    assert_eq!(f.to_uid_string(), "7a4d811c-5211-aed9-d2ee-4a1f0b43bf9f");
}

#[test]
fn validity_of_zero_and_nonzero() {
    let zero = FUID::from([0u8; 16]);
    assert!(!zero.is_valid());
    let f = FUID::new(0, 0, 0, 1);
    assert!(f.is_valid());
    let g = FUID::new(0x8000_0000, 0, 0, 0);
    assert!(g.is_valid());
}

#[test]
fn entropy_stamping_sets_version_and_variant() {
    let zero = FUID::from_entropy([0u8; 16]);
    assert_eq!(zero.data[6], 0x40);
    assert_eq!(zero.data[8], 0x80);
    assert!(zero.is_valid());

    let ones = FUID::from_entropy([0xFFu8; 16]);
    assert_eq!(ones.data[6], 0x4F);
    assert_eq!(ones.data[8], 0xBF);
    // every other byte passes through unchanged
    assert_eq!(ones.data[0], 0xFF);
    assert_eq!(ones.data[7], 0xFF);
    assert_eq!(ones.data[15], 0xFF);
}

#[test]
fn ordering_is_lexicographic_on_bytes() {
    let zero = FUID::from([0u8; 16]);
    let mut last = [0u8; 16];
    last[15] = 1;
    let tail = FUID::from(last);
    let mut first = [0u8; 16];
    first[0] = 1;
    let head = FUID::from(first);

    assert_eq!(zero.partial_cmp(&zero), Some(Ordering::Equal));
    assert_eq!(zero.partial_cmp(&tail), Some(Ordering::Less));
    assert_eq!(tail.partial_cmp(&zero), Some(Ordering::Greater));
    // an earlier byte dominates a later one
    assert_eq!(tail.partial_cmp(&head), Some(Ordering::Less));
    assert!(zero < tail);
    assert!(tail < head);
}

#[test]
fn generate_produces_valid_stamped_identifier() {
    let f = FUID::generate().expect("the system random source is available");
    assert_eq!(f.data[6] >> 4, 4);
    assert_eq!(f.data[8] >> 6, 2);
    assert!(f.is_valid());
    // two fresh identifiers differ (16 random bytes colliding is impossible
    // in practice)
    let g = FUID::generate().expect("the system random source is available");
    assert!(!(f == g));
}
