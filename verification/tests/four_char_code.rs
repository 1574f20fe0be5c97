use keychain_bridge::FourCharacterCode;
use std::cmp::Ordering;
use std::collections::{BTreeSet, HashSet};

#[test]
fn abcd_reads_as_text_integer_and_bytes() {
    let code = FourCharacterCode::from([0x41, 0x42, 0x43, 0x44]);
    assert_eq!(code.as_str(), "ABCD");
    assert_eq!(code.as_bytes(), b"ABCD");
    assert_eq!(code.to_integer(), 0x4443_4241);
    assert_eq!(FourCharacterCode::from(0x4443_4241u32), code);
}

#[test]
fn bytes_are_kept_in_order() {
    let all: [[u8; 4]; 5] = [
        [0, 0, 0, 0],
        [1, 2, 3, 4],
        [0xff, 0xfe, 0xfd, 0xfc],
        [0x80, 0x00, 0x7f, 0xff],
        *b"genp",
    ];
    for bytes in all {
        assert_eq!(FourCharacterCode::from(bytes).as_bytes(), &bytes);
        assert_eq!(FourCharacterCode::from(&bytes).as_bytes(), &bytes);
        assert_eq!(FourCharacterCode::from(&bytes), FourCharacterCode::from(bytes));
    }
}

#[test]
fn integer_gives_least_significant_byte_first() {
    assert_eq!(FourCharacterCode::from(0x0102_0304u32).as_bytes(), &[4, 3, 2, 1]);
    assert_eq!(FourCharacterCode::from(0u32).as_bytes(), &[0, 0, 0, 0]);
    assert_eq!(FourCharacterCode::from(u32::MAX).as_bytes(), &[0xff, 0xff, 0xff, 0xff]);
    assert_eq!(FourCharacterCode::from(0x706e_6567u32).as_bytes(), b"genp");
    assert_eq!(FourCharacterCode::from(0x0000_0100u32).as_bytes(), &[0, 1, 0, 0]);
}

#[test]
fn integer_form_reads_first_byte_as_least_significant() {
    assert_eq!(FourCharacterCode::from([4, 3, 2, 1]).to_integer(), 0x0102_0304);
    assert_eq!(FourCharacterCode::from([0, 0, 0, 0]).to_integer(), 0);
    assert_eq!(FourCharacterCode::from([0xff, 0xff, 0xff, 0xff]).to_integer(), u32::MAX);
    assert_eq!(FourCharacterCode::from(*b"genp").to_integer(), 0x706e_6567);
    assert_eq!(FourCharacterCode::from([0, 0, 0, 0x80]).to_integer(), 0x8000_0000);
}

#[test]
fn integer_round_trips_through_a_code() {
    let mut n: u32 = 1;
    for _ in 0..200 {
        assert_eq!(FourCharacterCode::from(n).to_integer(), n);
        n = n.wrapping_mul(2_654_435_761).wrapping_add(12_345);
    }
    for n in [0, 1, 0xff, 0x100, 0xffff, 0x1_0000, 0xff_ffff, 0x100_0000, u32::MAX] {
        assert_eq!(FourCharacterCode::from(n).to_integer(), n);
    }
}

#[test]
fn bytes_round_trip_through_the_integer() {
    for bytes in [*b"ABCD", *b"inet", [0, 1, 2, 3], [0xff, 0, 0xff, 0], [0x80, 0x80, 0x80, 0x80]] {
        let n = FourCharacterCode::from(bytes).to_integer();
        assert_eq!(FourCharacterCode::from(n).as_bytes(), &bytes);
    }
}

#[test]
fn ascii_bytes_read_as_four_characters() {
    for bytes in [*b"ABCD", *b"genp", *b"    ", *b"a1_Z", [0, 0, 0, 0], [0x7f, 0x7f, 0x7f, 0x7f]] {
        let code = FourCharacterCode::from(bytes);
        let text = code.as_str();
        assert_eq!(text.chars().count(), 4);
        assert!(text.is_ascii());
        assert_eq!(text.as_bytes(), &bytes);
        for (c, b) in text.chars().zip(bytes) {
            assert_eq!(c, char::from(b));
        }
        assert_eq!(code.to_str(), Some(text));
    }
}

#[test]
fn text_borrows_the_bytes_of_the_code() {
    let code = FourCharacterCode::from(*b"ABCD");
    assert_eq!(code.as_str().as_ptr(), code.as_bytes().as_ptr());
}

#[test]
fn well_formed_bytes_beyond_ascii_read_as_fewer_characters() {
    let code = FourCharacterCode::from([0xc3, 0xa9, 0x31, 0x32]);
    assert_eq!(code.to_str(), Some("\u{e9}12"));
    assert_eq!(code.as_str().chars().count(), 3);
    let one = FourCharacterCode::from([0xf0, 0x9f, 0x94, 0x91]);
    assert_eq!(one.as_str(), "\u{1f511}");
}

#[test]
fn ill_formed_bytes_have_no_text() {
    assert_eq!(FourCharacterCode::from([0xff, 0x41, 0x42, 0x43]).to_str(), None);
    assert_eq!(FourCharacterCode::from([0x41, 0x42, 0x43, 0xc3]).to_str(), None);
    assert_eq!(FourCharacterCode::from([0x80, 0x41, 0x42, 0x43]).to_str(), None);
    assert_eq!(FourCharacterCode::from([0xc0, 0x80, 0x41, 0x42]).to_str(), None);
    assert_eq!(FourCharacterCode::from([0xed, 0xa0, 0x80, 0x41]).to_str(), None);
    assert_eq!(FourCharacterCode::from([0xf4, 0x90, 0x80, 0x80]).to_str(), None);
}

#[test]
fn text_of_four_bytes_makes_the_code_of_those_bytes() {
    assert_eq!(
        FourCharacterCode::try_from_text("abcd"),
        Some(FourCharacterCode::from(*b"abcd"))
    );
    assert_eq!(FourCharacterCode::from_text("abcd"), FourCharacterCode::from(*b"abcd"));
    assert_eq!(FourCharacterCode::from_text("genp").as_str(), "genp");
    assert_eq!(
        FourCharacterCode::try_from_text("\u{e9}12"),
        Some(FourCharacterCode::from([0xc3, 0xa9, 0x31, 0x32]))
    );
    assert_eq!(
        FourCharacterCode::try_from_text("\u{1f511}"),
        Some(FourCharacterCode::from([0xf0, 0x9f, 0x94, 0x91]))
    );
}

#[test]
fn text_of_three_bytes_makes_no_code() {
    assert_eq!(FourCharacterCode::try_from_text("abc"), None);
    assert_eq!(FourCharacterCode::try_from_text("\u{20ac}"), None);
}

#[test]
fn text_of_five_bytes_makes_no_code() {
    assert_eq!(FourCharacterCode::try_from_text("abcde"), None);
    assert_eq!(FourCharacterCode::try_from_text("\u{e9}123"), None);
}

#[test]
fn text_of_other_lengths_makes_no_code() {
    assert_eq!(FourCharacterCode::try_from_text(""), None);
    assert_eq!(FourCharacterCode::try_from_text("a"), None);
    assert_eq!(FourCharacterCode::try_from_text("abcdefgh"), None);
    assert_eq!(FourCharacterCode::try_from_text("\u{e9}\u{e9}\u{e9}\u{e9}"), None);
}

#[test]
fn debug_string_wraps_the_text() {
    assert_eq!(
        FourCharacterCode::from(*b"ABCD").to_debug_string(),
        "FourCharacterCode(ABCD)"
    );
    assert_eq!(
        FourCharacterCode::from(0x706e_6567u32).to_debug_string(),
        "FourCharacterCode(genp)"
    );
}

#[test]
fn codes_are_equal_when_their_bytes_are() {
    let a = FourCharacterCode::from(*b"ABCD");
    assert_eq!(a, FourCharacterCode::from(*b"ABCD"));
    assert_ne!(a, FourCharacterCode::from(*b"ABCE"));
    assert_ne!(a, FourCharacterCode::from(*b"BBCD"));
    assert_ne!(a, FourCharacterCode::from(*b"ACCD"));
    assert_ne!(a, FourCharacterCode::from(*b"ABDD"));
    assert_ne!(a, FourCharacterCode::from(*b"DCBA"));
}

#[test]
fn codes_are_ordered_as_they_are_spelled() {
    let abcd = FourCharacterCode::from(*b"ABCD");
    let baaa = FourCharacterCode::from(*b"BAAA");
    let abce = FourCharacterCode::from(*b"ABCE");
    assert!(abcd < baaa);
    assert!(abcd < abce);
    assert!(abce < baaa);
    assert!(baaa > abcd);
    assert!(abcd <= abcd);
    assert!(abcd >= abcd);
    assert_eq!(abcd.partial_cmp(&baaa), Some(Ordering::Less));
    assert_eq!(baaa.partial_cmp(&abcd), Some(Ordering::Greater));
    assert_eq!(abcd.partial_cmp(&abcd), Some(Ordering::Equal));
    assert!(FourCharacterCode::from([0, 0, 0, 0xff]) < FourCharacterCode::from([0, 0, 1, 0]));
    assert!(FourCharacterCode::from([0x7f, 0xff, 0xff, 0xff]) < FourCharacterCode::from([0x80, 0, 0, 0]));
}

#[test]
fn both_orders_of_a_code_agree() {
    let codes: [[u8; 4]; 7] = [
        *b"ABCD",
        *b"BAAA",
        *b"ABCE",
        [0, 0, 0, 0],
        [0xff, 0xff, 0xff, 0xff],
        [0, 0xff, 0, 0xff],
        [0x80, 0, 0, 1],
    ];
    for a in codes {
        for b in codes {
            let (x, y) = (FourCharacterCode::from(a), FourCharacterCode::from(b));
            assert_eq!(x.partial_cmp(&y), Some(x.cmp(&y)));
            assert_eq!(x.cmp(&y), a.cmp(&b));
            assert_eq!(x == y, a == b);
        }
    }
}

#[test]
fn codes_serve_as_keys() {
    let mut hashed = HashSet::new();
    let mut sorted = BTreeSet::new();
    for bytes in [*b"inet", *b"genp", *b"keys", *b"genp", *b"cert"] {
        hashed.insert(FourCharacterCode::from(bytes));
        sorted.insert(FourCharacterCode::from(bytes));
    }
    assert_eq!(hashed.len(), 4);
    assert!(hashed.contains(&FourCharacterCode::from(0x706e_6567u32)));
    let order: Vec<&str> = sorted.iter().map(|code| code.as_str()).collect();
    assert_eq!(order, vec!["cert", "genp", "inet", "keys"]);
}
