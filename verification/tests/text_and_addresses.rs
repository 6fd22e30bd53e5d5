//! Base58, hex, C strings and keys.
use hop::base58::{address_base58, address_from_base58};
use hop::bytes::{count32, hex8, label_app, optional_to_vec, to32, to_vec};
use hop::cabi::{c_string_lossy, cstr, hop_address_from_base58, hop_address_to_base58, slice};
use hop::error::FfiError;
use hop::text::{eq_ignore_ascii_case, is_blank, utf8_text};

#[test]
fn c_string_lossy_strips_interior_nuls_instead_of_emptying() {
    // A value with an interior NUL must be preserved (minus the NUL), not silently collapsed to "".
    assert_eq!(c_string_lossy("text/plain".into()), b"text/plain");
    assert_eq!(
        c_string_lossy("a\0b\0c".into()),
        b"abc",
        "interior NULs are stripped, not emptied"
    );
    assert_eq!(c_string_lossy(String::new()), b"");
}

#[test]
fn c_strings_read_back() {
    for text in ["", "text/plain", "grüße, 世界 🐸"] {
        let bytes = c_string_lossy(text.to_string());
        assert!(!bytes.contains(&0));
        assert_eq!(cstr(Some(&bytes)).as_deref(), Some(text));
    }
    let bytes = c_string_lossy("世\0界\0".to_string());
    assert_eq!(cstr(Some(&bytes)).as_deref(), Some("世界"));
}

#[test]
fn cstr_refuses_null_and_anything_but_utf8() {
    assert!(cstr(None).is_none());
    assert!(cstr(Some(&[0xff, 0xfe])).is_none());
    assert!(cstr(Some(&[0xe4, 0xb8])).is_none(), "a character cut short");
    assert_eq!(cstr(Some(b"ok")).as_deref(), Some("ok"));
    assert!(utf8_text(vec![0xc3]).is_none());
    assert_eq!(utf8_text(vec![0xc3, 0xa9]).as_deref(), Some("é"));
}

#[test]
fn slice_of_null_is_empty() {
    assert!(slice(None).is_empty());
    assert!(slice(Some(&[])).is_empty());
    assert_eq!(slice(Some(&[1, 2])), [1, 2]);
}

#[test]
fn base58_address_round_trips_and_rejects_garbage() {
    // An address must survive encode -> decode unchanged.
    let mut addr = [0u8; 32];
    for (i, b) in addr.iter_mut().enumerate() {
        *b = (i as u8).wrapping_mul(37).wrapping_add(5);
    }

    let mut buf = [0u8; 64];
    let n = hop_address_to_base58(Some(addr), Some(&mut buf));
    assert!(n > 0, "encoded to a non-empty base58 string");
    // NUL-terminated at the reported length.
    assert_eq!(buf[n], 0, "output is NUL-terminated at the reported length");

    let mut decoded = [0u8; 32];
    assert!(hop_address_from_base58(Some(&buf[..n]), Some(&mut decoded)));
    assert_eq!(decoded, addr, "base58 round-trips the address exactly");

    // Too-small buffer must refuse (return 0), not overflow.
    let mut tiny = [0u8; 4];
    assert_eq!(
        hop_address_to_base58(Some(addr), Some(&mut tiny)),
        0,
        "insufficient capacity returns 0, never overruns"
    );
    assert_eq!(tiny, [0u8; 4]);

    // Non-base58 / wrong-length garbage must be rejected.
    assert!(
        !hop_address_from_base58(Some(b"0OIl+not+base58"), Some(&mut decoded)),
        "invalid base58 is rejected"
    );
    // decodes to < 32 bytes
    assert!(
        !hop_address_from_base58(Some(b"aaa"), Some(&mut decoded)),
        "a valid-base58 but wrong-length string is rejected"
    );
    assert_eq!(decoded, addr, "a refused text writes nothing");

    // NULL inputs are handled without UB.
    assert_eq!(hop_address_to_base58(None, Some(&mut buf)), 0);
    assert_eq!(hop_address_to_base58(Some(addr), None), 0);
    assert!(!hop_address_from_base58(None, Some(&mut decoded)));
    assert!(!hop_address_from_base58(Some(b"aaa"), None));
}

#[test]
fn base58_needs_room_for_the_nul() {
    // 32 zero bytes are 32 ones: 33 bytes with the NUL, and 32 are not enough.
    let mut exact = [7u8; 34];
    assert_eq!(hop_address_to_base58(Some([0u8; 32]), Some(&mut exact[..33])), 32);
    assert_eq!(&exact[..32], [b'1'; 32].as_slice());
    assert_eq!(exact[32], 0);
    assert_eq!(exact[33], 7, "nothing is written behind the NUL");
    let mut short = [7u8; 32];
    assert_eq!(hop_address_to_base58(Some([0u8; 32]), Some(&mut short)), 0);
    assert_eq!(short, [7u8; 32]);
    let mut none: [u8; 0] = [];
    assert_eq!(hop_address_to_base58(Some([0u8; 32]), Some(&mut none)), 0);
}

#[test]
fn addresses_fit_45_bytes() {
    let mut room = [0u8; 45];
    // The largest address has the longest text; zeros in front only shorten it.
    assert_eq!(hop_address_to_base58(Some([0xff; 32]), Some(&mut room)), 44);
    let mut low = [0u8; 32];
    low[31] = 1;
    assert_eq!(hop_address_to_base58(Some(low), Some(&mut room)), 32);
    assert_eq!(hop_address_to_base58(Some([0xff; 32]), Some(&mut room[..44])), 0);
}

#[test]
fn base58_known_texts() {
    assert_eq!(address_base58(b"Hello World!".to_vec()), "2NEpo7TZRRrLZSi2U");
    assert_eq!(address_base58(vec![0, 0, 0x28, 0x7f, 0xb4, 0xcd]), "11233QC4");
    assert_eq!(address_base58(Vec::new()), "");
    assert_eq!(address_from_base58("2NEpo7TZRRrLZSi2U".to_string()), b"Hello World!");
    assert_eq!(address_from_base58("11233QC4".to_string()), [0, 0, 0x28, 0x7f, 0xb4, 0xcd]);
    assert!(address_from_base58(String::new()).is_empty());
    for bad in ["0", "O", "I", "l", "2NEpo 7TZ", "é"] {
        assert!(address_from_base58(bad.to_string()).is_empty(), "{bad}");
    }
    // A text and its address determine each other.
    let text = address_base58(vec![200u8; 32]);
    assert_eq!(address_base58(address_from_base58(text.clone())), text);
}

#[test]
fn hex_tells_bytes_apart() {
    assert_eq!(hex8(&[0x0a, 0xff, 0, 1, 2, 3, 4, 5]), "0aff000102030405");
    assert_eq!(hex8(&[0xde, 0xad, 0xbe, 0xef, 0x67, 0x89, 0xc0, 0x0c]), "deadbeef6789c00c");
    assert_ne!(hex8(&[1; 8]), hex8(&[16; 8]));
}

#[test]
fn only_two_apps_have_a_name() {
    let (relay, fabric) = ([1u8; 8], [2u8; 8]);
    assert_eq!(label_app(&relay, &relay, &fabric), "Hop Relay");
    assert_eq!(label_app(&fabric, &relay, &fabric), "device");
    assert_eq!(label_app(&[1, 1, 1, 1, 1, 1, 1, 2], &relay, &fabric), "0101010101010102");
    // Were both the same, the relay's name would come first.
    assert_eq!(label_app(&relay, &relay, &relay), "Hop Relay");
}

#[test]
fn keys_are_32_bytes() {
    assert!(matches!(to32(&[0u8; 31]), Err(FfiError::BadKey)));
    assert!(matches!(to32(&[0u8; 33]), Err(FfiError::BadKey)));
    assert!(matches!(to32(&[]), Err(FfiError::BadKey)));
    let key: Vec<u8> = (0..32).collect();
    let taken = to32(&key).expect("a key");
    assert_eq!(to_vec(&taken), key);
    assert_eq!(optional_to_vec(&Some(taken)), key);
    assert!(optional_to_vec::<32>(&None).is_empty());
}

#[test]
fn counts_keep_their_low_32_bits() {
    assert_eq!(count32(0), 0);
    assert_eq!(count32(0xffff_ffff), u32::MAX);
    assert_eq!(count32(usize::MAX), u32::MAX);
    assert_eq!(count32((1usize << 32) + 7), 7);
}

#[test]
fn error_messages() {
    assert_eq!(FfiError::BadKey.message(), "invalid key length (want 32 bytes)");
    assert_eq!(FfiError::Hop("no such topic".to_string()).message(), "hop error: no such topic");
}

#[test]
fn case_is_folded_for_ascii_alone() {
    assert!(eq_ignore_ascii_case("Content-Type", "content-type"));
    assert!(eq_ignore_ascii_case("", ""));
    assert!(!eq_ignore_ascii_case("content-type", "content-typ"));
    assert!(!eq_ignore_ascii_case("content_type", "content-type"));
    assert!(!eq_ignore_ascii_case("É", "é"));
    assert!(!eq_ignore_ascii_case("[", "{"));
    assert!(!eq_ignore_ascii_case("@", "`"));
    for (a, b) in [("AZaz09", "azAZ09"), ("x", "y"), ("K", "\u{212a}")] {
        assert_eq!(eq_ignore_ascii_case(a, b), a.eq_ignore_ascii_case(b));
    }
}

#[test]
fn blank_text_is_white_space_alone() {
    for text in ["", " ", "\t\r\n", "\u{3000}\u{a0}", "\u{2028} ", " x ", "\u{200b}", "\0"] {
        assert_eq!(is_blank(text), text.trim().is_empty(), "{text:?}");
    }
    // Every character, one by one.
    for c in '\0'..='\u{3100}' {
        assert_eq!(is_blank(&c.to_string()), c.is_whitespace(), "{c:?}");
    }
}
