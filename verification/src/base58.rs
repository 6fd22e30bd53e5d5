//! Addresses as base58 text.
use vstd::prelude::*;
use vstd::utf8::{decode_utf8, encode_utf8, valid_utf8};

use crate::bytes::is_key;
use crate::digits::{
    are_digits, leading_zeros, lemma_base58_places, lemma_digits_unique, lemma_value_positive, value,
};

verus! {

/// The digit that `c` is in the base58 alphabet `123456789A..HJ..NP..Za..km..z`, which leaves out
/// `0`, `O`, `I` and `l`; `-1` for a character outside it.
pub open spec fn digit58(c: char) -> int {
    if '1' <= c <= '9' {
        c as int - '1' as int
    } else if 'A' <= c <= 'H' {
        c as int - 'A' as int + 9
    } else if 'J' <= c <= 'N' {
        c as int - 'J' as int + 17
    } else if 'P' <= c <= 'Z' {
        c as int - 'P' as int + 22
    } else if 'a' <= c <= 'k' {
        c as int - 'a' as int + 33
    } else if 'm' <= c <= 'z' {
        c as int - 'm' as int + 44
    } else {
        -1
    }
}

/// Every character of `text` is in the base58 alphabet.
pub open spec fn in_alphabet(text: Seq<char>) -> bool {
    forall|i: int| 0 <= i < text.len() ==> digit58(#[trigger] text[i]) >= 0
}

/// `text` read as digits.
pub open spec fn text_digits(text: Seq<char>) -> Seq<int> {
    text.map_values(|c: char| digit58(c))
}

/// `bytes` read as digits of base 256.
pub open spec fn byte_digits(bytes: Seq<u8>) -> Seq<int> {
    bytes.map_values(|b: u8| b as int)
}

/// `text` is the base58 form of `bytes`: it writes the same number, with one `1` in front for each
/// zero byte that `bytes` starts with.
pub open spec fn is_base58(text: Seq<char>, bytes: Seq<u8>) -> bool {
    &&& in_alphabet(text)
    &&& value(58, text_digits(text)) == value(256, byte_digits(bytes))
    &&& leading_zeros(text_digits(text)) == leading_zeros(byte_digits(bytes))
}

/// The error of `bs58::decode`; only whether there is one matters here.
#[verifier::external_type_specification]
#[verifier::external_body]
pub struct ExDecodeError(bs58::decode::Error);

/// Calls `bs58::encode` with its default alphabet and `into_string`: the text is the base58 form
/// of the bytes. The encoder writes the digits of the number, then one `1` per leading zero byte.
#[verifier::external_body]
pub(crate) fn bs58_text(bytes: &[u8]) -> (text: String)
    ensures
        is_base58(text@, bytes@),
{
    bs58::encode(bytes).into_string()
}

/// Calls `bs58::decode` with its default alphabet and `into_vec`: text that stays within the
/// alphabet decodes to the bytes it is the base58 form of, and any other text is an error.
#[verifier::external_body]
pub(crate) fn bs58_bytes(text: &str) -> (bytes: Result<Vec<u8>, bs58::decode::Error>)
    ensures
        bytes is Ok <==> in_alphabet(text@),
        bytes matches Ok(b) ==> is_base58(text@, b@),
{
    bs58::decode(text).into_vec()
}

/// Render an address as base58 (compact, copy/paste/QR-friendly).
pub fn address_base58(address: Vec<u8>) -> (text: String)
    ensures
        is_base58(text@, address@),
{
    bs58_text(address.as_slice())
}

/// Decode a base58 address back to bytes (empty on invalid input).
pub fn address_from_base58(text: String) -> (address: Vec<u8>)
    ensures
        in_alphabet(text@) ==> is_base58(text@, address@),
        !in_alphabet(text@) ==> address@ == Seq::<u8>::empty(),
{
    match bs58_bytes(text.as_str()) {
        Ok(address) => address,
        Err(_) => Vec::new(),
    }
}

/// Base58 text is the form of one byte sequence only: decoding what an address was rendered as
/// gives the address back.
pub proof fn law_base58_decodes_to_one_address(text: Seq<char>, a: Seq<u8>, b: Seq<u8>)
    requires
        is_base58(text, a),
        is_base58(text, b),
    ensures
        a == b,
{
    let (da, db) = (byte_digits(a), byte_digits(b));
    lemma_digits_unique(256, da, db);
    assert(a.len() == da.len() == b.len());
    assert forall|i: int| 0 <= i < a.len() implies a[i] == b[i] by {
        assert(da[i] == a[i] as int && db[i] == b[i] as int);
    }
    assert(a =~= b);
}

/// The digits of a text in the alphabet are digits of base 58.
proof fn lemma_text_digits(text: Seq<char>)
    requires
        in_alphabet(text),
    ensures
        are_digits(58, text_digits(text)),
{
    let digits = text_digits(text);
    assert forall|i: int| 0 <= i < digits.len() implies 0 <= #[trigger] digits[i] < 58 by {
        assert(digit58(text[i]) >= 0);
    }
}

/// An address has one base58 form only: rendering what a text decoded to gives the text back.
pub proof fn law_base58_renders_one_text(s: Seq<char>, t: Seq<char>, address: Seq<u8>)
    requires
        is_base58(s, address),
        is_base58(t, address),
    ensures
        s == t,
{
    let (ds, dt) = (text_digits(s), text_digits(t));
    lemma_text_digits(s);
    lemma_text_digits(t);
    lemma_digits_unique(58, ds, dt);
    assert(s.len() == ds.len() == t.len());
    assert forall|i: int| 0 <= i < s.len() implies s[i] == t[i] by {
        assert(ds[i] == digit58(s[i]) && dt[i] == digit58(t[i]));
        assert(digit58(s[i]) >= 0 && digit58(t[i]) >= 0);
        assert(s[i] as int == t[i] as int);
    }
    assert(s =~= t);
}

/// The base58 form of an address makes a C string: it is not empty, takes one byte per character,
/// and holds no NUL.
pub proof fn law_base58_is_a_c_string(text: Seq<char>, address: Seq<u8>)
    requires
        is_base58(text, address),
        is_key(address),
    ensures
        text.len() > 0,
        encode_utf8(text).len() == text.len(),
        forall|i: int| 0 <= i < text.len() ==> #[trigger] encode_utf8(text)[i] != 0,
        valid_utf8(encode_utf8(text)),
        decode_utf8(encode_utf8(text)) == text,
{
    let digits = byte_digits(address);
    if text.len() == 0 {
        assert(text_digits(text).len() == 0);
        if digits[0] != 0 {
            lemma_value_positive(256, digits);
        }
    }
    assert forall|i: int| 0 <= i < text.len() implies '\0' < #[trigger] text[i] <= '\u{7f}' by {
        assert(digit58(text[i]) >= 0);
    }
    vstd::utf8::is_ascii_chars_encode_utf8(text);
    assert forall|i: int| 0 <= i < text.len() implies #[trigger] encode_utf8(text)[i] != 0 by {
        assert(text[i] as u8 == encode_utf8(text)[i]);
        assert('\0' < text[i] <= '\u{7f}');
    }
    vstd::utf8::encode_utf8_valid_utf8(text);
    vstd::utf8::encode_utf8_decode_utf8(text);
}

/// The base58 form of an address is 44 characters long at most, so that a buffer of 45 bytes always
/// takes it with its NUL.
pub proof fn law_addresses_fit_45_bytes(text: Seq<char>, address: Seq<u8>)
    requires
        is_base58(text, address),
        is_key(address),
    ensures
        text.len() <= 44,
        encode_utf8(text).len() < 45,
{
    lemma_text_digits(text);
    lemma_base58_places(text_digits(text), byte_digits(address));
    law_base58_is_a_c_string(text, address);
}

} // verus!
