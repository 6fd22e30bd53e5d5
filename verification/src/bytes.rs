//! Fixed-size keys and their renderings.
use vstd::prelude::*;

use crate::error::FfiError;

verus! {

/// `bytes` has the length of a key: an address, a bundle id, a secret.
pub open spec fn is_key(bytes: Seq<u8>) -> bool {
    bytes.len() == 32
}

/// The bytes of a fixed-size array as a vector.
pub fn to_vec<const N: usize>(array: &[u8; N]) -> (bytes: Vec<u8>)
    ensures
        bytes@ == array@,
{
    let mut bytes: Vec<u8> = Vec::new();
    for i in 0..N
        invariant
            bytes@ == array@.take(i as int),
    {
        bytes.push(array[i]);
    }
    bytes
}

/// The bytes behind an optional array; none for `None`.
pub fn optional_to_vec<const N: usize>(array: &Option<[u8; N]>) -> (bytes: Vec<u8>)
    ensures
        bytes@ == optional_bytes(*array),
{
    match array {
        Some(a) => to_vec(a),
        None => Vec::new(),
    }
}

/// What `optional_to_vec` gives.
pub open spec fn optional_bytes<const N: usize>(array: Option<[u8; N]>) -> Seq<u8> {
    match array {
        Some(a) => a@,
        None => Seq::empty(),
    }
}

/// Take `v` as a 32-byte key.
pub fn to32(v: &[u8]) -> (key: Result<[u8; 32], FfiError>)
    ensures
        match key {
            Ok(k) => is_key(v@) && k@ == v@,
            Err(e) => !is_key(v@) && e == FfiError::BadKey,
        },
{
    if v.len() != 32 {
        return Err(FfiError::BadKey);
    }
    let mut key: [u8; 32] = [0u8; 32];
    for i in 0..32usize
        invariant
            v@.len() == 32,
            forall|j: int| 0 <= j < i ==> key@[j] == v@[j],
    {
        key[i] = v[i];
    }
    assert(key@ =~= v@);
    Ok(key)
}

/// The small hexadecimal digit of `n`, for `n` below 16.
pub open spec fn hex_char(n: int) -> char {
    if n < 10 {
        ('0' as int + n) as char
    } else {
        ('a' as int + n - 10) as char
    }
}

/// `bytes` in hexadecimal, two small digits per byte.
pub open spec fn hex_text(bytes: Seq<u8>) -> Seq<char> {
    Seq::new(
        2 * bytes.len(),
        |i: int|
            if i % 2 == 0 {
                hex_char(bytes[i / 2] as int / 16)
            } else {
                hex_char(bytes[i / 2] as int % 16)
            },
    )
}

fn hex_digit(n: u8) -> (digit: &'static str)
    requires
        n < 16,
    ensures
        digit@ == seq![hex_char(n as int)],
{
    proof {
        reveal_strlit("0");
        reveal_strlit("1");
        reveal_strlit("2");
        reveal_strlit("3");
        reveal_strlit("4");
        reveal_strlit("5");
        reveal_strlit("6");
        reveal_strlit("7");
        reveal_strlit("8");
        reveal_strlit("9");
        reveal_strlit("a");
        reveal_strlit("b");
        reveal_strlit("c");
        reveal_strlit("d");
        reveal_strlit("e");
        reveal_strlit("f");
    }
    match n {
        0 => "0",
        1 => "1",
        2 => "2",
        3 => "3",
        4 => "4",
        5 => "5",
        6 => "6",
        7 => "7",
        8 => "8",
        9 => "9",
        10 => "a",
        11 => "b",
        12 => "c",
        13 => "d",
        14 => "e",
        _ => "f",
    }
}

/// Hex of a short (8-byte) trace hop for display.
pub fn hex8(b: &[u8; 8]) -> (text: String)
    ensures
        text@ == hex_text(b@),
{
    let mut text: String = String::new();
    for i in 0..8usize
        invariant
            text@ =~= hex_text(b@).take(2 * i),
    {
        text.append(hex_digit(b[i] / 16));
        text.append(hex_digit(b[i] % 16));
        assert(hex_text(b@)[2 * i] == hex_char(b@[i as int] as int / 16));
        assert(hex_text(b@)[2 * i + 1] == hex_char(b@[i as int] as int % 16));
    }
    text
}

/// Whether two short forms are the same.
fn same8(a: &[u8; 8], b: &[u8; 8]) -> (same: bool)
    ensures
        same == (a@ == b@),
{
    for i in 0..8usize
        invariant
            forall|j: int| 0 <= j < i ==> a@[j] == b@[j],
    {
        if a[i] != b[i] {
            return false;
        }
    }
    assert(a@ =~= b@);
    true
}

/// What `label_app` says of `app`, where `relay` and `fabric` are the short forms of the two app
/// ids that have a name.
pub open spec fn app_label(app: Seq<u8>, relay: Seq<u8>, fabric: Seq<u8>) -> Seq<char> {
    if app == relay {
        "Hop Relay"@
    } else if app == fabric {
        "device"@
    } else {
        hex_text(app)
    }
}

/// Human label for a trace hop's carrying app. Only public infra nodes self-identify
/// ("Hop Relay"); end-user devices stamp the generic fabric app, so a trace never advertises which
/// app a device runs.
pub fn label_app(app: &[u8; 8], relay: &[u8; 8], fabric: &[u8; 8]) -> (label: String)
    ensures
        label@ == app_label(app@, relay@, fabric@),
{
    if same8(app, relay) {
        "Hop Relay".to_string()
    } else if same8(app, fabric) {
        "device".to_string()
    } else {
        hex8(app)
    }
}

/// The low 32 bits of a count.
pub fn count32(n: usize) -> (count: u32)
    ensures
        count == n as int % 0x1_0000_0000,
{
    (n as u64 % 0x1_0000_0000) as u32
}

/// Hexadecimal tells any two byte sequences apart.
pub proof fn law_hex_tells_bytes_apart(a: Seq<u8>, b: Seq<u8>)
    requires
        hex_text(a) == hex_text(b),
    ensures
        a == b,
{
    assert(hex_text(a).len() == 2 * a.len() && hex_text(b).len() == 2 * b.len());
    assert forall|i: int| 0 <= i < a.len() implies a[i] == b[i] by {
        assert(hex_text(a)[2 * i] == hex_char(a[i] as int / 16));
        assert(hex_text(b)[2 * i] == hex_char(b[i] as int / 16));
        assert(hex_text(a)[2 * i + 1] == hex_char(a[i] as int % 16));
        assert(hex_text(b)[2 * i + 1] == hex_char(b[i] as int % 16));
        lemma_hex_char_injective(a[i] as int / 16, b[i] as int / 16);
        lemma_hex_char_injective(a[i] as int % 16, b[i] as int % 16);
    }
    assert(a =~= b);
}

proof fn lemma_hex_char_injective(m: int, n: int)
    requires
        0 <= m < 16,
        0 <= n < 16,
        hex_char(m) == hex_char(n),
    ensures
        m == n,
{
}

/// An app without a name is labelled by 16 hexadecimal digits, never by one of the two names.
pub proof fn law_unnamed_apps_are_labelled_in_hex(app: Seq<u8>, relay: Seq<u8>, fabric: Seq<u8>)
    requires
        app.len() == 8,
        app != relay,
        app != fabric,
    ensures
        app_label(app, relay, fabric) == hex_text(app),
        app_label(app, relay, fabric).len() == 16,
        app_label(app, relay, fabric) != "Hop Relay"@,
        app_label(app, relay, fabric) != "device"@,
{
    reveal_strlit("Hop Relay");
    reveal_strlit("device");
}

} // verus!
