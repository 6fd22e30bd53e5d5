//! Text: case folding, blank text, and the UTF-8 bytes behind a C string.
use vstd::prelude::*;
use vstd::utf8::{decode_utf8, encode_scalar, encode_utf8, valid_utf8};

verus! {

/// `c` as a number, an ASCII capital counted as its small letter.
pub open spec fn folded(c: char) -> int {
    if 'A' <= c <= 'Z' {
        c as int + 32
    } else {
        c as int
    }
}

/// `a` and `b` are the same text once ASCII capitals are made small.
pub open spec fn same_ignoring_case(a: Seq<char>, b: Seq<char>) -> bool {
    &&& a.len() == b.len()
    &&& forall|i: int| 0 <= i < a.len() ==> folded(#[trigger] a[i]) == folded(b[i])
}

/// `c` has the Unicode property `White_Space`.
pub open spec fn is_white_space(c: char) -> bool {
    let n = c as int;
    ||| 0x9 <= n <= 0xd
    ||| n == 0x20
    ||| n == 0x85
    ||| n == 0xa0
    ||| n == 0x1680
    ||| 0x2000 <= n <= 0x200a
    ||| n == 0x2028
    ||| n == 0x2029
    ||| n == 0x202f
    ||| n == 0x205f
    ||| n == 0x3000
}

/// Nothing is left of `text` once the white space around it is taken off.
pub open spec fn is_blank_text(text: Seq<char>) -> bool {
    forall|i: int| 0 <= i < text.len() ==> is_white_space(#[trigger] text[i])
}

/// The characters of `text`, in order.
fn chars_of(text: &str) -> (chars: Vec<char>)
    ensures
        chars@ == text@,
{
    let mut chars: Vec<char> = Vec::new();
    for c in it: text.chars()
        invariant
            it.seq() == text@,
            chars@ == text@.take(it.index() as int),
    {
        chars.push(c);
    }
    chars
}

fn fold(c: char) -> (n: u32)
    ensures
        n == folded(c),
{
    let n: u32 = c as u32;
    if 65 <= n && n <= 90 {
        n + 32
    } else {
        n
    }
}

/// Whether `a` and `b` are the same text up to ASCII case.
pub fn eq_ignore_ascii_case(a: &str, b: &str) -> (same: bool)
    ensures
        same == same_ignoring_case(a@, b@),
{
    let x: Vec<char> = chars_of(a);
    let y: Vec<char> = chars_of(b);
    if x.len() != y.len() {
        return false;
    }
    for i in 0..x.len()
        invariant
            x@ == a@,
            y@ == b@,
            a@.len() == b@.len(),
            forall|j: int| 0 <= j < i ==> folded(#[trigger] a@[j]) == folded(b@[j]),
    {
        if fold(x[i]) != fold(y[i]) {
            assert(folded(a@[i as int]) != folded(b@[i as int]));
            return false;
        }
    }
    true
}

fn white_space(c: char) -> (yes: bool)
    ensures
        yes == is_white_space(c),
{
    let n: u32 = c as u32;
    (0x9 <= n && n <= 0xd) || n == 0x20 || n == 0x85 || n == 0xa0 || n == 0x1680 || (0x2000 <= n
        && n <= 0x200a) || n == 0x2028 || n == 0x2029 || n == 0x202f || n == 0x205f || n == 0x3000
}

/// Whether `text` is empty or made of white space only.
pub fn is_blank(text: &str) -> (blank: bool)
    ensures
        blank == is_blank_text(text@),
{
    for c in it: text.chars()
        invariant
            it.seq() == text@,
            forall|j: int| 0 <= j < it.index() ==> is_white_space(#[trigger] text@[j]),
    {
        if !white_space(c) {
            assert(!is_white_space(text@[it.index() as int]));
            return false;
        }
    }
    true
}

/// Calls `String::from_utf8`: bytes that are valid UTF-8 become the text they encode, and any
/// others are refused.
#[verifier::external_body]
fn std_from_utf8(bytes: Vec<u8>) -> (text: Option<String>)
    ensures
        text is Some <==> valid_utf8(bytes@),
        text matches Some(t) ==> encode_utf8(t@) == bytes@,
{
    String::from_utf8(bytes).ok()
}

/// The text that `bytes` encodes, if they are UTF-8.
pub fn utf8_text(bytes: Vec<u8>) -> (text: Option<String>)
    ensures
        text is Some <==> valid_utf8(bytes@),
        text matches Some(t) ==> t@ == decode_utf8(bytes@),
{
    let text = std_from_utf8(bytes);
    proof {
        if text is Some {
            vstd::utf8::encode_utf8_decode_utf8(text->0@);
        }
    }
    text
}

/// `bytes` without its zero bytes, the others in order.
pub open spec fn without_nuls(bytes: Seq<u8>) -> Seq<u8> {
    bytes.filter(|b: u8| b != 0)
}

/// `text` without its NUL characters, the others in order.
pub open spec fn without_nul_chars(text: Seq<char>) -> Seq<char> {
    text.filter(|c: char| c != '\0')
}

/// The UTF-8 bytes of `text` without the zero bytes among them.
pub fn bytes_without_nuls(text: &str) -> (bytes: Vec<u8>)
    ensures
        bytes@ == without_nuls(encode_utf8(text@)),
{
    let all: &[u8] = text.as_bytes();
    let ghost keep = |b: u8| b != 0;
    let mut bytes: Vec<u8> = Vec::new();
    assert(bytes@ == all@.take(0).filter(keep)) by {
        reveal(Seq::filter);
    }
    for i in 0..all.len()
        invariant
            keep == (|b: u8| b != 0),
            bytes@ == all@.take(i as int).filter(keep),
    {
        if all[i] != 0 {
            bytes.push(all[i]);
        }
        assert(bytes@ == all@.take(i + 1).filter(keep)) by {
            reveal(Seq::filter);
            assert(all@.take(i + 1).drop_last() =~= all@.take(i as int));
        }
    }
    assert(all@.take(all@.len() as int) =~= all@);
    bytes
}

/// A filter that every entry passes changes nothing.
proof fn lemma_filter_all<A>(s: Seq<A>, keep: spec_fn(A) -> bool)
    requires
        forall|i: int| 0 <= i < s.len() ==> keep(#[trigger] s[i]),
    ensures
        s.filter(keep) == s,
    decreases s.len(),
{
    reveal(Seq::filter);
    if s.len() > 0 {
        lemma_filter_all(s.drop_last(), keep);
        assert(keep(s[s.len() - 1]));
        assert(s =~= s.drop_last().push(s.last()));
    }
}

/// The UTF-8 form of a character other than NUL holds no zero byte.
proof fn lemma_scalar_bytes_nonzero(c: char)
    requires
        c != '\0',
    ensures
        forall|i: int|
            0 <= i < encode_scalar(c as u32).len() ==> #[trigger] encode_scalar(c as u32)[i] != 0,
{
    let n = c as u32;
    assert(n != 0);
    if n <= 0x7f {
        assert((n & 0x7f) as u8 != 0) by (bit_vector)
            requires
                n != 0,
                n <= 0x7f,
        ;
    }
    assert(0xc0u8 | (((n >> 6) & 0x1f) as u8) != 0) by (bit_vector);
    assert(0xe0u8 | (((n >> 12) & 0x0f) as u8) != 0) by (bit_vector);
    assert(0xf0u8 | (((n >> 18) & 0x7) as u8) != 0) by (bit_vector);
    assert(0x80u8 | ((n & 0x3f) as u8) != 0) by (bit_vector);
    assert(0x80u8 | (((n >> 6) & 0x3f) as u8) != 0) by (bit_vector);
    assert(0x80u8 | (((n >> 12) & 0x3f) as u8) != 0) by (bit_vector);
}

/// Taking the zero bytes out of a text's UTF-8 form is taking the NUL characters out of the text:
/// what is left is UTF-8 again, and every other character survives in order.
pub proof fn law_stripping_nuls_keeps_the_rest(text: Seq<char>)
    ensures
        without_nuls(encode_utf8(text)) == encode_utf8(without_nul_chars(text)),
    decreases text.len(),
{
    let keep_byte = |b: u8| b != 0;
    let keep_char = |c: char| c != '\0';
    reveal_with_fuel(Seq::filter, 2);
    if text.len() > 0 {
        let (head, tail) = (text[0], text.drop_first());
        law_stripping_nuls_keeps_the_rest(tail);
        let first = encode_scalar(head as u32);
        Seq::filter_distributes_over_add(first, encode_utf8(tail), keep_byte);
        Seq::filter_distributes_over_add(seq![head], tail, keep_char);
        assert(text =~= seq![head] + tail);
        assert(seq![head].drop_last() =~= Seq::<char>::empty());
        if head == '\0' {
            assert(0u32 & 0x7f == 0) by (bit_vector);
            assert(first =~= seq![0u8]);
            assert(first.drop_last() =~= Seq::<u8>::empty());
            assert(first.filter(keep_byte) =~= Seq::<u8>::empty());
            assert(seq![head].filter(keep_char) =~= Seq::<char>::empty());
        } else {
            lemma_scalar_bytes_nonzero(head);
            lemma_filter_all(first, keep_byte);
            assert(seq![head].filter(keep_char) =~= seq![head]);
            let rest = without_nul_chars(tail);
            let whole = seq![head] + rest;
            assert(whole.drop_first() =~= rest);
            assert(without_nul_chars(text) == whole);
        }
        assert(without_nul_chars(text) =~= seq![head].filter(keep_char) + tail.filter(keep_char));
    } else {
        assert(without_nul_chars(text) =~= text);
        assert(without_nuls(encode_utf8(text)) =~= encode_utf8(text));
    }
}

/// Text without a NUL loses nothing: its bytes come through as they are.
pub proof fn law_stripping_nuls_is_lossless(text: Seq<char>)
    requires
        forall|i: int| 0 <= i < text.len() ==> #[trigger] text[i] != '\0',
    ensures
        without_nuls(encode_utf8(text)) == encode_utf8(text),
{
    law_stripping_nuls_keeps_the_rest(text);
    lemma_filter_all(text, |c: char| c != '\0');
}

/// No zero byte is left.
pub proof fn law_stripping_leaves_no_nul(bytes: Seq<u8>)
    ensures
        forall|i: int|
            0 <= i < without_nuls(bytes).len() ==> #[trigger] without_nuls(bytes)[i] != 0,
{
    broadcast use vstd::seq_lib::group_filter_ensures;

    assert forall|i: int| 0 <= i < without_nuls(bytes).len() implies
        #[trigger] without_nuls(bytes)[i] != 0 by {
        let keep = |b: u8| b != 0;
        assert(keep(bytes.filter(keep)[i]));
    }
}

/// Stripping takes out the NULs and nothing else: what stands before a NUL and what stands behind it
/// are stripped each on its own and joined, any other character stays where it is, and of nothing
/// nothing is left.
pub proof fn law_stripping_takes_out_nuls_alone(front: Seq<char>, c: char, back: Seq<char>)
    ensures
        without_nul_chars(Seq::empty()) == Seq::<char>::empty(),
        c == '\0' ==> without_nul_chars(front.push(c) + back) == without_nul_chars(front)
            + without_nul_chars(back),
        c != '\0' ==> without_nul_chars(front.push(c) + back) == without_nul_chars(front).push(c)
            + without_nul_chars(back),
{
    let keep = |c: char| c != '\0';
    assert(without_nul_chars(Seq::empty()) =~= Seq::<char>::empty()) by {
        reveal(Seq::filter);
    }
    Seq::filter_distributes_over_add(front.push(c), back, keep);
    assert(front.push(c).filter(keep) == (if c == '\0' {
        front.filter(keep)
    } else {
        front.filter(keep).push(c)
    })) by {
        reveal(Seq::filter);
        assert(front.push(c).drop_last() =~= front);
    }
}

/// The same of bytes.
pub proof fn law_stripping_takes_out_zero_bytes_alone(front: Seq<u8>, b: u8, back: Seq<u8>)
    ensures
        without_nuls(Seq::empty()) == Seq::<u8>::empty(),
        b == 0 ==> without_nuls(front.push(b) + back) == without_nuls(front) + without_nuls(back),
        b != 0 ==> without_nuls(front.push(b) + back) == without_nuls(front).push(b) + without_nuls(
            back,
        ),
{
    let keep = |b: u8| b != 0;
    assert(without_nuls(Seq::empty()) =~= Seq::<u8>::empty()) by {
        reveal(Seq::filter);
    }
    Seq::filter_distributes_over_add(front.push(b), back, keep);
    assert(front.push(b).filter(keep) == (if b == 0 {
        front.filter(keep)
    } else {
        front.filter(keep).push(b)
    })) by {
        reveal(Seq::filter);
        assert(front.push(b).drop_last() =~= front);
    }
}

/// Text is blank exactly if both its halves are; a space, a tab and a line end are blank, and no
/// character that leaves ink in ASCII is.
pub proof fn law_blank_text_has_no_ink(front: Seq<char>, back: Seq<char>, c: char)
    ensures
        is_blank_text(Seq::empty()),
        is_blank_text(front + back) <==> is_blank_text(front) && is_blank_text(back),
        c == ' ' || c == '\t' || c == '\n' || c == '\r' ==> is_blank_text(seq![c]),
        '!' <= c <= '~' ==> !is_blank_text(seq![c]),
{
    let whole = front + back;
    if is_blank_text(whole) {
        assert forall|i: int| 0 <= i < front.len() implies is_white_space(#[trigger] front[i]) by {
            assert(is_white_space(whole[i]));
        }
        assert forall|i: int| 0 <= i < back.len() implies is_white_space(#[trigger] back[i]) by {
            assert(is_white_space(whole[front.len() + i]));
        }
    }
    if '!' <= c <= '~' {
        assert(!is_white_space(seq![c][0]));
    }
}

} // verus!
