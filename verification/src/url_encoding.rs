//! Percent-encoding of query values (`urlencoding`).
use vstd::prelude::*;
use vstd::utf8::{encode_utf8, is_ascii_chars, is_ascii_chars_encode_utf8};

verus! {

/// Bytes that `urlencoding::encode` keeps: ASCII letters and digits, `-`, `.`, `_`, `~`.
pub open spec fn is_unreserved_byte(b: u8) -> bool {
    (48 <= b && b <= 57) || (65 <= b && b <= 90) || (97 <= b && b <= 122) || b == 45 || b == 46
        || b == 95 || b == 126
}

/// An uppercase hexadecimal digit.
pub open spec fn hex_digit(d: u8) -> char {
    if d < 10 {
        ((d as int) + 48) as char
    } else {
        ((d as int) + 55) as char
    }
}

/// One byte, percent-encoded: kept when unreserved, else `%` and two uppercase hex
/// digits.
pub open spec fn percent_encode_byte(b: u8) -> Seq<char> {
    if is_unreserved_byte(b) {
        seq![b as char]
    } else {
        seq!['%', hex_digit(b / 16), hex_digit(b % 16)]
    }
}

/// Bytes, percent-encoded one by one.
pub open spec fn percent_encode_bytes(bs: Seq<u8>) -> Seq<char>
    decreases bs.len(),
{
    if bs.len() == 0 {
        Seq::empty()
    } else {
        percent_encode_bytes(bs.drop_last()) + percent_encode_byte(bs.last())
    }
}

/// What `urlencoding::encode` gives for a string: its UTF-8 bytes, percent-encoded.
pub open spec fn url_encoded(s: Seq<char>) -> Seq<char> {
    percent_encode_bytes(encode_utf8(s))
}

/// `urlencoding::encode`: percent-encodes every byte of the string's UTF-8 encoding
/// except ASCII letters, digits, `-`, `.`, `_` and `~`, with uppercase hex digits.
/// The contract states exactly that.
#[verifier::external_body]
pub(crate) fn url_encode(s: &str) -> (r: String)
    ensures
        r@ == url_encoded(s@),
{
    urlencoding::encode(s).into_owned()
}

/// Characters that percent-encoding keeps.
pub open spec fn is_unreserved_char(c: char) -> bool {
    ('0' <= c && c <= '9') || ('A' <= c && c <= 'Z') || ('a' <= c && c <= 'z') || c == '-' || c
        == '.' || c == '_' || c == '~'
}

proof fn lemma_unreserved_bytes_kept(bs: Seq<u8>)
    requires
        forall|i: int| 0 <= i < bs.len() ==> is_unreserved_byte(#[trigger] bs[i]),
    ensures
        percent_encode_bytes(bs) == bs.map_values(|b: u8| b as char),
    decreases bs.len(),
{
    if bs.len() > 0 {
        lemma_unreserved_bytes_kept(bs.drop_last());
        assert(bs.map_values(|b: u8| b as char) =~= bs.drop_last().map_values(|b: u8| b as char)
            + seq![bs.last() as char]);
    }
}

/// Percent-encoding keeps a text made of unreserved characters unchanged.
pub proof fn law_url_encoded_unreserved(s: Seq<char>)
    requires
        forall|i: int| 0 <= i < s.len() ==> is_unreserved_char(#[trigger] s[i]),
    ensures
        url_encoded(s) == s,
{
    assert(is_ascii_chars(s));
    is_ascii_chars_encode_utf8(s);
    let bs = encode_utf8(s);
    assert forall|i: int| 0 <= i < bs.len() implies is_unreserved_byte(#[trigger] bs[i]) by {
        assert(s[i] as u8 == bs[i]);
        assert(is_unreserved_char(s[i]));
    }
    lemma_unreserved_bytes_kept(bs);
    let m = bs.map_values(|b: u8| b as char);
    assert forall|i: int| 0 <= i < s.len() implies #[trigger] m[i] == s[i] by {
        assert(s[i] as u8 == bs[i]);
        assert(is_unreserved_char(s[i]));
    }
    assert(m =~= s);
}

} // verus!
