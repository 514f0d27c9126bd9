//! Lower-case hexadecimal text for byte sequences, through the `hex` crate.
use vstd::prelude::*;

verus! {

/// The lower-case digit of a value below sixteen.
pub open spec fn lower_digit(n: int) -> char {
    seq!['0', '1', '2', '3', '4', '5', '6', '7', '8', '9', 'a', 'b', 'c', 'd', 'e', 'f'][n]
}

/// Two lower-case digits per byte, high nibble first.
pub open spec fn hex_of(b: Seq<u8>) -> Seq<char> {
    Seq::new(
        2 * b.len(),
        |j: int|
            if j % 2 == 0 {
                lower_digit(b[j / 2] as int / 16)
            } else {
                lower_digit(b[j / 2] as int % 16)
            },
    )
}

pub open spec fn is_hex_digit(c: char) -> bool {
    ('0' <= c && c <= '9') || ('a' <= c && c <= 'f') || ('A' <= c && c <= 'F')
}

pub open spec fn digit_value(c: char) -> int {
    if '0' <= c && c <= '9' {
        c as int - '0' as int
    } else if 'a' <= c && c <= 'f' {
        c as int - 'a' as int + 10
    } else {
        c as int - 'A' as int + 10
    }
}

/// Text that decodes: an even number of digits of either case.
pub open spec fn is_hex_text(s: Seq<char>) -> bool {
    s.len() % 2 == 0 && forall|i: int| 0 <= i < s.len() ==> is_hex_digit(#[trigger] s[i])
}

/// The bytes that hexadecimal text stands for.
pub open spec fn bytes_of_hex(s: Seq<char>) -> Seq<u8> {
    Seq::new(
        s.len() / 2,
        |i: int| (digit_value(s[2 * i]) * 16 + digit_value(s[2 * i + 1])) as u8,
    )
}

/// Relies on hex::encode: two lower-case digits for each byte, high nibble first.
#[verifier::external_body]
pub(crate) fn encode_hex(b: &[u8]) -> (r: String)
    ensures
        r@ == hex_of(b@),
{
    hex::encode(b)
}

/// Relies on hex::decode: fails on odd length or a non-digit, else each pair of
/// digits (either case) gives one byte.
#[verifier::external_body]
pub(crate) fn decode_hex(s: &str) -> (r: Option<Vec<u8>>)
    ensures
        r.is_some() <==> is_hex_text(s@),
        r matches Some(v) ==> v@ == bytes_of_hex(s@),
{
    hex::decode(s).ok()
}

proof fn lemma_digit_round_trip(n: int)
    requires
        0 <= n < 16,
    ensures
        is_hex_digit(lower_digit(n)),
        digit_value(lower_digit(n)) == n,
{
}

/// Decoding the text of a byte sequence gives that sequence back.
pub proof fn lemma_hex_round_trip(b: Seq<u8>)
    ensures
        is_hex_text(hex_of(b)),
        bytes_of_hex(hex_of(b)) == b,
{
    let h = hex_of(b);
    assert forall|i: int| 0 <= i < h.len() implies is_hex_digit(#[trigger] h[i]) by {
        if i % 2 == 0 {
            lemma_digit_round_trip(b[i / 2] as int / 16);
        } else {
            lemma_digit_round_trip(b[i / 2] as int % 16);
        }
    }
    assert forall|i: int| 0 <= i < b.len() implies #[trigger] bytes_of_hex(h)[i] == b[i] by {
        assert((2 * i) / 2 == i);
        assert((2 * i + 1) / 2 == i);
        assert((2 * i) % 2 == 0);
        assert((2 * i + 1) % 2 == 1);
        lemma_digit_round_trip(b[i] as int / 16);
        lemma_digit_round_trip(b[i] as int % 16);
    }
    assert(bytes_of_hex(h) =~= b);
}

/// Different byte sequences never share a text.
pub proof fn lemma_hex_injective(a: Seq<u8>, b: Seq<u8>)
    requires
        hex_of(a) == hex_of(b),
    ensures
        a == b,
{
    lemma_hex_round_trip(a);
    lemma_hex_round_trip(b);
}

} // verus!
