//! Hexadecimal text, the written form of a document identifier.

use vstd::prelude::*;

verus! {

/// The sixteen lower-case digits, in order of value.
pub open spec fn lower_digits() -> Seq<char> {
    seq!['0', '1', '2', '3', '4', '5', '6', '7', '8', '9', 'a', 'b', 'c', 'd', 'e', 'f']
}

/// The lower-case digit that stands for `n`, for `0 <= n < 16`.
pub open spec fn digit_of(n: int) -> char {
    lower_digits()[n]
}

/// The value of a hexadecimal digit of either case, `None` for any other
/// character.
pub open spec fn value_of(c: char) -> Option<int> {
    if '0' <= c && c <= '9' {
        Some(c as int - '0' as int)
    } else if 'a' <= c && c <= 'f' {
        Some(c as int - 'a' as int + 10)
    } else if 'A' <= c && c <= 'F' {
        Some(c as int - 'A' as int + 10)
    } else {
        None
    }
}

/// Two lower-case digits per byte, the high half first.
pub open spec fn encode(bytes: Seq<u8>) -> Seq<char> {
    Seq::new(
        2 * bytes.len(),
        |i: int|
            if i % 2 == 0 {
                digit_of(bytes[i / 2] as int / 16)
            } else {
                digit_of(bytes[i / 2] as int % 16)
            },
    )
}

/// Whether every character of `text` is a hexadecimal digit.
pub open spec fn all_digits(text: Seq<char>) -> bool {
    forall|i: int| 0 <= i < text.len() ==> (#[trigger] value_of(text[i])) is Some
}

/// The bytes that an even number of hexadecimal digits spell, `None` for a
/// text of odd length or with any other character in it.
pub open spec fn decode(text: Seq<char>) -> Option<Seq<u8>> {
    if text.len() % 2 == 0 && all_digits(text) {
        Some(
            Seq::new(
                text.len() / 2,
                |k: int| (16 * value_of(text[2 * k])->0 + value_of(text[2 * k + 1])->0) as u8,
            ),
        )
    } else {
        None
    }
}

/// A digit written by `digit_of` is read back by `value_of`.
pub proof fn lemma_digit_value(n: int)
    requires
        0 <= n < 16,
    ensures
        value_of(digit_of(n)) == Some(n),
{
}

/// Decoding undoes encoding.
pub proof fn lemma_decode_encode(bytes: Seq<u8>)
    ensures
        decode(encode(bytes)) == Some(bytes),
{
    let text = encode(bytes);
    assert forall|i: int| 0 <= i < text.len() implies (#[trigger] value_of(text[i])) is Some by {
        let b = bytes[i / 2] as int;
        lemma_digit_value(b / 16);
        lemma_digit_value(b % 16);
    }
    let back = decode(text)->0;
    assert forall|k: int| 0 <= k < bytes.len() implies back[k] == bytes[k] by {
        let b = bytes[k] as int;
        lemma_digit_value(b / 16);
        lemma_digit_value(b % 16);
        assert(text[2 * k] == digit_of(b / 16));
        assert(text[2 * k + 1] == digit_of(b % 16));
    }
    assert(back =~= bytes);
}

} // verus!
