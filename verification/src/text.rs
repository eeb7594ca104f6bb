//! Text that the library writes: decimal numbers and JSON string literals.

use vstd::prelude::*;
use vstd::string::StringExecFns;
use vstd::utf8::{encode_utf8, is_ascii_chars, is_ascii_chars_encode_utf8};

verus! {

/// The ten decimal digits, in order.
pub open spec fn decimal_digits() -> Seq<char> {
    seq!['0', '1', '2', '3', '4', '5', '6', '7', '8', '9']
}

/// `n` in decimal, without sign or leading zeros (`0` is "0").
pub open spec fn decimal_text(n: nat) -> Seq<char>
    decreases n,
{
    if n < 10 {
        seq![decimal_digits()[n as int]]
    } else {
        decimal_text(n / 10).push(decimal_digits()[(n % 10) as int])
    }
}

/// Decimal text has at least one character, and only the text of zero starts
/// with the digit zero.
pub proof fn lemma_decimal_text_shape(n: nat)
    ensures
        decimal_text(n).len() >= 1,
        forall|i: int|
            0 <= i < decimal_text(n).len() ==> decimal_digits().contains(
                #[trigger] decimal_text(n)[i],
            ),
        decimal_text(n)[0] == '0' <==> n == 0,
    decreases n,
{
    if n >= 10 {
        lemma_decimal_text_shape(n / 10);
    }
}

/// Ten to the power of `k`.
pub open spec fn power_of_ten(k: nat) -> nat
    decreases k,
{
    if k == 0 {
        1
    } else {
        10 * power_of_ten((k - 1) as nat)
    }
}

/// A number below ten to the power of `k` has at most `k` decimal digits.
pub proof fn lemma_decimal_text_len(n: nat, k: nat)
    requires
        k >= 1,
        n < power_of_ten(k),
    ensures
        decimal_text(n).len() <= k,
    decreases k,
{
    if n >= 10 {
        assert(power_of_ten(1) == 10) by {
            reveal_with_fuel(power_of_ten, 2);
        }
        lemma_decimal_text_len(n / 10, (k - 1) as nat);
    }
}

/// The longest decimal text of a 64-bit number has this many digits.
pub const MAX_DECIMAL_LEN: usize = 20;

/// The decimal text of a 64-bit number is made of at most `MAX_DECIMAL_LEN`
/// digits, each of which takes one byte.
pub proof fn lemma_decimal_text_bytes(n: u64)
    ensures
        encode_utf8(decimal_text(n as nat)).len() == decimal_text(n as nat).len(),
        decimal_text(n as nat).len() <= MAX_DECIMAL_LEN,
{
    let text = decimal_text(n as nat);
    lemma_decimal_text_shape(n as nat);
    assert(is_ascii_chars(text));
    is_ascii_chars_encode_utf8(text);
    assert(power_of_ten(20) == 100_000_000_000_000_000_000) by {
        reveal_with_fuel(power_of_ten, 21);
    }
    lemma_decimal_text_len(n as nat, 20);
}

fn digit_text(d: u64) -> (text: &'static str)
    requires
        d < 10,
    ensures
        text@ == seq![decimal_digits()[d as int]],
{
    proof {
        reveal_strlit("0");
        reveal_strlit("1");
        reveal_strlit("2");
        reveal_strlit("3");
        reveal_strlit("4");
        reveal_strlit("5");
        reveal_strlit("6");
        reveal_strlit("7");
        reveal_strlit("8");
        reveal_strlit("9");
    }
    let text = if d == 0 {
        "0"
    } else if d == 1 {
        "1"
    } else if d == 2 {
        "2"
    } else if d == 3 {
        "3"
    } else if d == 4 {
        "4"
    } else if d == 5 {
        "5"
    } else if d == 6 {
        "6"
    } else if d == 7 {
        "7"
    } else if d == 8 {
        "8"
    } else {
        "9"
    };
    text
}

/// Writes `n` in decimal.
pub fn decimal_string(n: u64) -> (text: String)
    ensures
        text@ == decimal_text(n as nat),
        encode_utf8(text@).len() <= MAX_DECIMAL_LEN,
    decreases n,
{
    proof {
        lemma_decimal_text_bytes(n);
    }
    if n < 10 {
        digit_text(n).to_owned()
    } else {
        let mut text = decimal_string(n / 10);
        text.append(digit_text(n % 10));
        text
    }
}

/// `first` followed by `second`.
pub fn join(first: &str, second: &str) -> (text: String)
    ensures
        text@ == first@ + second@,
{
    let mut text = first.to_owned();
    text.append(second);
    text
}

/// The JSON string literal that stands for `s`: opening quote, the characters
/// of `s` with those escaped that JSON does not take raw, closing quote.
pub uninterp spec fn json_string_literal(s: Seq<char>) -> Seq<char>;

/// Whether text of `len` bytes is short enough for its JSON string literal
/// to be written: the literal takes up to six bytes for each byte of the
/// text and two for the quotes, and the buffer that it grows in may be
/// asked for twice that, which must stay within `isize::MAX`.
pub open spec fn quotable_len(len: nat) -> bool {
    12 * len + 4 <= isize::MAX
}

/// Whether `s` is short enough for its JSON string literal to be written.
pub fn is_quotable(s: &str) -> (fits: bool)
    ensures
        fits == quotable_len(encode_utf8(s@).len()),
{
    s.as_bytes().len() <= (isize::MAX as usize - 4) / 12
}

/// Calls `serde_json::to_string` on a string slice, which writes the
/// literal into a growing buffer and panics where that buffer would pass
/// the largest allocation; text that is `quotable_len` stays below. The
/// contract claims that the call succeeds, as serialising a `str` into
/// memory has no failing path, and that the text is the JSON literal of
/// `s`, a function of `s` alone.
#[verifier::external_body]
fn json_quote(s: &str) -> (quoted: Option<String>)
    requires
        quotable_len(encode_utf8(s@).len()),
    ensures
        quoted is Some,
        (quoted->0)@ == json_string_literal(s@),
{
    serde_json::to_string(s).ok()
}

/// The JSON string literal of `s`.
pub fn json_string(s: &str) -> (quoted: String)
    requires
        quotable_len(encode_utf8(s@).len()),
    ensures
        quoted@ == json_string_literal(s@),
{
    match json_quote(s) {
        Some(q) => q,
        None => String::new(),
    }
}

} // verus!
