//! Positive decimal numbers, kept as the text they were published in.

use vstd::prelude::*;
use vstd::string::*;
use vstd::utf8::is_ascii_chars;

verus! {

/// An ASCII decimal digit.
pub open spec fn is_digit(c: char) -> bool {
    '0' <= c && c <= '9'
}

/// An ASCII decimal digit other than `0`.
pub open spec fn is_nonzero_digit(c: char) -> bool {
    '1' <= c && c <= '9'
}

/// Every character from position `start` up to, but not including, position
/// `end` is a digit.
pub open spec fn digits_between(s: Seq<char>, start: int, end: int) -> bool {
    forall|i: int| start <= i < end ==> is_digit(#[trigger] s[i])
}

/// `s` reads as a decimal with `k` whole digits: at least one digit, then
/// either nothing or a point followed by any number of digits.
pub open spec fn is_decimal_with_whole(s: Seq<char>, k: int) -> bool {
    &&& 1 <= k <= s.len()
    &&& digits_between(s, 0, k)
    &&& (k == s.len() || (s[k] == '.' && digits_between(s, k + 1, s.len() as int)))
}

/// The texts of decimal shape: `58`, `58.`, `58.5`, `58.50`, `0.0`.
/// No sign, no exponent, no leading point, ASCII digits only.
pub open spec fn is_decimal_text(s: Seq<char>) -> bool {
    exists|k: int| is_decimal_with_whole(s, k)
}

/// Whether some character of `s` is a digit other than `0`.
pub open spec fn has_nonzero_digit(s: Seq<char>) -> bool {
    exists|i: int| 0 <= i < s.len() && is_nonzero_digit(#[trigger] s[i])
}

/// The texts that are accepted as a rate value: of decimal shape, and
/// greater than zero.
pub open spec fn is_positive_decimal(s: Seq<char>) -> bool {
    is_decimal_text(s) && has_nonzero_digit(s)
}

/// A positive decimal number, kept digit for digit.
pub struct Decimal {
    text: String,
}

impl View for Decimal {
    type V = Seq<char>;

    closed spec fn view(&self) -> Seq<char> {
        self.text@
    }
}

impl Decimal {
    #[verifier::type_invariant]
    spec fn well_formed(&self) -> bool {
        is_positive_decimal(self.text@)
    }

    /// Reads a decimal from text. Succeeds exactly on the positive decimals,
    /// and the value keeps every character of the input.
    pub fn parse(text: &str) -> (r: Option<Decimal>)
        ensures
            r is Some <==> is_positive_decimal(text@),
            r matches Some(d) ==> d@ == text@,
    {
        if !text.is_ascii() {
            proof {
                lemma_decimal_text_is_ascii(text@);
            }
            return None;
        }
        let bytes = text.as_bytes();
        proof {
            is_ascii_spec_bytes(text);
        }
        let n = bytes.len();
        let mut k: usize = 0;
        while k < n && is_digit_byte(bytes[k])
            invariant
                n == text@.len(),
                n == bytes@.len(),
                k <= n,
                is_ascii_chars(text@),
                forall|i: int| 0 <= i < n ==> bytes@[i] == text@[i] as u8,
                digits_between(text@, 0, k as int),
            decreases n - k,
        {
            k = k + 1;
        }
        if k == 0 {
            assert(!is_decimal_text(text@));
            return None;
        }
        if k < n {
            if bytes[k] != 46u8 {
                assert forall|w: int| !is_decimal_with_whole(text@, w) by {
                    if is_decimal_with_whole(text@, w) {
                        if w < k {
                            assert(is_digit(text@[w]));
                        } else if w > k {
                            assert(is_digit(text@[k as int]));
                        }
                    }
                }
                return None;
            }
            let mut j: usize = k + 1;
            while j < n
                invariant
                    n == text@.len(),
                    n == bytes@.len(),
                    k < j <= n,
                    is_ascii_chars(text@),
                    forall|i: int| 0 <= i < n ==> bytes@[i] == text@[i] as u8,
                    text@[k as int] == '.',
                    digits_between(text@, 0, k as int),
                    digits_between(text@, k as int + 1, j as int),
                decreases n - j,
            {
                if !is_digit_byte(bytes[j]) {
                    assert forall|w: int| !is_decimal_with_whole(text@, w) by {
                        if is_decimal_with_whole(text@, w) {
                            if w < k {
                                assert(is_digit(text@[w]));
                            } else if w > k {
                                assert(is_digit(text@[k as int]));
                            } else {
                                assert(is_digit(text@[j as int]));
                            }
                        }
                    }
                    return None;
                }
                j = j + 1;
            }
        }
        assert(is_decimal_with_whole(text@, k as int));
        let mut i: usize = 0;
        while i < n
            invariant
                n == text@.len(),
                n == bytes@.len(),
                i <= n,
                is_decimal_text(text@),
                forall|p: int| 0 <= p < n ==> bytes@[p] == text@[p] as u8,
                forall|p: int| 0 <= p < i ==> !is_nonzero_digit(#[trigger] text@[p]),
            decreases n - i,
        {
            if 49u8 <= bytes[i] && bytes[i] <= 57u8 {
                assert(is_nonzero_digit(text@[i as int]));
                return Some(Decimal { text: text.to_owned() });
            }
            i = i + 1;
        }
        None
    }

    /// The text of the number, as it was read.
    pub fn as_str(&self) -> (s: &str)
        ensures
            s@ == self@,
            is_positive_decimal(s@),
    {
        proof {
            use_type_invariant(self);
        }
        self.text.as_str()
    }
}

impl Clone for Decimal {
    fn clone(&self) -> (r: Self)
        ensures
            r@ == self@,
    {
        proof {
            use_type_invariant(self);
        }
        Decimal { text: self.text.clone() }
    }
}

/// Whether `b` is the code of one of `0` to `9`.
fn is_digit_byte(b: u8) -> (r: bool)
    ensures
        r == (48 <= b <= 57),
{
    48u8 <= b && b <= 57u8
}

/// A text of decimal shape holds ASCII characters only.
pub proof fn lemma_decimal_text_is_ascii(s: Seq<char>)
    ensures
        is_decimal_text(s) ==> is_ascii_chars(s),
{
    if is_decimal_text(s) {
        let k = choose|k: int| is_decimal_with_whole(s, k);
        assert forall|i: int| 0 <= i < s.len() implies '\0' <= #[trigger] s[i] <= '\u{7f}' by {
            if i < k {
                assert(is_digit(s[i]));
            } else if i > k {
                assert(is_digit(s[i]));
            }
        }
    }
}

} // verus!
