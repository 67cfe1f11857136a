//! Decimal notation, and natural numbers of any size held as their digits.
//!
//! Counts that are read out of a text have no upper bound, so sums of them
//! are formed digit by digit.

use vstd::prelude::*;
use vstd::string::StringExecFns;
use vstd::string::StringSliceAdditionalSpecFns;
use vstd::utf8::is_ascii_chars;
use vstd::utf8::is_ascii_chars_encode_utf8;

verus! {

/// Whether a character is one of `0` to `9`.
pub open spec fn is_digit(c: char) -> bool {
    '0' <= c && c <= '9'
}

/// Whether a text is a decimal numeral: one digit or more, and digits only.
pub open spec fn is_number(text: Seq<char>) -> bool {
    text.len() > 0 && forall|i: int| 0 <= i < text.len() ==> is_digit(#[trigger] text[i])
}

/// The number that a digit stands for.
pub open spec fn digit_value(c: char) -> nat {
    (c as nat - '0' as nat) as nat
}

/// The digit that stands for a number below ten.
pub open spec fn digit_char(d: nat) -> char {
    if d == 0 {
        '0'
    } else if d == 1 {
        '1'
    } else if d == 2 {
        '2'
    } else if d == 3 {
        '3'
    } else if d == 4 {
        '4'
    } else if d == 5 {
        '5'
    } else if d == 6 {
        '6'
    } else if d == 7 {
        '7'
    } else if d == 8 {
        '8'
    } else {
        '9'
    }
}

/// The number that a decimal numeral denotes; leading zeros do not count.
pub open spec fn decimal_value(text: Seq<char>) -> nat
    decreases text.len(),
{
    if text.len() == 0 {
        0
    } else {
        decimal_value(text.drop_last()) * 10 + digit_value(text.last())
    }
}

/// The decimal notation of a number, without leading zeros.
pub open spec fn decimal_text(n: nat) -> Seq<char>
    decreases n,
{
    if n < 10 {
        seq![digit_char(n)]
    } else {
        decimal_text(n / 10).push(digit_char(n % 10))
    }
}

/// The decimal notation of a number is a numeral, and denotes that number.
pub proof fn decimal_text_denotes(n: nat)
    ensures
        is_number(decimal_text(n)),
        decimal_value(decimal_text(n)) == n,
    decreases n,
{
    let text = decimal_text(n);
    if n < 10 {
        assert(text.drop_last() =~= Seq::<char>::empty());
        assert(text.last() == digit_char(n));
        assert(decimal_value(text.drop_last()) == 0);
    } else {
        decimal_text_denotes(n / 10);
        assert(text.drop_last() =~= decimal_text(n / 10));
        assert(text.last() == digit_char(n % 10));
        assert forall|i: int| 0 <= i < text.len() implies is_digit(#[trigger] text[i]) by {
            if i < text.len() - 1 {
                assert(text[i] == decimal_text(n / 10)[i]);
            }
        }
    }
}

/// The value of a sequence of digits whose first digit counts least.
spec fn digits_value(digits: Seq<u8>) -> nat
    decreases digits.len(),
{
    if digits.len() == 0 {
        0
    } else {
        digits[0] as nat + 10 * digits_value(digits.drop_first())
    }
}

/// Whether every element is a digit, that is, below ten.
spec fn all_digits(digits: Seq<u8>) -> bool {
    forall|i: int| 0 <= i < digits.len() ==> #[trigger] digits[i] < 10
}

/// The digits of a numeral as numbers, in reverse: the last character first.
spec fn reversed_digits(text: Seq<char>) -> Seq<u8> {
    Seq::new(text.len(), |k: int| digit_value(text[text.len() - 1 - k]) as u8)
}

/// The characters of a sequence of digits, in reverse: the last digit first.
spec fn reversed_text(digits: Seq<u8>) -> Seq<char> {
    Seq::new(digits.len(), |k: int| digit_char(digits[digits.len() - 1 - k] as nat))
}

/// The digits of the sum of two digit sequences and a carry, as written by hand:
/// column by column from the least digit.
spec fn column_sum(a: Seq<u8>, b: Seq<u8>, carry: nat) -> Seq<u8>
    decreases a.len() + b.len(),
{
    if a.len() == 0 && b.len() == 0 {
        if carry == 0 {
            Seq::<u8>::empty()
        } else {
            seq![carry as u8]
        }
    } else {
        let x = if a.len() > 0 { a[0] as nat } else { 0 };
        let y = if b.len() > 0 { b[0] as nat } else { 0 };
        let rest_a = if a.len() > 0 { a.drop_first() } else { a };
        let rest_b = if b.len() > 0 { b.drop_first() } else { b };
        let column = x + y + carry;
        seq![(column % 10) as u8] + column_sum(rest_a, rest_b, column / 10)
    }
}

/// Adding column by column gives the digits of the sum.
proof fn lemma_column_sum(a: Seq<u8>, b: Seq<u8>, carry: nat)
    requires
        all_digits(a),
        all_digits(b),
        carry <= 1,
    ensures
        all_digits(column_sum(a, b, carry)),
        digits_value(column_sum(a, b, carry)) == digits_value(a) + digits_value(b) + carry,
        column_sum(a, b, carry).len() >= a.len(),
        column_sum(a, b, carry).len() >= b.len(),
    decreases a.len() + b.len(),
{
    if a.len() == 0 && b.len() == 0 {
        if carry != 0 {
            let one = seq![carry as u8];
            assert(one.drop_first() =~= Seq::<u8>::empty());
            assert(digits_value(one.drop_first()) == 0);
        }
    } else {
        let x = if a.len() > 0 { a[0] as nat } else { 0 };
        let y = if b.len() > 0 { b[0] as nat } else { 0 };
        let rest_a = if a.len() > 0 { a.drop_first() } else { a };
        let rest_b = if b.len() > 0 { b.drop_first() } else { b };
        let column = x + y + carry;
        assert(x < 10 && y < 10);
        lemma_column_sum(rest_a, rest_b, column / 10);
        let tail = column_sum(rest_a, rest_b, column / 10);
        let total = seq![(column % 10) as u8] + tail;
        assert(total.drop_first() =~= tail);
        assert(total[0] == (column % 10) as u8);
        assert(digits_value(a) == x + 10 * digits_value(rest_a));
        assert(digits_value(b) == y + 10 * digits_value(rest_b));
        assert forall|i: int| 0 <= i < total.len() implies #[trigger] total[i] < 10 by {
            if i > 0 {
                assert(total[i] == tail[i - 1]);
            }
        }
    }
}

/// Reading a numeral from its last character gives digits of the same value.
proof fn lemma_reversed_digits(text: Seq<char>)
    requires
        forall|i: int| 0 <= i < text.len() ==> is_digit(#[trigger] text[i]),
    ensures
        all_digits(reversed_digits(text)),
        digits_value(reversed_digits(text)) == decimal_value(text),
    decreases text.len(),
{
    let digits = reversed_digits(text);
    assert forall|i: int| 0 <= i < digits.len() implies #[trigger] digits[i] < 10 by {
        assert(is_digit(text[text.len() - 1 - i]));
    }
    if text.len() > 0 {
        let shorter = text.drop_last();
        assert forall|i: int| 0 <= i < shorter.len() implies is_digit(#[trigger] shorter[i]) by {
            assert(shorter[i] == text[i]);
        }
        lemma_reversed_digits(shorter);
        assert(is_digit(text.last()));
        assert(digits.drop_first() =~= reversed_digits(shorter));
        assert(digits[0] == digit_value(text.last()) as u8);
    }
}

/// A zero above the highest digit changes nothing.
proof fn lemma_drop_high_zero(digits: Seq<u8>)
    requires
        digits.len() > 0,
        digits.last() == 0,
    ensures
        digits_value(digits.drop_last()) == digits_value(digits),
    decreases digits.len(),
{
    if digits.len() == 1 {
        assert(digits.drop_first() =~= Seq::<u8>::empty());
        assert(digits.drop_last() =~= Seq::<u8>::empty());
    } else {
        let lower = digits.drop_first();
        lemma_drop_high_zero(lower);
        assert(digits.drop_last().drop_first() =~= lower.drop_last());
        assert(digits.drop_last()[0] == digits[0]);
    }
}

/// Digits whose highest is not zero are worth at least one.
proof fn lemma_high_digit_counts(digits: Seq<u8>)
    requires
        digits.len() > 0,
        digits.last() != 0,
    ensures
        digits_value(digits) >= 1,
    decreases digits.len(),
{
    if digits.len() > 1 {
        let lower = digits.drop_first();
        assert(lower.last() == digits.last());
        lemma_high_digit_counts(lower);
    }
}

/// Digits without a needless high zero, read from the highest, are the
/// decimal notation of their value.
proof fn lemma_reversed_text(digits: Seq<u8>)
    requires
        digits.len() > 0,
        all_digits(digits),
        digits.len() == 1 || digits.last() != 0,
    ensures
        decimal_text(digits_value(digits)) == reversed_text(digits),
    decreases digits.len(),
{
    let lower = digits.drop_first();
    assert(digits[0] < 10);
    if digits.len() == 1 {
        assert(lower =~= Seq::<u8>::empty());
        assert(digits_value(lower) == 0);
        assert(reversed_text(digits) =~= seq![digit_char(digits[0] as nat)]);
    } else {
        assert(lower.last() == digits.last());
        assert forall|i: int| 0 <= i < lower.len() implies #[trigger] lower[i] < 10 by {
            assert(lower[i] == digits[i + 1]);
        }
        lemma_high_digit_counts(lower);
        lemma_reversed_text(lower);
        let high = digits_value(lower);
        let n = digits_value(digits);
        assert(n == digits[0] as nat + 10 * high);
        assert(n >= 10);
        assert(n / 10 == high && n % 10 == digits[0] as nat);
        assert(reversed_text(digits) =~= reversed_text(lower).push(digit_char(digits[0] as nat)));
    }
}

/// The one-character text of a digit.
pub fn digit_str(d: u8) -> (text: &'static str)
    requires
        d < 10,
    ensures
        text@ == seq![digit_char(d as nat)],
{
    proof {
        reveal_strlit("0");
        reveal_strlit("1");
        reveal_strlit("2");
        reveal_strlit("3");
        reveal_strlit("4");
        reveal_strlit("5");
        reveal_strlit("6");
        reveal_strlit("7");
        reveal_strlit("8");
        reveal_strlit("9");
    }
    let text = if d == 0 {
        "0"
    } else if d == 1 {
        "1"
    } else if d == 2 {
        "2"
    } else if d == 3 {
        "3"
    } else if d == 4 {
        "4"
    } else if d == 5 {
        "5"
    } else if d == 6 {
        "6"
    } else if d == 7 {
        "7"
    } else if d == 8 {
        "8"
    } else {
        "9"
    };
    assert(text@ =~= seq![digit_char(d as nat)]);
    text
}

/// A natural number of any size.
pub struct Natural {
    /// The decimal digits, the least significant first; never empty.
    digits: Vec<u8>,
}

impl View for Natural {
    type V = nat;

    closed spec fn view(&self) -> nat {
        digits_value(self.digits@)
    }
}

impl Natural {
    #[verifier::type_invariant]
    spec fn well_formed(self) -> bool {
        self.digits@.len() > 0 && all_digits(self.digits@)
    }

    /// The number zero.
    pub fn zero() -> (n: Natural)
        ensures
            n@ == 0,
    {
        let mut digits: Vec<u8> = Vec::new();
        digits.push(0);
        assert(digits@.drop_first() =~= Seq::<u8>::empty());
        assert(digits_value(digits@.drop_first()) == 0);
        Natural { digits }
    }

    /// The number that a decimal numeral denotes.
    pub fn parse(text: &str) -> (n: Natural)
        requires
            is_number(text@),
        ensures
            n@ == decimal_value(text@),
    {
        let bytes = text.as_bytes();
        proof {
            assert(is_ascii_chars(text@)) by {
                assert forall|i: int| 0 <= i < text@.len() implies '\0' <= #[trigger] text@[i]
                    <= '\u{7f}' by {
                    assert(is_digit(text@[i]));
                }
            }
            is_ascii_chars_encode_utf8(text@);
            lemma_reversed_digits(text@);
        }
        let len = bytes.len();
        let mut digits: Vec<u8> = Vec::new();
        let mut i: usize = len;
        while i > 0
            invariant
                i <= len,
                len == text@.len(),
                bytes@ == text.spec_bytes(),
                is_number(text@),
                bytes@.len() == len,
                forall|j: int| 0 <= j < len ==> text@[j] as u8 == #[trigger] bytes@[j],
                digits@.len() == len - i,
                forall|k: int|
                    0 <= k < digits@.len() ==> #[trigger] digits@[k] == reversed_digits(text@)[k],
            decreases i,
        {
            i -= 1;
            let byte = bytes[i];
            assert(is_digit(text@[i as int]));
            assert(text@[i as int] as u8 == bytes@[i as int]);
            digits.push(byte - 48);
        }
        assert(digits@ =~= reversed_digits(text@));
        Natural { digits }
    }

    /// The sum of two numbers.
    pub fn plus(&self, other: &Natural) -> (sum: Natural)
        ensures
            sum@ == self@ + other@,
    {
        proof {
            use_type_invariant(self);
            use_type_invariant(other);
            lemma_column_sum(self.digits@, other.digits@, 0);
        }
        let a = &self.digits;
        let b = &other.digits;
        let mut digits: Vec<u8> = Vec::new();
        let mut carry: u8 = 0;
        let mut i: usize = 0;
        proof {
            assert(a@.skip(0) =~= a@);
            assert(b@.skip(0) =~= b@);
            assert(digits@ + column_sum(a@, b@, 0) =~= column_sum(a@, b@, 0));
        }
        while i < a.len() || i < b.len()
            invariant
                all_digits(a@),
                all_digits(b@),
                carry <= 1,
                digits@ + column_sum(
                    a@.skip(if i <= a@.len() { i as int } else { a@.len() as int }),
                    b@.skip(if i <= b@.len() { i as int } else { b@.len() as int }),
                    carry as nat,
                ) == column_sum(a@, b@, 0),
            decreases (if i <= a@.len() { a@.len() - i } else { 0 }) + (if i <= b@.len() {
                b@.len() - i
            } else {
                0
            }),
        {
            let ghost rest_a = a@.skip(if i <= a@.len() { i as int } else { a@.len() as int });
            let ghost rest_b = b@.skip(if i <= b@.len() { i as int } else { b@.len() as int });
            let x: u8 = if i < a.len() { a[i] } else { 0 };
            let y: u8 = if i < b.len() { b[i] } else { 0 };
            let column: u8 = x + y + carry;
            let digit: u8 = if column >= 10 { column - 10 } else { column };
            let next: u8 = if column >= 10 { 1 } else { 0 };
            proof {
                let next_a = a@.skip(
                    if i + 1 <= a@.len() { i + 1 } else { a@.len() as int },
                );
                let next_b = b@.skip(
                    if i + 1 <= b@.len() { i + 1 } else { b@.len() as int },
                );
                if i < a@.len() {
                    assert(rest_a.drop_first() =~= next_a);
                } else {
                    assert(rest_a =~= next_a);
                }
                if i < b@.len() {
                    assert(rest_b.drop_first() =~= next_b);
                } else {
                    assert(rest_b =~= next_b);
                }
                assert(column_sum(rest_a, rest_b, carry as nat) == seq![digit] + column_sum(
                    next_a,
                    next_b,
                    next as nat,
                ));
                assert(digits@.push(digit) + column_sum(next_a, next_b, next as nat) =~= digits@
                    + column_sum(rest_a, rest_b, carry as nat));
            }
            digits.push(digit);
            carry = next;
            i += 1;
        }
        proof {
            assert(a@.skip(a@.len() as int) =~= Seq::<u8>::empty());
            assert(b@.skip(b@.len() as int) =~= Seq::<u8>::empty());
        }
        if carry != 0 {
            digits.push(carry);
        }
        assert(digits@ =~= column_sum(a@, b@, 0));
        Natural { digits }
    }

    /// The decimal notation of the number, without leading zeros.
    pub fn to_text(&self) -> (text: String)
        ensures
            text@ == decimal_text(self@),
    {
        proof {
            use_type_invariant(self);
        }
        let digits = &self.digits;
        let mut top: usize = digits.len();
        assert(digits@.take(top as int) =~= digits@);
        while top > 1 && digits[top - 1] == 0
            invariant
                1 <= top <= digits@.len(),
                digits_value(digits@.take(top as int)) == digits_value(digits@),
            decreases top,
        {
            proof {
                let kept = digits@.take(top as int);
                lemma_drop_high_zero(kept);
                assert(kept.drop_last() =~= digits@.take(top - 1));
            }
            top -= 1;
        }
        let ghost kept = digits@.take(top as int);
        proof {
            assert(digits@.take(digits@.len() as int) =~= digits@);
            assert forall|i: int| 0 <= i < kept.len() implies #[trigger] kept[i] < 10 by {
                assert(kept[i] == digits@[i]);
            }
            lemma_reversed_text(kept);
        }
        let mut text = String::new();
        let mut i: usize = top;
        while i > 0
            invariant
                i <= top <= digits@.len(),
                all_digits(digits@),
                kept == digits@.take(top as int),
                text@ == reversed_text(kept).take(top - i),
            decreases i,
        {
            i -= 1;
            let piece = digit_str(digits[i]);
            text.append(piece);
            assert(text@ =~= reversed_text(kept).take(top - i));
        }
        assert(text@ =~= reversed_text(kept));
        text
    }
}

} // verus!
