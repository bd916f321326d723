//! Decimal text for non-negative integers.
//!
//! The store keeps every time field as text. This module says which texts
//! stand for a `u64` and which number each one stands for, writes a number
//! in its canonical form, and proves that writing and reading agree.

use vstd::prelude::*;
use vstd::string::*;

verus! {

/// The ASCII code of the plus sign.
const PLUS: u8 = 43;

/// The ASCII code of the digit zero.
const ZERO: u8 = 48;

/// The ASCII code of the digit nine.
const NINE: u8 = 57;

/// `c` is one of the ten ASCII digits.
pub open spec fn is_digit(c: char) -> bool {
    '0' <= c <= '9'
}

/// The number that the digit `c` stands for.
pub open spec fn digit_value(c: char) -> nat {
    (c as int - '0' as int) as nat
}

/// The digit that stands for `d`, for `d` below ten.
pub open spec fn digit_char(d: nat) -> char {
    if d == 0 {
        '0'
    } else if d == 1 {
        '1'
    } else if d == 2 {
        '2'
    } else if d == 3 {
        '3'
    } else if d == 4 {
        '4'
    } else if d == 5 {
        '5'
    } else if d == 6 {
        '6'
    } else if d == 7 {
        '7'
    } else if d == 8 {
        '8'
    } else {
        '9'
    }
}

/// Every character of `s` is a digit.
pub open spec fn all_digits(s: Seq<char>) -> bool {
    forall|i: int| 0 <= i < s.len() ==> is_digit(#[trigger] s[i])
}

/// The number written by a run of digits, most significant first.
pub open spec fn digits_value(s: Seq<char>) -> nat
    decreases s.len(),
{
    if s.len() == 0 {
        0
    } else {
        digits_value(s.drop_last()) * 10 + digit_value(s.last())
    }
}

/// The text without one leading plus sign, if it has one.
pub open spec fn unsigned_part(s: Seq<char>) -> Seq<char> {
    if s.len() > 0 && s[0] == '+' {
        s.subrange(1, s.len() as int)
    } else {
        s
    }
}

/// `s` is accepted as a `u64`: an optional plus sign, then at least one
/// digit, and a value that fits.
pub open spec fn is_decimal(s: Seq<char>) -> bool {
    &&& unsigned_part(s).len() > 0
    &&& all_digits(unsigned_part(s))
    &&& digits_value(unsigned_part(s)) <= u64::MAX
}

/// The number that an accepted text stands for.
pub open spec fn decimal_value(s: Seq<char>) -> u64 {
    digits_value(unsigned_part(s)) as u64
}

/// The canonical text of `n`: no sign, no leading zero but for zero itself.
pub open spec fn decimal_text(n: nat) -> Seq<char>
    decreases n,
{
    if n < 10 {
        seq![digit_char(n)]
    } else {
        decimal_text(n / 10).push(digit_char(n % 10))
    }
}

/// A longer run of digits never stands for a smaller number than its prefix.
pub proof fn lemma_prefix_value_le(s: Seq<char>, k: int)
    requires
        0 <= k <= s.len(),
    ensures
        digits_value(s.subrange(0, k)) <= digits_value(s),
    decreases s.len() - k,
{
    if k == s.len() {
        assert(s.subrange(0, k) =~= s);
    } else {
        lemma_prefix_value_le(s, k + 1);
        let longer = s.subrange(0, k + 1);
        assert(longer.drop_last() =~= s.subrange(0, k));
    }
}

/// The canonical text is made of digits, is not empty and stands for `n`.
pub proof fn lemma_decimal_text_digits(n: nat)
    ensures
        decimal_text(n).len() > 0,
        all_digits(decimal_text(n)),
        decimal_text(n)[0] != '+',
        digits_value(decimal_text(n)) == n,
    decreases n,
{
    if n < 10 {
        let s = decimal_text(n);
        assert(s.drop_last() =~= Seq::<char>::empty());
        assert(digits_value(s.drop_last()) == 0);
        assert(digit_value(s.last()) == n);
    } else {
        lemma_decimal_text_digits(n / 10);
        let head = decimal_text(n / 10);
        let s = decimal_text(n);
        assert(s.drop_last() =~= head);
        assert(digit_value(digit_char(n % 10)) == n % 10);
        assert(s[0] == head[0]);
        assert forall|i: int| 0 <= i < s.len() implies is_digit(#[trigger] s[i]) by {
            if i < head.len() {
                assert(s[i] == head[i]);
            }
        }
    }
}

/// Reading what was written gives the number back: the canonical text of a
/// `u64` is accepted, and its value is that number.
pub proof fn lemma_text_round_trip(n: u64)
    ensures
        is_decimal(decimal_text(n as nat)),
        decimal_value(decimal_text(n as nat)) == n,
{
    lemma_decimal_text_digits(n as nat);
}

/// An accepted text holds ASCII characters only.
pub proof fn lemma_decimal_is_ascii(s: Seq<char>)
    requires
        is_decimal(s),
    ensures
        vstd::utf8::is_ascii_chars(s),
{
    let body = unsigned_part(s);
    assert forall|i: int| 0 <= i < s.len() implies '\0' <= #[trigger] s[i] <= '\u{7f}' by {
        if s[0] == '+' {
            if i > 0 {
                assert(is_digit(body[i - 1]));
            }
        } else {
            assert(is_digit(body[i]));
        }
    }
}

/// The digit for `d` as a one-character string.
fn digit_str(d: u64) -> (r: &'static str)
    requires
        d < 10,
    ensures
        r@ == seq![digit_char(d as nat)],
{
    proof {
        reveal_strlit("0");
        reveal_strlit("1");
        reveal_strlit("2");
        reveal_strlit("3");
        reveal_strlit("4");
        reveal_strlit("5");
        reveal_strlit("6");
        reveal_strlit("7");
        reveal_strlit("8");
        reveal_strlit("9");
    }
    let r = if d == 0 {
        "0"
    } else if d == 1 {
        "1"
    } else if d == 2 {
        "2"
    } else if d == 3 {
        "3"
    } else if d == 4 {
        "4"
    } else if d == 5 {
        "5"
    } else if d == 6 {
        "6"
    } else if d == 7 {
        "7"
    } else if d == 8 {
        "8"
    } else {
        "9"
    };
    assert(r@ =~= seq![digit_char(d as nat)]);
    r
}

/// Writes `n` in its canonical decimal form.
pub fn format_u64(n: u64) -> (text: String)
    ensures
        text@ == decimal_text(n as nat),
        is_decimal(text@),
        decimal_value(text@) == n,
{
    proof {
        lemma_text_round_trip(n);
    }
    let mut text = String::from_str(digit_str(n % 10));
    let mut rest: u64 = n / 10;
    let ghost mut tail: Seq<char> = seq![digit_char((n % 10) as nat)];
    // `rest` still has to be written in front of `tail`.
    while rest > 0
        invariant
            text@ == tail,
            tail.len() > 0,
            decimal_text(n as nat) == if rest == 0 {
                tail
            } else {
                decimal_text(rest as nat) + tail
            },
        decreases rest,
    {
        let front = String::from_str(digit_str(rest % 10));
        proof {
            let d = seq![digit_char((rest % 10) as nat)];
            if rest < 10 {
                assert(decimal_text(rest as nat) =~= d);
            } else {
                assert(decimal_text(rest as nat) + tail =~= decimal_text((rest / 10) as nat) + (d
                    + tail));
            }
            tail = d + tail;
        }
        text = front.concat(text.as_str());
        rest = rest / 10;
    }
    text
}

/// Reads a `u64` from text, as the store's time fields are read: the text
/// is accepted exactly when it is an optional plus sign followed by digits
/// whose value fits.
pub fn parse_u64(text: &str) -> (value: Option<u64>)
    ensures
        value == if is_decimal(text@) {
            Some(decimal_value(text@))
        } else {
            None
        },
{
    if !text.is_ascii() {
        proof {
            if is_decimal(text@) {
                lemma_decimal_is_ascii(text@);
            }
        }
        return None;
    }
    let len = text.unicode_len();
    if len == 0 {
        return None;
    }
    let start: usize = if text.get_ascii(0) == PLUS {
        1
    } else {
        0
    };
    assert(start == 1 <==> text@[0] == '+');
    if start == len {
        return None;
    }
    let ghost body = unsigned_part(text@);
    assert(body =~= text@.subrange(start as int, len as int));
    let mut acc: u64 = 0;
    let mut i: usize = start;
    while i < len
        invariant
            start <= i <= len,
            len == text@.len(),
            text.is_ascii(),
            body == unsigned_part(text@),
            body == text@.subrange(start as int, len as int),
            all_digits(body.subrange(0, i - start)),
            acc == digits_value(body.subrange(0, i - start)),
        decreases len - i,
    {
        let b = text.get_ascii(i);
        let ghost c = text@[i as int];
        let ghost seen = body.subrange(0, i - start);
        let ghost next = body.subrange(0, i - start + 1);
        proof {
            assert(next.drop_last() =~= seen);
            assert(next.last() == c);
            assert(body[i - start] == c);
            assert(c as u8 == b);
            assert(is_digit(c) <==> ZERO <= b <= NINE);
            lemma_prefix_value_le(body, i - start + 1);
        }
        if !(b >= ZERO && b <= NINE) {
            return None;
        }
        let d: u64 = (b - ZERO) as u64;
        assert(d == digit_value(c));
        if acc > (u64::MAX - d) / 10 {
            assert(digits_value(next) > u64::MAX);
            return None;
        }
        acc = acc * 10 + d;
        proof {
            assert forall|j: int| 0 <= j < next.len() implies is_digit(#[trigger] next[j]) by {
                if j < seen.len() {
                    assert(next[j] == seen[j]);
                }
            }
        }
        i = i + 1;
    }
    assert(body.subrange(0, len - start) =~= body);
    Some(acc)
}

} // verus!
