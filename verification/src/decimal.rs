//! Decimal text of integers: an optional sign followed by one or more of the digits
//! `0` to `9`, and nothing else.

use vstd::prelude::*;
use vstd::string::*;

verus! {

/// Whether `c` is one of the ten decimal digits.
pub open spec fn is_digit(c: char) -> bool {
    '0' <= c && c <= '9'
}

/// The number that the digit `c` stands for.
pub open spec fn digit_value(c: char) -> int {
    c as int - '0' as int
}

/// The digit that stands for `d`, for `d` from 0 to 9.
pub open spec fn digit_char(d: int) -> char {
    (d + '0' as int) as char
}

/// Whether `s` holds decimal digits only.
pub open spec fn all_digits(s: Seq<char>) -> bool {
    forall|i: int| 0 <= i < s.len() ==> is_digit(#[trigger] s[i])
}

/// The number that a run of digits denotes, the first digit being the most significant.
pub open spec fn digits_value(s: Seq<char>) -> int
    decreases s.len(),
{
    if s.len() == 0 {
        0
    } else {
        digits_value(s.drop_last()) * 10 + digit_value(s.last())
    }
}

/// The integer that `s` denotes in decimal, if it denotes one: a run of at least one
/// digit, which a single `+` or `-` may precede. Leading zeros are accepted; spaces,
/// separators and an empty run are not.
pub open spec fn decimal_value(s: Seq<char>) -> Option<int> {
    if s.len() > 0 && (s[0] == '+' || s[0] == '-') {
        let body = s.subrange(1, s.len() as int);
        if body.len() > 0 && all_digits(body) {
            Some(
                if s[0] == '-' {
                    -digits_value(body)
                } else {
                    digits_value(body)
                },
            )
        } else {
            None
        }
    } else if s.len() > 0 && all_digits(s) {
        Some(digits_value(s))
    } else {
        None
    }
}

/// The digits of `n` without leading zeros; the single digit `0` for zero.
pub open spec fn digits_of(n: nat) -> Seq<char>
    decreases n,
{
    if n < 10 {
        seq![digit_char(n as int)]
    } else {
        digits_of(n / 10).push(digit_char((n % 10) as int))
    }
}

/// The decimal text of `n`: its digits, after a `-` where `n` is negative.
pub open spec fn decimal_of(n: int) -> Seq<char> {
    if n < 0 {
        seq!['-'] + digits_of((-n) as nat)
    } else {
        digits_of(n as nat)
    }
}

/// The digits of a number are digits, at least one of them, and denote that number.
pub proof fn lemma_digits_of(n: nat)
    ensures
        digits_of(n).len() > 0,
        all_digits(digits_of(n)),
        digits_value(digits_of(n)) == n,
    decreases n,
{
    if n < 10 {
        let s = digits_of(n);
        assert(s.drop_last() =~= Seq::<char>::empty());
        assert(digits_value(s.drop_last()) == 0);
    } else {
        lemma_digits_of(n / 10);
        let s = digits_of(n);
        assert(s.drop_last() =~= digits_of(n / 10));
        assert(s.last() == digit_char((n % 10) as int));
    }
}

/// Reading the decimal text of an integer gives that integer back.
pub proof fn lemma_decimal_round_trip(n: int)
    ensures
        decimal_value(decimal_of(n)) == Some(n),
{
    if n < 0 {
        let m = (-n) as nat;
        lemma_digits_of(m);
        let s = decimal_of(n);
        assert(s[0] == '-');
        assert(s.subrange(1, s.len() as int) =~= digits_of(m));
    } else {
        lemma_digits_of(n as nat);
        let s = decimal_of(n);
        assert(is_digit(s[0]));
    }
}

/// A run of digits denotes no less than any run that it starts with.
pub proof fn lemma_digits_value_grows(s: Seq<char>, k: int)
    requires
        all_digits(s),
        0 <= k <= s.len(),
    ensures
        0 <= digits_value(s.subrange(0, k)) <= digits_value(s),
    decreases s.len() - k,
{
    lemma_digits_value_step(s, k);
    if k < s.len() {
        lemma_digits_value_grows(s, k + 1);
        lemma_digits_value_step(s, k + 1);
    } else {
        assert(s.subrange(0, k) =~= s);
    }
}

/// How the value of the first `k` digits follows from that of the first `k - 1`.
pub proof fn lemma_digits_value_step(s: Seq<char>, k: int)
    requires
        all_digits(s),
        0 <= k <= s.len(),
    ensures
        digits_value(s.subrange(0, k)) >= 0,
        k > 0 ==> digits_value(s.subrange(0, k)) == digits_value(s.subrange(0, k - 1)) * 10
            + digit_value(s[k - 1]),
    decreases k,
{
    if k > 0 {
        lemma_digits_value_step(s, k - 1);
        let p = s.subrange(0, k);
        assert(p.drop_last() =~= s.subrange(0, k - 1));
        assert(p.last() == s[k - 1]);
        assert(is_digit(s[k - 1]));
    }
}


/// The characters of `text`, in order.
pub fn chars_of(text: &str) -> (chars: Vec<char>)
    ensures
        chars@ == text@,
{
    let mut chars: Vec<char> = Vec::new();
    for c in it: text.chars()
        invariant
            it.seq() == text@,
            chars@ == it.seq().take(it.index() as int),
    {
        chars.push(c);
    }
    chars
}

/// The integer that `s` denotes in decimal, where it denotes one from `min` to `max`.
pub open spec fn decimal_within(s: Seq<char>, min: int, max: int) -> Option<int> {
    match decimal_value(s) {
        Some(v) => if min <= v <= max {
            Some(v)
        } else {
            None
        },
        None => None,
    }
}

/// Reads `text` as a decimal integer from `min` to `max`.
pub fn read_decimal(text: &str, min: i64, max: i64) -> (r: Option<i64>)
    ensures
        match r {
            Some(v) => decimal_within(text@, min as int, max as int) == Some(v as int),
            None => decimal_within(text@, min as int, max as int) is None,
        },
{
    let chars = chars_of(text);
    let n = chars.len();
    if n == 0 {
        return None;
    }
    let negative = chars[0] == '-';
    let start: usize = if negative || chars[0] == '+' {
        1
    } else {
        0
    };
    if start == n {
        return None;
    }
    let ghost body = chars@.subrange(start as int, n as int);
    let mut magnitude: i128 = 0;
    let mut i: usize = start;
    while i < n
        invariant
            start <= i <= n,
            0 < n == chars.len(),
            chars@ == text@,
            negative == (chars[0] == '-'),
            start == (if chars[0] == '-' || chars[0] == '+' { 1usize } else { 0usize }),
            body == chars@.subrange(start as int, n as int),
            all_digits(body.subrange(0, i - start)),
            magnitude == digits_value(body.subrange(0, i - start)),
            0 <= magnitude <= 0x8000_0000_0000_0000,
        decreases n - i,
    {
        let c = chars[i];
        if c < '0' || c > '9' {
            proof {
                assert(!is_digit(body[i - start]));
                if start == 0 {
                    assert(body =~= text@);
                }
            }
            return None;
        }
        let digit: i128 = (c as u32 - '0' as u32) as i128;
        proof {
            let k = i - start + 1;
            assert(body.subrange(0, k).drop_last() =~= body.subrange(0, k - 1));
            assert(body.subrange(0, k).last() == c);
            assert forall|j: int| 0 <= j < k implies is_digit(#[trigger] body.subrange(0, k)[j]) by {
                if j < k - 1 {
                    assert(body.subrange(0, k)[j] == body.subrange(0, k - 1)[j]);
                }
            }
        }
        magnitude = magnitude * 10 + digit;
        i = i + 1;
        if magnitude > 0x8000_0000_0000_0000 {
            proof {
                if all_digits(body) {
                    lemma_digits_value_grows(body, i - start);
                }
                if start == 0 {
                    assert(body =~= text@);
                }
            }
            return None;
        }
    }
    proof {
        assert(body.subrange(0, n - start) =~= body);
        if start == 0 {
            assert(body =~= text@);
        }
    }
    let value: i128 = if negative {
        -magnitude
    } else {
        magnitude
    };
    if value < min as i128 || value > max as i128 {
        None
    } else {
        Some(value as i64)
    }
}

/// The text of one decimal digit.
fn digit_text(d: u8) -> (r: &'static str)
    requires
        d < 10,
    ensures
        r@ == seq![digit_char(d as int)],
{
    proof {
        reveal_strlit("0");
        reveal_strlit("1");
        reveal_strlit("2");
        reveal_strlit("3");
        reveal_strlit("4");
        reveal_strlit("5");
        reveal_strlit("6");
        reveal_strlit("7");
        reveal_strlit("8");
        reveal_strlit("9");
    }
    let r = match d {
        0 => "0",
        1 => "1",
        2 => "2",
        3 => "3",
        4 => "4",
        5 => "5",
        6 => "6",
        7 => "7",
        8 => "8",
        _ => "9",
    };
    assert(r@ =~= seq![digit_char(d as int)]);
    r
}

/// Appends the digits of `n` to `out`.
pub fn write_digits(out: &mut String, n: u128)
    ensures
        final(out)@ == old(out)@ + digits_of(n as nat),
{
    let mut low: Vec<u8> = Vec::new();
    let mut rest: u128 = n;
    while rest >= 10
        invariant
            forall|j: int| 0 <= j < low.len() ==> low[j] < 10,
            digits_of(n as nat) == digits_of(rest as nat) + Seq::new(
                low.len() as nat,
                |j: int| digit_char(low[low.len() - 1 - j] as int),
            ),
        decreases rest,
    {
        let ghost before = low@;
        low.push((rest % 10) as u8);
        proof {
            let tail_before = Seq::new(
                before.len() as nat,
                |j: int| digit_char(before[before.len() - 1 - j] as int),
            );
            let tail_after = Seq::new(
                low.len() as nat,
                |j: int| digit_char(low[low.len() - 1 - j] as int),
            );
            assert(tail_after =~= seq![digit_char((rest % 10) as int)] + tail_before);
            assert(digits_of(rest as nat) + tail_before =~= digits_of((rest / 10) as nat)
                + tail_after);
        }
        rest = rest / 10;
    }
    out.append(digit_text(rest as u8));
    let ghost tail = Seq::new(
        low.len() as nat,
        |j: int| digit_char(low[low.len() - 1 - j] as int),
    );
    let mut k: usize = low.len();
    while k > 0
        invariant
            k <= low.len(),
            forall|j: int| 0 <= j < low.len() ==> low[j] < 10,
            tail == Seq::new(low.len() as nat, |j: int| digit_char(low[low.len() - 1 - j] as int)),
            out@ == old(out)@ + digits_of(rest as nat) + tail.take(low.len() - k),
        decreases k,
    {
        k = k - 1;
        out.append(digit_text(low[k]));
        proof {
            assert(tail.take(low.len() - k) =~= tail.take(low.len() - k - 1) + seq![
                digit_char(low[k as int] as int),
            ]);
        }
    }
    proof {
        assert(tail.take(low.len() as int) =~= tail);
        assert(old(out)@ + digits_of(rest as nat) + tail =~= old(out)@ + (digits_of(rest as nat)
            + tail));
    }
}

/// The decimal text of `n`.
pub fn write_decimal(n: i64) -> (text: String)
    ensures
        text@ == decimal_of(n as int),
{
    let mut text = String::new();
    if n < 0 {
        proof {
            reveal_strlit("-");
        }
        text.append("-");
        write_digits(&mut text, (-(n as i128)) as u128);
        assert(text@ =~= decimal_of(n as int));
    } else {
        write_digits(&mut text, n as u128);
        assert(text@ =~= decimal_of(n as int));
    }
    text
}

} // verus!
