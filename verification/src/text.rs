//! Decimal numerals, for the messages that quote a number.

use vstd::prelude::*;
use vstd::string::StringExecFns;

verus! {

/// The ten decimal digits, each at the index of its value.
pub open spec fn decimal_digits() -> Seq<char> {
    seq!['0', '1', '2', '3', '4', '5', '6', '7', '8', '9']
}

/// The decimal numeral of `n`: no sign and no leading zero, `0` for zero.
pub open spec fn decimal_text(n: nat) -> Seq<char>
    decreases n,
{
    if n < 10 {
        seq![decimal_digits()[n as int]]
    } else {
        decimal_text(n / 10).push(decimal_digits()[(n % 10) as int])
    }
}

/// The number that a sequence of decimal digits denotes; characters that are
/// no digit count as zero.
pub open spec fn decimal_value(text: Seq<char>) -> nat
    decreases text.len(),
{
    if text.len() == 0 {
        0
    } else {
        10 * decimal_value(text.drop_last()) + digit_value(text.last())
    }
}

/// The value of one decimal digit.
pub open spec fn digit_value(c: char) -> nat {
    if '0' <= c && c <= '9' {
        (c as int - '0' as int) as nat
    } else {
        0
    }
}

fn digit_text(d: usize) -> (s: &'static str)
    requires
        d < 10,
    ensures
        s@ == seq![decimal_digits()[d as int]],
{
    proof {
        reveal_strlit("0");
        reveal_strlit("1");
        reveal_strlit("2");
        reveal_strlit("3");
        reveal_strlit("4");
        reveal_strlit("5");
        reveal_strlit("6");
        reveal_strlit("7");
        reveal_strlit("8");
        reveal_strlit("9");
    }
    let s = match d {
        0 => "0",
        1 => "1",
        2 => "2",
        3 => "3",
        4 => "4",
        5 => "5",
        6 => "6",
        7 => "7",
        8 => "8",
        _ => "9",
    };
    s
}

/// Writes `n` as a decimal numeral.
pub fn decimal_string(n: usize) -> (s: String)
    ensures
        s@ == decimal_text(n as nat),
    decreases n,
{
    if n < 10 {
        String::from_str(digit_text(n))
    } else {
        decimal_string(n / 10).concat(digit_text(n % 10))
    }
}

/// Whether `text` is a run of one or more decimal digits.
pub open spec fn is_numeral(text: Seq<char>) -> bool {
    &&& text.len() > 0
    &&& forall|i: int| 0 <= i < text.len() ==> '0' <= #[trigger] text[i] && text[i] <= '9'
}

/// Decides whether `text` is a run of decimal digits that denotes a number
/// above `bound`. Leading zeros do not matter, nor does the length of the
/// run: nothing here overflows.
pub fn numeral_exceeds(text: &str, bound: u32) -> (beyond: bool)
    ensures
        beyond == (is_numeral(text@) && decimal_value(text@) > bound),
{
    let mut digits = true;
    let mut any = false;
    let mut beyond = false;
    let mut value: u64 = 0;
    for c in it: text.chars()
        invariant
            it.seq() == text@,
            any == (it.index() > 0),
            digits == (forall|j: int|
                0 <= j < it.index() ==> '0' <= #[trigger] it.seq()[j] && it.seq()[j] <= '9'),
            beyond == (decimal_value(it.seq().take(it.index() as int)) > bound),
            !beyond ==> value == decimal_value(it.seq().take(it.index() as int)),
            value <= bound,
    {
        proof {
            let before = it.seq().take(it.index() as int);
            let after = it.seq().take(it.index() as int + 1);
            assert(after.drop_last() =~= before);
            assert(after.last() == c);
        }
        let digit: u64 = if '0' <= c && c <= '9' {
            (c as u64) - ('0' as u64)
        } else {
            digits = false;
            0
        };
        any = true;
        if !beyond {
            value = value * 10 + digit;
            if value > bound as u64 {
                beyond = true;
                value = 0;
            }
        }
    }
    assert(text@.take(text@.len() as int) =~= text@);
    any && digits && beyond
}

} // verus!
