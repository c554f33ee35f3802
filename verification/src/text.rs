//! Texts: integers in decimal, and what specifications say of strings.

use vstd::prelude::*;
use vstd::string::{StrSliceExecFns, StringExecFns};

verus! {

/// The character of a decimal digit.
pub open spec fn digit(d: nat) -> char {
    if d == 0 {
        '0'
    } else if d == 1 {
        '1'
    } else if d == 2 {
        '2'
    } else if d == 3 {
        '3'
    } else if d == 4 {
        '4'
    } else if d == 5 {
        '5'
    } else if d == 6 {
        '6'
    } else if d == 7 {
        '7'
    } else if d == 8 {
        '8'
    } else {
        '9'
    }
}

/// The decimal digits of a natural number, most significant first, without
/// leading zeros.
pub open spec fn digits(n: nat) -> Seq<char>
    decreases n,
{
    if n < 10 {
        seq![digit(n)]
    } else {
        digits(n / 10).push(digit(n % 10))
    }
}

/// An integer in decimal: a minus sign where it is negative, then its digits.
pub open spec fn decimal(i: int) -> Seq<char> {
    if i < 0 {
        seq!['-'] + digits((-i) as nat)
    } else {
        digits(i as nat)
    }
}

fn digit_text(d: u64) -> (text: &'static str)
    requires
        d < 10,
    ensures
        text@ == seq![digit(d as nat)],
{
    proof {
        reveal_strlit("0");
        reveal_strlit("1");
        reveal_strlit("2");
        reveal_strlit("3");
        reveal_strlit("4");
        reveal_strlit("5");
        reveal_strlit("6");
        reveal_strlit("7");
        reveal_strlit("8");
        reveal_strlit("9");
    }
    let text = if d == 0 {
        "0"
    } else if d == 1 {
        "1"
    } else if d == 2 {
        "2"
    } else if d == 3 {
        "3"
    } else if d == 4 {
        "4"
    } else if d == 5 {
        "5"
    } else if d == 6 {
        "6"
    } else if d == 7 {
        "7"
    } else if d == 8 {
        "8"
    } else {
        "9"
    };
    assert(text@ =~= seq![digit(d as nat)]);
    text
}

fn push_digits(out: &mut String, n: u64)
    ensures
        final(out)@ == old(out)@ + digits(n as nat),
    decreases n,
{
    if n >= 10 {
        push_digits(out, n / 10);
    }
    out.append(digit_text(n % 10));
    assert(out@ =~= old(out)@ + digits(n as nat));
}

/// Appends an integer in decimal to a text.
pub fn push_decimal(out: &mut String, i: i64)
    ensures
        final(out)@ == old(out)@ + decimal(i as int),
{
    if i < 0 {
        proof {
            reveal_strlit("-");
        }
        out.append("-");
        let magnitude: u64 = ((-(i + 1)) as u64) + 1;
        push_digits(out, magnitude);
        assert(out@ =~= old(out)@ + decimal(i as int));
    } else {
        push_digits(out, i as u64);
    }
}

/// An integer in decimal.
pub fn decimal_string(i: i64) -> (text: String)
    ensures
        text@ == decimal(i as int),
{
    let mut text = String::new();
    push_decimal(&mut text, i);
    assert(text@ =~= decimal(i as int));
    text
}

/// The digit that a character shows, where it shows one.
pub open spec fn digit_value(c: char) -> Option<nat> {
    if c == '0' {
        Some(0)
    } else if c == '1' {
        Some(1)
    } else if c == '2' {
        Some(2)
    } else if c == '3' {
        Some(3)
    } else if c == '4' {
        Some(4)
    } else if c == '5' {
        Some(5)
    } else if c == '6' {
        Some(6)
    } else if c == '7' {
        Some(7)
    } else if c == '8' {
        Some(8)
    } else if c == '9' {
        Some(9)
    } else {
        None
    }
}

/// The number that a run of decimal digits shows. An empty run shows none,
/// nor does a run with any other character in it.
pub open spec fn number_of(run: Seq<char>) -> Option<nat>
    decreases run.len(),
{
    if run.len() == 0 {
        None
    } else {
        match digit_value(run.last()) {
            None => None,
            Some(d) => if run.len() == 1 {
                Some(d)
            } else {
                match number_of(run.drop_last()) {
                    Some(n) => Some(10 * n + d),
                    None => None,
                }
            },
        }
    }
}

/// Whether a run of digits starts as [`digits`] writes: with no zero before
/// another digit.
pub open spec fn plain(run: Seq<char>) -> bool {
    run.len() == 1 || (run.len() > 1 && run[0] != '0')
}

/// The integer that a text shows in decimal, where it is written the one
/// way that [`decimal`] writes: `-0`, `+1`, `01` and `1.0` show none.
pub open spec fn integer(text: Seq<char>) -> Option<int> {
    if text.len() > 0 && text[0] == '-' {
        let run = text.subrange(1, text.len() as int);
        match number_of(run) {
            Some(n) => if plain(run) && n > 0 {
                Some(-(n as int))
            } else {
                None
            },
            None => None,
        }
    } else {
        match number_of(text) {
            Some(n) => if plain(text) {
                Some(n as int)
            } else {
                None
            },
            None => None,
        }
    }
}

/// The `i64` that a text shows in decimal, where it shows an integer and the
/// integer is one.
pub open spec fn integer_i64(text: Seq<char>) -> Option<i64> {
    match integer(text) {
        Some(i) => if i64::MIN <= i <= i64::MAX {
            Some(i as i64)
        } else {
            None
        },
        None => None,
    }
}

/// The digits of a number show the number, and start as they should.
pub proof fn digits_show_their_number(n: nat)
    ensures
        number_of(digits(n)) == Some(n),
        plain(digits(n)),
        digits(n).len() >= 1,
        digits(n)[0] != '-',
        n > 0 ==> digits(n)[0] != '0',
    decreases n,
{
    if n >= 10 {
        digits_show_their_number(n / 10);
        let run = digits(n);
        assert(run.drop_last() =~= digits(n / 10));
        assert(run.last() == digit(n % 10));
        assert(run[0] == digits(n / 10)[0]);
    }
}

/// Reading is the inverse of writing: the decimal text of an integer shows
/// that integer.
pub proof fn integer_of_decimal(i: int)
    ensures
        integer(decimal(i)) == Some(i),
{
    if i < 0 {
        let n = (-i) as nat;
        digits_show_their_number(n);
        assert(decimal(i).subrange(1, decimal(i).len() as int) =~= digits(n));
    } else {
        digits_show_their_number(i as nat);
    }
}

/// A run of digits that starts as it should is the digits of its number.
pub proof fn plain_run_is_digits(run: Seq<char>)
    requires
        number_of(run) is Some,
        plain(run),
    ensures
        digits(number_of(run)->0) == run,
        run.len() > 1 ==> number_of(run)->0 >= 10,
    decreases run.len(),
{
    if run.len() == 1 {
        assert(run =~= seq![run.last()]);
    } else {
        let front = run.drop_last();
        assert(front[0] == run[0]);
        plain_run_is_digits(front);
        let n = number_of(run)->0;
        let d = digit_value(run.last())->0;
        assert(number_of(front)->0 >= 1) by {
            if front.len() == 1 {
                assert(front.last() == front[0]);
            }
        }
        assert(n / 10 == number_of(front)->0 && n % 10 == d);
        assert(digits(n) =~= run);
    }
}

/// Writing is the inverse of reading: a text that shows an integer is the
/// decimal text of that integer. So no two texts show one integer.
pub proof fn decimal_of_integer(text: Seq<char>)
    requires
        integer(text) is Some,
    ensures
        decimal(integer(text)->0) == text,
{
    if text.len() > 0 && text[0] == '-' {
        let run = text.subrange(1, text.len() as int);
        plain_run_is_digits(run);
        assert(text =~= seq!['-'] + run);
    } else {
        plain_run_is_digits(text);
    }
}

/// The number that a run shows is no less than what any start of the run
/// shows.
proof fn number_grows(run: Seq<char>, k: int)
    requires
        number_of(run) is Some,
        1 <= k <= run.len(),
    ensures
        number_of(run.take(k)) is Some,
        number_of(run.take(k))->0 <= number_of(run)->0,
    decreases run.len(),
{
    if k == run.len() {
        assert(run.take(k) =~= run);
    } else {
        assert(run.drop_last().take(k) =~= run.take(k));
        number_grows(run.drop_last(), k);
    }
}

/// One more digit: ten times what stood before, and the digit.
proof fn number_steps(run: Seq<char>, k: int)
    requires
        0 <= k < run.len(),
        k > 0 ==> number_of(run.take(k)) is Some,
    ensures
        number_of(run.take(k + 1)) == match digit_value(run[k]) {
            None => None::<nat>,
            Some(d) => if k == 0 {
                Some(d)
            } else {
                Some(10 * number_of(run.take(k))->0 + d)
            },
        },
{
    let next = run.take(k + 1);
    assert(next.last() == run[k]);
    assert(next.drop_last() =~= run.take(k));
}

fn digit_of(c: char) -> (d: Option<u64>)
    ensures
        match d {
            Some(v) => v < 10 && digit_value(c) == Some(v as nat),
            None => digit_value(c) is None,
        },
{
    if c == '0' {
        Some(0)
    } else if c == '1' {
        Some(1)
    } else if c == '2' {
        Some(2)
    } else if c == '3' {
        Some(3)
    } else if c == '4' {
        Some(4)
    } else if c == '5' {
        Some(5)
    } else if c == '6' {
        Some(6)
    } else if c == '7' {
        Some(7)
    } else if c == '8' {
        Some(8)
    } else if c == '9' {
        Some(9)
    } else {
        None
    }
}

/// Reads an integer in decimal.
pub fn parse_integer(text: &str) -> (number: Option<i64>)
    ensures
        number == integer_i64(text@),
{
    let len = text.unicode_len();
    if len == 0 {
        return None;
    }
    let negative = text.get_char(0) == '-';
    let start: usize = if negative {
        1
    } else {
        0
    };
    let ghost run = text@.subrange(start as int, len as int);
    proof {
        if !negative {
            assert(run =~= text@);
        }
    }
    if start == len {
        return None;
    }
    if text.get_char(start) == '0' && len - start > 1 {
        assert(run[0] == '0' && !plain(run));
        return None;
    }
    let limit: u64 = if negative {
        9223372036854775808
    } else {
        9223372036854775807
    };
    let mut acc: u64 = 0;
    let mut k: usize = start;
    while k < len
        invariant
            start <= k <= len,
            len == text@.len(),
            run == text@.subrange(start as int, len as int),
            negative == (text@[0] == '-'),
            start == if negative { 1usize } else { 0usize },
            acc <= limit,
            limit == if negative { 9223372036854775808u64 } else { 9223372036854775807u64 },
            k == start ==> acc == 0,
            k > start ==> number_of(run.take(k - start)) == Some(acc as nat),
        decreases len - k,
    {
        let c = text.get_char(k);
        assert(run[k - start] == c);
        proof {
            number_steps(run, k - start);
        }
        match digit_of(c) {
            None => {
                proof {
                    if !negative {
                        assert(run =~= text@);
                    }
                    if number_of(run) is Some {
                        number_grows(run, k - start + 1);
                    }
                }
                return None;
            },
            Some(d) => {
                if acc > (limit - d) / 10 {
                    proof {
                        assert(10 * acc + d > limit);
                        if !negative {
                            assert(run =~= text@);
                        }
                        if number_of(run) is Some {
                            number_grows(run, k - start + 1);
                        }
                    }
                    return None;
                }
                acc = acc * 10 + d;
            },
        }
        k += 1;
    }
    assert(run.take(len - start) =~= run);
    assert(plain(run));
    if negative {
        if acc == 0 {
            None
        } else if acc == 9223372036854775808 {
            Some(i64::MIN)
        } else {
            Some(-(acc as i64))
        }
    } else {
        Some(acc as i64)
    }
}

/// Whether `text` is the text `literal`.
pub fn is_text(text: &String, literal: &str) -> (same: bool)
    ensures
        same == (text@ == literal@),
{
    let wanted = String::from_str(literal);
    *text == wanted
}

/// The characters of a text that may be absent.
pub open spec fn text_view(text: Option<String>) -> Option<Seq<char>> {
    match text {
        Some(s) => Some(s@),
        None => None,
    }
}

} // verus!
