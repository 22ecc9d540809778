//! Decimal spelling and parsing of unsigned integers.
//!
//! Cache keys embed user IDs in decimal, and the stored record format
//! spells every numeric field as a fixed-width decimal. Both
//! directions are verified: formatting yields the canonical spelling,
//! and parsing recovers exactly the formatted value.

use vstd::prelude::*;
use vstd::string::{StrSliceExecFns, StringExecFns};

verus! {

/// The value of `c` as a decimal digit, or `-1` when `c` is not one.
pub open spec fn char_digit(c: char) -> int {
    if c == '0' {
        0
    } else if c == '1' {
        1
    } else if c == '2' {
        2
    } else if c == '3' {
        3
    } else if c == '4' {
        4
    } else if c == '5' {
        5
    } else if c == '6' {
        6
    } else if c == '7' {
        7
    } else if c == '8' {
        8
    } else if c == '9' {
        9
    } else {
        -1
    }
}

/// The digit character of a value below ten.
pub open spec fn digit_char(d: int) -> char {
    if d == 0 {
        '0'
    } else if d == 1 {
        '1'
    } else if d == 2 {
        '2'
    } else if d == 3 {
        '3'
    } else if d == 4 {
        '4'
    } else if d == 5 {
        '5'
    } else if d == 6 {
        '6'
    } else if d == 7 {
        '7'
    } else if d == 8 {
        '8'
    } else {
        '9'
    }
}

/// Every character of `s` is a decimal digit.
pub open spec fn all_dec_digits(s: Seq<char>) -> bool {
    forall|i: int| 0 <= i < s.len() ==> char_digit(#[trigger] s[i]) >= 0
}

/// The numeric value of a digit string, most significant digit first.
pub open spec fn dec_value(s: Seq<char>) -> int
    decreases s.len(),
{
    if s.len() == 0 {
        0
    } else {
        dec_value(s.drop_last()) * 10 + char_digit(s.last())
    }
}

/// Ten to the `w`.
pub open spec fn pow10(w: nat) -> int
    decreases w,
{
    if w == 0 {
        1
    } else {
        10 * pow10((w - 1) as nat)
    }
}

/// Powers of ten are positive and grow with the exponent.
pub proof fn lemma_pow10_le(a: nat, b: nat)
    requires
        a <= b,
    ensures
        1 <= pow10(a) <= pow10(b),
    decreases b,
{
    if b == 0 {
    } else if a == b {
        lemma_pow10_le(0, (b - 1) as nat);
    } else {
        lemma_pow10_le(a, (b - 1) as nat);
    }
}

/// The `w`-digit zero-padded decimal spelling of `n`.
pub open spec fn pad_digits(n: nat, w: nat) -> Seq<char>
    decreases w,
{
    if w == 0 {
        Seq::empty()
    } else {
        pad_digits(n / 10, (w - 1) as nat).push(digit_char((n % 10) as int))
    }
}

/// Zero-padded spellings are digit strings of their width, and spell
/// the value they were made from whenever it fits the width.
pub proof fn lemma_pad_digits(n: nat, w: nat)
    ensures
        pad_digits(n, w).len() == w,
        all_dec_digits(pad_digits(n, w)),
        n < pow10(w) ==> dec_value(pad_digits(n, w)) == n,
    decreases w,
{
    if w > 0 {
        lemma_pad_digits(n / 10, (w - 1) as nat);
        let s = pad_digits(n, w);
        let t = pad_digits(n / 10, (w - 1) as nat);
        assert(s.drop_last() =~= t);
        assert(char_digit(digit_char((n % 10) as int)) == n % 10);
        assert forall|i: int| 0 <= i < s.len() implies char_digit(#[trigger] s[i]) >= 0 by {
            if i < s.len() - 1 {
                assert(s[i] == t[i]);
            }
        }
        if n < pow10(w) {
            assert(n / 10 < pow10((w - 1) as nat)) by {
                assert(pow10(w) == 10 * pow10((w - 1) as nat));
            }
            assert(dec_value(s) == dec_value(t) * 10 + n % 10);
        }
    }
}

/// A digit string of width `w` spells a value below ten to the `w`,
/// and is the zero-padded spelling of that value.
pub proof fn lemma_digits_pad(s: Seq<char>)
    requires
        all_dec_digits(s),
    ensures
        0 <= dec_value(s) < pow10(s.len() as nat),
        s == pad_digits(dec_value(s) as nat, s.len() as nat),
    decreases s.len(),
{
    if s.len() == 0 {
        assert(s =~= pad_digits(0, 0));
    } else {
        let t = s.drop_last();
        assert(all_dec_digits(t)) by {
            assert forall|i: int| 0 <= i < t.len() implies char_digit(#[trigger] t[i]) >= 0 by {
                assert(t[i] == s[i]);
            }
        }
        lemma_digits_pad(t);
        let d = char_digit(s.last());
        assert(0 <= d <= 9) by {
            assert(char_digit(s[s.len() - 1]) >= 0);
        }
        let n = dec_value(s);
        assert(n == dec_value(t) * 10 + d);
        assert(0 <= n < pow10(s.len() as nat)) by {
            assert(pow10(s.len() as nat) == 10 * pow10(t.len() as nat));
            assert(dec_value(t) * 10 <= (pow10(t.len() as nat) - 1) * 10) by {
                assert(dec_value(t) <= pow10(t.len() as nat) - 1);
            }
        }
        assert(n / 10 == dec_value(t) && n % 10 == d) by {
            assert(n == dec_value(t) * 10 + d && 0 <= d < 10 && dec_value(t) >= 0);
            assert((dec_value(t) * 10 + d) / 10 == dec_value(t) && (dec_value(t) * 10 + d) % 10
                == d) by (nonlinear_arith)
                requires
                    0 <= d < 10 && dec_value(t) >= 0,
            ;
        }
        assert(pad_digits(n as nat, s.len() as nat) == pad_digits(
            (n / 10) as nat,
            t.len() as nat,
        ).push(digit_char(n % 10)));
        assert(digit_char(d) == s.last()) by {
            assert(char_digit(s.last()) == d);
        }
        assert(s =~= t.push(s.last()));
    }
}

/// The digit character of `d`.
fn digit_str(d: u64) -> (r: &'static str)
    requires
        d < 10,
    ensures
        r@ =~= seq![digit_char(d as int)],
        r@.len() == 1,
{
    proof {
        reveal_strlit("0");
        reveal_strlit("1");
        reveal_strlit("2");
        reveal_strlit("3");
        reveal_strlit("4");
        reveal_strlit("5");
        reveal_strlit("6");
        reveal_strlit("7");
        reveal_strlit("8");
        reveal_strlit("9");
    }
    if d == 0 {
        "0"
    } else if d == 1 {
        "1"
    } else if d == 2 {
        "2"
    } else if d == 3 {
        "3"
    } else if d == 4 {
        "4"
    } else if d == 5 {
        "5"
    } else if d == 6 {
        "6"
    } else if d == 7 {
        "7"
    } else if d == 8 {
        "8"
    } else {
        "9"
    }
}

/// The value of a digit character, or `None` for any other character.
fn digit_of_char(c: char) -> (r: Option<u64>)
    ensures
        match r {
            Some(d) => d < 10 && d as int == char_digit(c),
            None => char_digit(c) < 0,
        },
{
    match c {
        '0' => Some(0),
        '1' => Some(1),
        '2' => Some(2),
        '3' => Some(3),
        '4' => Some(4),
        '5' => Some(5),
        '6' => Some(6),
        '7' => Some(7),
        '8' => Some(8),
        '9' => Some(9),
        _ => None,
    }
}

/// The number of digits every padded numeric field carries: wide
/// enough for any `u64`.
pub const PAD_WIDTH: usize = 20;

fn u64_pad_rec(n: u64, w: u64) -> (r: String)
    ensures
        r@ == pad_digits(n as nat, w as nat),
    decreases w,
{
    if w == 0 {
        let r = String::new();
        proof {
            assert(r@ =~= pad_digits(n as nat, 0));
        }
        r
    } else {
        let prefix = u64_pad_rec(n / 10, w - 1);
        let r = prefix.concat(digit_str(n % 10));
        proof {
            assert(r@ =~= pad_digits(n as nat, w as nat));
        }
        r
    }
}

/// The 20-digit zero-padded decimal spelling of `n`.
pub fn u64_pad20(n: u64) -> (r: String)
    ensures
        r@ == pad_digits(n as nat, PAD_WIDTH as nat),
        r@.len() == PAD_WIDTH,
{
    let r = u64_pad_rec(n, 20);
    proof {
        lemma_pad_digits(n as nat, 20);
    }
    r
}

/// Every `u64` fits in twenty decimal digits.
pub proof fn lemma_u64_fits_pad20(n: u64)
    ensures
        (n as nat) < pow10(PAD_WIDTH as nat),
{
    reveal_with_fuel(pow10, 21);
    assert(pow10(20) == 100000000000000000000int);
}

/// Parses the twenty-digit zero-padded field of `s` that starts at
/// character `start`: succeeds exactly when all twenty characters are
/// digits and their value fits a `u64`.
pub fn parse_pad20(s: &str, start: usize) -> (r: Option<u64>)
    requires
        start + PAD_WIDTH <= s@.len(),
        s@.len() <= usize::MAX,
    ensures
        match r {
            Some(n) => s@.subrange(start as int, start as int + PAD_WIDTH as int) == pad_digits(
                n as nat,
                PAD_WIDTH as nat,
            ),
            None => forall|n: u64|
                s@.subrange(start as int, start as int + PAD_WIDTH as int) != pad_digits(
                    n as nat,
                    PAD_WIDTH as nat,
                ),
        },
{
    let ghost field = s@.subrange(start as int, start as int + PAD_WIDTH as int);
    let mut acc: u128 = 0;
    let mut i: usize = 0;
    let mut bad = false;
    while i < 20
        invariant
            0 <= i <= 20,
            start + PAD_WIDTH <= s@.len(),
            field == s@.subrange(start as int, start as int + PAD_WIDTH as int),
            !bad ==> {
                &&& all_dec_digits(field.take(i as int))
                &&& acc == dec_value(field.take(i as int))
                &&& acc < pow10(i as nat)
            },
            s@.len() <= usize::MAX,
            bad ==> exists|j: int| 0 <= j < i && char_digit(#[trigger] field[j]) < 0,
        decreases 20 - i,
    {
        if !bad {
            let c = s.get_char(start + i);
            proof {
                assert(s@[start + i] == field[i as int]);
            }
            match digit_of_char(c) {
                Some(d) => {
                    proof {
                        assert(field.take(i + 1).drop_last() =~= field.take(i as int));
                        assert(field.take(i + 1).last() == field[i as int]);
                        assert forall|j: int|
                            0 <= j < i + 1 implies char_digit(
                            #[trigger] field.take(i + 1)[j],
                        ) >= 0 by {
                            if j < i {
                                assert(field.take(i + 1)[j] == field.take(i as int)[j]);
                            }
                        }
                        assert(pow10((i + 1) as nat) == 10 * pow10(i as nat));
                        lemma_pow10_le(i as nat, 19);
                        reveal_with_fuel(pow10, 21);
                        assert(pow10(19) == 10000000000000000000int);
                    }
                    acc = acc * 10 + (d as u128);
                },
                None => {
                    bad = true;
                },
            }
        }
        i += 1;
    }
    if bad {
        proof {
            assert forall|n: u64| field != pad_digits(n as nat, PAD_WIDTH as nat) by {
                lemma_pad_digits(n as nat, PAD_WIDTH as nat);
                let j = choose|j: int| 0 <= j < 20 && char_digit(#[trigger] field[j]) < 0;
                if field == pad_digits(n as nat, PAD_WIDTH as nat) {
                    assert(char_digit(field[j]) >= 0);
                }
            }
        }
        None
    } else {
        proof {
            assert(field.take(20) =~= field);
            lemma_digits_pad(field);
        }
        if acc <= u64::MAX as u128 {
            let n = acc as u64;
            proof {
                assert(field == pad_digits(n as nat, PAD_WIDTH as nat));
            }
            Some(n)
        } else {
            proof {
                assert forall|n: u64| field != pad_digits(n as nat, PAD_WIDTH as nat) by {
                    lemma_u64_fits_pad20(n);
                    lemma_pad_digits(n as nat, PAD_WIDTH as nat);
                    if field == pad_digits(n as nat, PAD_WIDTH as nat) {
                        assert(dec_value(field) == n);
                    }
                }
            }
            None
        }
    }
}

/// The canonical decimal spelling of `n`: most significant digit
/// first, no leading zeros.
pub open spec fn dec_digits(n: nat) -> Seq<char>
    decreases n,
{
    if n < 10 {
        seq![digit_char(n as int)]
    } else {
        dec_digits(n / 10).push(digit_char((n % 10) as int))
    }
}

/// Canonical spellings are nonempty digit strings that spell their
/// value back.
pub proof fn lemma_dec_digits(n: nat)
    ensures
        dec_digits(n).len() >= 1,
        all_dec_digits(dec_digits(n)),
        dec_value(dec_digits(n)) == n,
    decreases n,
{
    if n < 10 {
        let s = dec_digits(n);
        assert(s.drop_last() =~= Seq::<char>::empty());
        assert(s.last() == digit_char(n as int));
        assert(char_digit(digit_char(n as int)) == n);
        assert(dec_value(s) == dec_value(s.drop_last()) * 10 + char_digit(s.last()));
    } else {
        lemma_dec_digits(n / 10);
        let s = dec_digits(n);
        let t = dec_digits(n / 10);
        assert(s.drop_last() =~= t);
        assert(s.last() == digit_char((n % 10) as int));
        assert(char_digit(digit_char((n % 10) as int)) == n % 10);
        assert(dec_value(s) == dec_value(t) * 10 + char_digit(s.last()));
        assert forall|i: int| 0 <= i < s.len() implies char_digit(#[trigger] s[i]) >= 0 by {
            if i < s.len() - 1 {
                assert(s[i] == t[i]);
            }
        }
    }
}

/// Canonical spelling is injective.
pub proof fn lemma_dec_digits_injective(a: nat, b: nat)
    requires
        dec_digits(a) == dec_digits(b),
    ensures
        a == b,
{
    lemma_dec_digits(a);
    lemma_dec_digits(b);
}

fn u64_dec_rec(n: u64) -> (r: String)
    ensures
        r@ == dec_digits(n as nat),
    decreases n,
{
    if n < 10 {
        let r = digit_str(n).to_owned();
        proof {
            assert(r@ =~= dec_digits(n as nat));
        }
        r
    } else {
        let prefix = u64_dec_rec(n / 10);
        let r = prefix.concat(digit_str(n % 10));
        proof {
            assert(r@ =~= dec_digits(n as nat));
        }
        r
    }
}

/// The canonical decimal spelling of `n`, without leading zeros.
pub fn u64_dec(n: u64) -> (r: String)
    ensures
        r@ == dec_digits(n as nat),
{
    u64_dec_rec(n)
}

} // verus!
