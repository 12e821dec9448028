//! Rendering one counter value as text: arabic digits, bijective
//! alphabetic letters, and roman numerals, in both letter cases.

use vstd::prelude::*;
use vstd::string::*;

verus! {

/// Relies on `String::push`: appends the given character to the end of
/// the string.
#[verifier::external_body]
pub(crate) fn push_char(s: &mut String, c: char)
    ensures
        final(s)@ == old(s)@.push(c),
{
    s.push(c)
}

/// The decimal digit character for `d` (meaningful for `0 <= d <= 9`).
pub open spec fn spec_digit(d: int) -> char {
    if d == 0 {
        '0'
    } else if d == 1 {
        '1'
    } else if d == 2 {
        '2'
    } else if d == 3 {
        '3'
    } else if d == 4 {
        '4'
    } else if d == 5 {
        '5'
    } else if d == 6 {
        '6'
    } else if d == 7 {
        '7'
    } else if d == 8 {
        '8'
    } else {
        '9'
    }
}

fn digit_char(d: u64) -> (c: char)
    requires
        d < 10,
    ensures
        c == spec_digit(d as int),
{
    if d == 0 {
        '0'
    } else if d == 1 {
        '1'
    } else if d == 2 {
        '2'
    } else if d == 3 {
        '3'
    } else if d == 4 {
        '4'
    } else if d == 5 {
        '5'
    } else if d == 6 {
        '6'
    } else if d == 7 {
        '7'
    } else if d == 8 {
        '8'
    } else {
        '9'
    }
}

/// The usual base-ten rendering of `n`, most significant digit first.
pub open spec fn spec_arabic(n: nat) -> Seq<char>
    decreases n,
{
    if n < 10 {
        seq![spec_digit(n as int)]
    } else {
        spec_arabic(n / 10).push(spec_digit((n % 10) as int))
    }
}

/// Renders `n` in arabic digits.
pub fn arabic(n: u64) -> (s: String)
    ensures
        s@ == spec_arabic(n as nat),
    decreases n,
{
    if n < 10 {
        let mut s = String::new();
        push_char(&mut s, digit_char(n));
        proof {
            assert(s@ =~= seq![spec_digit(n as int)]);
        }
        s
    } else {
        let mut s = arabic(n / 10);
        push_char(&mut s, digit_char(n % 10));
        s
    }
}

/// The `i`-th lower-case letter (meaningful for `1 <= i <= 26`).
pub open spec fn spec_lower_letter(i: int) -> char {
    if i == 1 {
        'a'
    } else if i == 2 {
        'b'
    } else if i == 3 {
        'c'
    } else if i == 4 {
        'd'
    } else if i == 5 {
        'e'
    } else if i == 6 {
        'f'
    } else if i == 7 {
        'g'
    } else if i == 8 {
        'h'
    } else if i == 9 {
        'i'
    } else if i == 10 {
        'j'
    } else if i == 11 {
        'k'
    } else if i == 12 {
        'l'
    } else if i == 13 {
        'm'
    } else if i == 14 {
        'n'
    } else if i == 15 {
        'o'
    } else if i == 16 {
        'p'
    } else if i == 17 {
        'q'
    } else if i == 18 {
        'r'
    } else if i == 19 {
        's'
    } else if i == 20 {
        't'
    } else if i == 21 {
        'u'
    } else if i == 22 {
        'v'
    } else if i == 23 {
        'w'
    } else if i == 24 {
        'x'
    } else if i == 25 {
        'y'
    } else {
        'z'
    }
}

/// The `i`-th upper-case letter (meaningful for `1 <= i <= 26`).
pub open spec fn spec_upper_letter(i: int) -> char {
    if i == 1 {
        'A'
    } else if i == 2 {
        'B'
    } else if i == 3 {
        'C'
    } else if i == 4 {
        'D'
    } else if i == 5 {
        'E'
    } else if i == 6 {
        'F'
    } else if i == 7 {
        'G'
    } else if i == 8 {
        'H'
    } else if i == 9 {
        'I'
    } else if i == 10 {
        'J'
    } else if i == 11 {
        'K'
    } else if i == 12 {
        'L'
    } else if i == 13 {
        'M'
    } else if i == 14 {
        'N'
    } else if i == 15 {
        'O'
    } else if i == 16 {
        'P'
    } else if i == 17 {
        'Q'
    } else if i == 18 {
        'R'
    } else if i == 19 {
        'S'
    } else if i == 20 {
        'T'
    } else if i == 21 {
        'U'
    } else if i == 22 {
        'V'
    } else if i == 23 {
        'W'
    } else if i == 24 {
        'X'
    } else if i == 25 {
        'Y'
    } else {
        'Z'
    }
}

/// The `i`-th letter in the chosen case (meaningful for `1 <= i <= 26`).
pub open spec fn spec_letter(i: int, upper: bool) -> char {
    if upper {
        spec_upper_letter(i)
    } else {
        spec_lower_letter(i)
    }
}

fn letter_char(i: u64, upper: bool) -> (c: char)
    requires
        1 <= i <= 26,
    ensures
        c == spec_letter(i as int, upper),
{
    if upper {
        if i == 1 {
            'A'
        } else if i == 2 {
            'B'
        } else if i == 3 {
            'C'
        } else if i == 4 {
            'D'
        } else if i == 5 {
            'E'
        } else if i == 6 {
            'F'
        } else if i == 7 {
            'G'
        } else if i == 8 {
            'H'
        } else if i == 9 {
            'I'
        } else if i == 10 {
            'J'
        } else if i == 11 {
            'K'
        } else if i == 12 {
            'L'
        } else if i == 13 {
            'M'
        } else if i == 14 {
            'N'
        } else if i == 15 {
            'O'
        } else if i == 16 {
            'P'
        } else if i == 17 {
            'Q'
        } else if i == 18 {
            'R'
        } else if i == 19 {
            'S'
        } else if i == 20 {
            'T'
        } else if i == 21 {
            'U'
        } else if i == 22 {
            'V'
        } else if i == 23 {
            'W'
        } else if i == 24 {
            'X'
        } else if i == 25 {
            'Y'
        } else {
            'Z'
        }
    } else {
        if i == 1 {
            'a'
        } else if i == 2 {
            'b'
        } else if i == 3 {
            'c'
        } else if i == 4 {
            'd'
        } else if i == 5 {
            'e'
        } else if i == 6 {
            'f'
        } else if i == 7 {
            'g'
        } else if i == 8 {
            'h'
        } else if i == 9 {
            'i'
        } else if i == 10 {
            'j'
        } else if i == 11 {
            'k'
        } else if i == 12 {
            'l'
        } else if i == 13 {
            'm'
        } else if i == 14 {
            'n'
        } else if i == 15 {
            'o'
        } else if i == 16 {
            'p'
        } else if i == 17 {
            'q'
        } else if i == 18 {
            'r'
        } else if i == 19 {
            's'
        } else if i == 20 {
            't'
        } else if i == 21 {
            'u'
        } else if i == 22 {
            'v'
        } else if i == 23 {
            'w'
        } else if i == 24 {
            'x'
        } else if i == 25 {
            'y'
        } else {
            'z'
        }
    }
}

/// Bijective base-26 rendering: 1 is "a", 26 is "z", 27 is "aa", and so
/// on; 0 renders as the empty text.
pub open spec fn spec_alpha(n: nat, upper: bool) -> Seq<char>
    decreases n,
{
    if n == 0 {
        Seq::empty()
    } else if n <= 26 {
        seq![spec_letter(n as int, upper)]
    } else {
        spec_alpha(((n - 1) / 26) as nat, upper).push(spec_letter(((n - 1) % 26 + 1) as int, upper))
    }
}

/// Renders `n` in bijective alphabetic counting.
pub fn alphabetic(n: u64, upper: bool) -> (s: String)
    ensures
        s@ == spec_alpha(n as nat, upper),
    decreases n,
{
    if n == 0 {
        let s = String::new();
        proof {
            assert(s@ =~= Seq::<char>::empty());
        }
        s
    } else if n <= 26 {
        let mut s = String::new();
        push_char(&mut s, letter_char(n, upper));
        proof {
            assert(s@ =~= seq![spec_letter(n as int, upper)]);
        }
        s
    } else {
        let mut s = alphabetic((n - 1) / 26, upper);
        push_char(&mut s, letter_char((n - 1) % 26 + 1, upper));
        s
    }
}

/// Greedy roman rendering of a positive number; 0 yields the empty text.
pub open spec fn spec_roman_pos(n: nat, upper: bool) -> Seq<char>
    decreases n,
{
    if n == 0 {
        Seq::empty()
    } else if n >= 1000 {
        seq![spec_letter(13, upper)] + spec_roman_pos((n - 1000) as nat, upper)
    } else if n >= 900 {
        seq![spec_letter(3, upper), spec_letter(13, upper)] + spec_roman_pos((n - 900) as nat, upper)
    } else if n >= 500 {
        seq![spec_letter(4, upper)] + spec_roman_pos((n - 500) as nat, upper)
    } else if n >= 400 {
        seq![spec_letter(3, upper), spec_letter(4, upper)] + spec_roman_pos((n - 400) as nat, upper)
    } else if n >= 100 {
        seq![spec_letter(3, upper)] + spec_roman_pos((n - 100) as nat, upper)
    } else if n >= 90 {
        seq![spec_letter(24, upper), spec_letter(3, upper)] + spec_roman_pos((n - 90) as nat, upper)
    } else if n >= 50 {
        seq![spec_letter(12, upper)] + spec_roman_pos((n - 50) as nat, upper)
    } else if n >= 40 {
        seq![spec_letter(24, upper), spec_letter(12, upper)] + spec_roman_pos((n - 40) as nat, upper)
    } else if n >= 10 {
        seq![spec_letter(24, upper)] + spec_roman_pos((n - 10) as nat, upper)
    } else if n >= 9 {
        seq![spec_letter(9, upper), spec_letter(24, upper)] + spec_roman_pos((n - 9) as nat, upper)
    } else if n >= 5 {
        seq![spec_letter(22, upper)] + spec_roman_pos((n - 5) as nat, upper)
    } else if n >= 4 {
        seq![spec_letter(9, upper), spec_letter(22, upper)] + spec_roman_pos((n - 4) as nat, upper)
    } else {
        seq![spec_letter(9, upper)] + spec_roman_pos((n - 1) as nat, upper)
    }
}

/// Roman rendering of `n`; 0, which has no roman numeral, renders as the
/// single letter "n" (for "nulla").
pub open spec fn spec_roman(n: nat, upper: bool) -> Seq<char> {
    if n == 0 {
        seq![spec_letter(14, upper)]
    } else {
        spec_roman_pos(n, upper)
    }
}

fn roman_step(n: u64, upper: bool, sym1: u64, sym2: u64, amount: u64) -> (s: String)
    requires
        n >= amount,
        amount >= 1,
        1 <= sym1 <= 26,
        sym2 == 0 || 1 <= sym2 <= 26,
        spec_roman_pos(n as nat, upper) == (if sym2 == 0 {
            seq![spec_letter(sym1 as int, upper)]
        } else {
            seq![spec_letter(sym1 as int, upper), spec_letter(sym2 as int, upper)]
        }) + spec_roman_pos((n - amount) as nat, upper),
    ensures
        s@ == spec_roman_pos(n as nat, upper),
    decreases n, 0int,
{
    let mut s = String::new();
    push_char(&mut s, letter_char(sym1, upper));
    if sym2 != 0 {
        push_char(&mut s, letter_char(sym2, upper));
    }
    let rest = roman_pos(n - amount, upper);
    s.append(rest.as_str());
    proof {
        if sym2 == 0 {
            assert(Seq::<char>::empty().push(spec_letter(sym1 as int, upper)) =~= seq![
                spec_letter(sym1 as int, upper),
            ]);
        } else {
            assert(Seq::<char>::empty().push(spec_letter(sym1 as int, upper)).push(
                spec_letter(sym2 as int, upper),
            ) =~= seq![spec_letter(sym1 as int, upper), spec_letter(sym2 as int, upper)]);
        }
    }
    s
}

/// Renders a positive `n` in roman numerals by greedy subtraction; 0
/// yields the empty string.
pub fn roman_pos(n: u64, upper: bool) -> (s: String)
    ensures
        s@ == spec_roman_pos(n as nat, upper),
    decreases n, 1int,
{
    if n == 0 {
        let s = String::new();
        proof {
            assert(s@ =~= Seq::<char>::empty());
        }
        s
    } else if n >= 1000 {
        roman_step(n, upper, 13, 0, 1000)
    } else if n >= 900 {
        roman_step(n, upper, 3, 13, 900)
    } else if n >= 500 {
        roman_step(n, upper, 4, 0, 500)
    } else if n >= 400 {
        roman_step(n, upper, 3, 4, 400)
    } else if n >= 100 {
        roman_step(n, upper, 3, 0, 100)
    } else if n >= 90 {
        roman_step(n, upper, 24, 3, 90)
    } else if n >= 50 {
        roman_step(n, upper, 12, 0, 50)
    } else if n >= 40 {
        roman_step(n, upper, 24, 12, 40)
    } else if n >= 10 {
        roman_step(n, upper, 24, 0, 10)
    } else if n >= 9 {
        roman_step(n, upper, 9, 24, 9)
    } else if n >= 5 {
        roman_step(n, upper, 22, 0, 5)
    } else if n >= 4 {
        roman_step(n, upper, 9, 22, 4)
    } else {
        roman_step(n, upper, 9, 0, 1)
    }
}

/// Renders `n` in roman numerals, with "n"/"N" standing in for 0.
pub fn roman(n: u64, upper: bool) -> (s: String)
    ensures
        s@ == spec_roman(n as nat, upper),
{
    if n == 0 {
        let mut s = String::new();
        push_char(&mut s, letter_char(14, upper));
        proof {
            assert(s@ =~= seq![spec_letter(14, upper)]);
        }
        s
    } else {
        roman_pos(n, upper)
    }
}

} // verus!
