//! Decimal rendering of numbers, with the facts the destination resolver
//! needs: the digit string of a number is never empty, and two distinct
//! numbers never render to the same digit string.

use vstd::prelude::*;
use vstd::arithmetic::div_mod::lemma_fundamental_div_mod;
use vstd::string::StringExecFns;

verus! {

/// The character for one decimal digit.
pub open spec fn digit_char(d: nat) -> char
    recommends
        d < 10,
{
    if d == 0 {
        '0'
    } else if d == 1 {
        '1'
    } else if d == 2 {
        '2'
    } else if d == 3 {
        '3'
    } else if d == 4 {
        '4'
    } else if d == 5 {
        '5'
    } else if d == 6 {
        '6'
    } else if d == 7 {
        '7'
    } else if d == 8 {
        '8'
    } else {
        '9'
    }
}

/// The value a digit character stands for.
pub open spec fn digit_val(c: char) -> nat {
    if c == '0' {
        0
    } else if c == '1' {
        1
    } else if c == '2' {
        2
    } else if c == '3' {
        3
    } else if c == '4' {
        4
    } else if c == '5' {
        5
    } else if c == '6' {
        6
    } else if c == '7' {
        7
    } else if c == '8' {
        8
    } else {
        9
    }
}

/// The decimal digit string of a number, most significant digit first.
pub open spec fn spec_decimal(n: nat) -> Seq<char>
    decreases n,
{
    if n < 10 {
        seq![digit_char(n)]
    } else {
        spec_decimal(n / 10) + seq![digit_char(n % 10)]
    }
}

/// The number a digit string stands for.
pub open spec fn spec_decimal_val(s: Seq<char>) -> nat
    decreases s.len(),
{
    if s.len() == 0 {
        0
    } else {
        spec_decimal_val(s.drop_last()) * 10 + digit_val(s.last())
    }
}

/// A digit string has at least one character.
pub proof fn lemma_decimal_nonempty(n: nat)
    ensures
        spec_decimal(n).len() >= 1,
    decreases n,
{
    if n >= 10 {
        lemma_decimal_nonempty(n / 10);
    }
}

proof fn lemma_digit_roundtrip(d: nat)
    requires
        d < 10,
    ensures
        digit_val(digit_char(d)) == d,
{
}

/// Reading a rendered digit string back gives the number it came from.
pub proof fn lemma_decimal_roundtrip(n: nat)
    ensures
        spec_decimal_val(spec_decimal(n)) == n,
    decreases n,
{
    if n < 10 {
        let s = seq![digit_char(n)];
        assert(s.drop_last() =~= Seq::<char>::empty());
        lemma_digit_roundtrip(n);
        assert(s.last() == digit_char(n));
        assert(spec_decimal_val(s) == spec_decimal_val(s.drop_last()) * 10 + digit_val(s.last()));
        assert(spec_decimal_val(Seq::<char>::empty()) == 0);
        assert(spec_decimal_val(s) == n);
    } else {
        lemma_decimal_roundtrip(n / 10);
        let a = spec_decimal(n / 10);
        let d = digit_char(n % 10);
        let full = a + seq![d];
        assert(spec_decimal(n) == full);
        lemma_decimal_nonempty(n / 10);
        assert(full.len() >= 1);
        assert(full.drop_last() =~= a);
        assert(full.last() == d);
        lemma_digit_roundtrip(n % 10);
        assert(spec_decimal_val(full) == spec_decimal_val(a) * 10 + digit_val(d));
        assert(spec_decimal_val(a) == n / 10);
        assert(digit_val(d) == n % 10);
        lemma_fundamental_div_mod(n as int, 10);
        assert(n == 10 * (n / 10) + n % 10);
        assert(spec_decimal_val(full) == n);
    }
}

/// Two distinct numbers render to distinct digit strings.
pub proof fn lemma_decimal_injective(a: nat, b: nat)
    ensures
        spec_decimal(a) == spec_decimal(b) ==> a == b,
{
    if spec_decimal(a) == spec_decimal(b) {
        lemma_decimal_roundtrip(a);
        lemma_decimal_roundtrip(b);
    }
}

/// One decimal digit as a string slice.
fn digit_str(d: u64) -> (s: &'static str)
    requires
        d < 10,
    ensures
        s@ == seq![digit_char(d as nat)],
{
    if d == 0 {
        proof {
            reveal_strlit("0");
            assert("0"@ =~= seq![digit_char(d as nat)]);
        }
        "0"
    } else if d == 1 {
        proof {
            reveal_strlit("1");
            assert("1"@ =~= seq![digit_char(d as nat)]);
        }
        "1"
    } else if d == 2 {
        proof {
            reveal_strlit("2");
            assert("2"@ =~= seq![digit_char(d as nat)]);
        }
        "2"
    } else if d == 3 {
        proof {
            reveal_strlit("3");
            assert("3"@ =~= seq![digit_char(d as nat)]);
        }
        "3"
    } else if d == 4 {
        proof {
            reveal_strlit("4");
            assert("4"@ =~= seq![digit_char(d as nat)]);
        }
        "4"
    } else if d == 5 {
        proof {
            reveal_strlit("5");
            assert("5"@ =~= seq![digit_char(d as nat)]);
        }
        "5"
    } else if d == 6 {
        proof {
            reveal_strlit("6");
            assert("6"@ =~= seq![digit_char(d as nat)]);
        }
        "6"
    } else if d == 7 {
        proof {
            reveal_strlit("7");
            assert("7"@ =~= seq![digit_char(d as nat)]);
        }
        "7"
    } else if d == 8 {
        proof {
            reveal_strlit("8");
            assert("8"@ =~= seq![digit_char(d as nat)]);
        }
        "8"
    } else {
        proof {
            reveal_strlit("9");
            assert("9"@ =~= seq![digit_char(d as nat)]);
        }
        "9"
    }
}

/// Render a number as its decimal digit string.
pub fn u64_to_decimal(n: u64) -> (s: String)
    ensures
        s@ == spec_decimal(n as nat),
    decreases n,
{
    if n < 10 {
        digit_str(n).to_owned()
    } else {
        let mut s = u64_to_decimal(n / 10);
        s.append(digit_str(n % 10));
        proof {
            assert(s@ =~= spec_decimal(n as nat));
        }
        s
    }
}

} // verus!
