//! Small text helpers: comparing names and writing numbers.
use vstd::prelude::*;
use vstd::string::StringExecFns;

verus! {

/// The digit for `d` (0 ..= 15); letters are upper case.
pub open spec fn digit_char(d: nat) -> char {
    if d == 0 {
        '0'
    } else if d == 1 {
        '1'
    } else if d == 2 {
        '2'
    } else if d == 3 {
        '3'
    } else if d == 4 {
        '4'
    } else if d == 5 {
        '5'
    } else if d == 6 {
        '6'
    } else if d == 7 {
        '7'
    } else if d == 8 {
        '8'
    } else if d == 9 {
        '9'
    } else if d == 10 {
        'A'
    } else if d == 11 {
        'B'
    } else if d == 12 {
        'C'
    } else if d == 13 {
        'D'
    } else if d == 14 {
        'E'
    } else {
        'F'
    }
}

/// The digits of `n` in base `base`, most significant first, without
/// leading zeros ("0" for zero).
pub open spec fn digits(n: nat, base: nat) -> Seq<char>
    recommends
        2 <= base <= 16,
    decreases n,
    via digits_decreases
{
    if n < base || base < 2 {
        seq![digit_char(n)]
    } else {
        digits(n / base, base).push(digit_char(n % base))
    }
}

#[via_fn]
proof fn digits_decreases(n: nat, base: nat) {
    if !(n < base || base < 2) {
        vstd::arithmetic::div_mod::lemma_div_decreases(n as int, base as int);
    }
}

fn digit_str(d: u32) -> (r: &'static str)
    requires
        d < 16,
    ensures
        r@ == seq![digit_char(d as nat)],
{
    if d == 0 {
        proof { reveal_strlit("0"); }
        "0"
    } else if d == 1 {
        proof { reveal_strlit("1"); }
        "1"
    } else if d == 2 {
        proof { reveal_strlit("2"); }
        "2"
    } else if d == 3 {
        proof { reveal_strlit("3"); }
        "3"
    } else if d == 4 {
        proof { reveal_strlit("4"); }
        "4"
    } else if d == 5 {
        proof { reveal_strlit("5"); }
        "5"
    } else if d == 6 {
        proof { reveal_strlit("6"); }
        "6"
    } else if d == 7 {
        proof { reveal_strlit("7"); }
        "7"
    } else if d == 8 {
        proof { reveal_strlit("8"); }
        "8"
    } else if d == 9 {
        proof { reveal_strlit("9"); }
        "9"
    } else if d == 10 {
        proof { reveal_strlit("A"); }
        "A"
    } else if d == 11 {
        proof { reveal_strlit("B"); }
        "B"
    } else if d == 12 {
        proof { reveal_strlit("C"); }
        "C"
    } else if d == 13 {
        proof { reveal_strlit("D"); }
        "D"
    } else if d == 14 {
        proof { reveal_strlit("E"); }
        "E"
    } else {
        proof { reveal_strlit("F"); }
        "F"
    }
}

/// Appends the digits of `n` in base `base` to `s`.
pub fn push_digits(s: &mut String, n: u32, base: u32)
    requires
        2 <= base <= 16,
    ensures
        final(s)@ == old(s)@ + digits(n as nat, base as nat),
    decreases n,
{
    if n < base {
        s.append(digit_str(n));
    } else {
        proof {
            vstd::arithmetic::div_mod::lemma_div_decreases(n as int, base as int);
        }
        push_digits(s, n / base, base);
        s.append(digit_str(n % base));
        proof {
            assert(old(s)@ + digits((n / base) as nat, base as nat) + seq![digit_char((n % base) as nat)]
                =~= old(s)@ + digits(n as nat, base as nat));
        }
    }
}

/// Whether two strings are the same.
pub fn str_equals(a: &str, b: &str) -> (r: bool)
    ensures
        r == (a@ == b@),
{
    let x = a.as_bytes();
    let y = b.as_bytes();
    proof {
        vstd::utf8::encode_utf8_decode_utf8(a@);
        vstd::utf8::encode_utf8_decode_utf8(b@);
    }
    assert(a@ == b@ ==> x@ == y@);
    if x.len() != y.len() {
        return false;
    }
    let mut i: usize = 0;
    while i < x.len()
        invariant
            x@.len() == y@.len(),
            a@ == b@ ==> x@ == y@,
            i <= x@.len(),
            forall|j: int| 0 <= j < i ==> x@[j] == y@[j],
        decreases x@.len() - i,
    {
        if x[i] != y[i] {
            return false;
        }
        i = i + 1;
    }
    assert(x@ =~= y@);
    true
}

} // verus!
