//! Character-level helpers: upper-casing and decimal rendering.

use vstd::prelude::*;

verus! {

/// The Unicode upper-casing of a string: what `str::to_uppercase` returns
/// for it. The mapping takes pages to state, so it only carries a name
/// here; it is a function of the characters alone.
pub uninterp spec fn upper_of(s: Seq<char>) -> Seq<char>;

/// Relies on `str::to_uppercase`: the result depends on the characters
/// alone, and upper-casing the result again changes nothing, since every
/// character it emits has no further uppercase mapping.
#[verifier::external_body]
pub(crate) fn upper_string(s: &String) -> (r: String)
    ensures
        r@ == upper_of(s@),
        upper_of(r@) == r@,
{
    s.to_uppercase()
}

/// Relies on `String::push`: appends the given character to the end of the
/// string.
#[verifier::external_body]
pub(crate) fn push_char(s: &mut String, c: char)
    ensures
        final(s)@ == old(s)@.push(c),
{
    s.push(c);
}

/// The decimal digit character for a value below ten.
pub open spec fn dec_digit(d: int) -> char {
    if d == 0 {
        '0'
    } else if d == 1 {
        '1'
    } else if d == 2 {
        '2'
    } else if d == 3 {
        '3'
    } else if d == 4 {
        '4'
    } else if d == 5 {
        '5'
    } else if d == 6 {
        '6'
    } else if d == 7 {
        '7'
    } else if d == 8 {
        '8'
    } else {
        '9'
    }
}

/// The decimal digit string of a non-negative integer, without sign.
pub open spec fn dec_nat(n: int) -> Seq<char>
    decreases n,
{
    if n < 10 {
        seq![dec_digit(n)]
    } else {
        dec_nat(n / 10) + seq![dec_digit(n % 10)]
    }
}

/// The decimal string of an integer, with a leading minus sign when negative.
pub open spec fn dec_int(n: int) -> Seq<char> {
    if n < 0 {
        seq!['-'] + dec_nat(-n)
    } else {
        dec_nat(n)
    }
}

fn dec_digit_exec(d: i128) -> (r: char)
    requires
        0 <= d < 10,
    ensures
        r == dec_digit(d as int),
{
    if d == 0 {
        '0'
    } else if d == 1 {
        '1'
    } else if d == 2 {
        '2'
    } else if d == 3 {
        '3'
    } else if d == 4 {
        '4'
    } else if d == 5 {
        '5'
    } else if d == 6 {
        '6'
    } else if d == 7 {
        '7'
    } else if d == 8 {
        '8'
    } else {
        '9'
    }
}

fn push_dec(n: i128, out: &mut String)
    requires
        0 <= n,
    ensures
        final(out)@ == old(out)@ + dec_nat(n as int),
    decreases n,
{
    if n < 10 {
        push_char(out, dec_digit_exec(n));
        proof {
            assert(out@ =~= old(out)@ + dec_nat(n as int));
        }
    } else {
        push_dec(n / 10, out);
        push_char(out, dec_digit_exec(n % 10));
        proof {
            assert(out@ =~= old(out)@ + dec_nat(n as int));
        }
    }
}

/// The decimal text of a 64-bit signed integer.
pub fn int_to_string(n: i64) -> (r: String)
    ensures
        r@ == dec_int(n as int),
{
    let mut out = String::new();
    let mut m: i128 = n as i128;
    if m < 0 {
        push_char(&mut out, '-');
        m = -m;
    }
    push_dec(m, &mut out);
    proof {
        assert(out@ =~= dec_int(n as int));
    }
    out
}

/// The decimal text of a 64-bit unsigned integer.
pub fn u64_to_string(n: u64) -> (r: String)
    ensures
        r@ == dec_nat(n as int),
{
    let mut out = String::new();
    push_dec(n as i128, &mut out);
    proof {
        assert(out@ =~= dec_nat(n as int));
    }
    out
}

} // verus!
