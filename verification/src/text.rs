//! Plain-text building blocks: decimal rendering of integers, and a
//! contiguous-substring predicate over character sequences with the
//! concatenation lemmas the listing and JSON modules build on.

use vstd::prelude::*;

verus! {

/// Relies on std's `String::push`, which appends the given character to the
/// end of the string.
pub assume_specification[ String::push ](s: &mut String, c: char)
    ensures
        final(s)@ == old(s)@.push(c),
;

/// The decimal digit character for a value below ten.
pub open spec fn digit_char(d: nat) -> char {
    if d == 0 {
        '0'
    } else if d == 1 {
        '1'
    } else if d == 2 {
        '2'
    } else if d == 3 {
        '3'
    } else if d == 4 {
        '4'
    } else if d == 5 {
        '5'
    } else if d == 6 {
        '6'
    } else if d == 7 {
        '7'
    } else if d == 8 {
        '8'
    } else {
        '9'
    }
}

/// The decimal rendering of a natural number, without sign and without
/// leading zeros (a single `'0'` for zero).
pub open spec fn dec_chars(n: nat) -> Seq<char>
    decreases n,
{
    if n < 10 {
        seq![digit_char(n)]
    } else {
        dec_chars(n / 10) + seq![digit_char(n % 10)]
    }
}

/// The decimal rendering of an integer: a leading `'-'` for negative
/// values, then the digits of its absolute value.
pub open spec fn int_chars(n: int) -> Seq<char> {
    if n < 0 {
        seq!['-'] + dec_chars((-n) as nat)
    } else {
        dec_chars(n as nat)
    }
}

fn push_digit(out: &mut String, d: u32)
    requires
        d < 10,
    ensures
        final(out)@ == old(out)@ + seq![digit_char(d as nat)],
{
    let c: char = if d == 0 {
        '0'
    } else if d == 1 {
        '1'
    } else if d == 2 {
        '2'
    } else if d == 3 {
        '3'
    } else if d == 4 {
        '4'
    } else if d == 5 {
        '5'
    } else if d == 6 {
        '6'
    } else if d == 7 {
        '7'
    } else if d == 8 {
        '8'
    } else {
        '9'
    };
    out.push(c);
    proof {
        assert(out@ =~= old(out)@ + seq![digit_char(d as nat)]);
    }
}

/// Appends the decimal digits of `n` to `out`.
pub fn append_dec(out: &mut String, n: u32)
    ensures
        final(out)@ == old(out)@ + dec_chars(n as nat),
    decreases n,
{
    if n < 10 {
        push_digit(out, n);
    } else {
        append_dec(out, n / 10);
        push_digit(out, n % 10);
        proof {
            assert(out@ =~= old(out)@ + dec_chars(n as nat));
        }
    }
}

/// Appends the decimal rendering of `n`, sign included, to `out`.
pub fn append_int(out: &mut String, n: i32)
    ensures
        final(out)@ == old(out)@ + int_chars(n as int),
{
    if n < 0 {
        out.push('-');
        let wide: i64 = -(n as i64);
        assert(0 < wide <= 0x8000_0000i64);
        let m: u32 = wide as u32;
        assert(m as nat == (-(n as int)) as nat);
        append_dec(out, m);
        proof {
            assert(out@ =~= old(out)@ + int_chars(n as int));
        }
    } else {
        append_dec(out, n as u32);
    }
}

/// The decimal rendering of an integer as a fresh string.
pub fn int_string(n: i32) -> (r: String)
    ensures
        r@ == int_chars(n as int),
{
    let mut out = String::new();
    append_int(&mut out, n);
    out
}

/// `part` occurs contiguously somewhere inside `hay`.
pub open spec fn contains_part(hay: Seq<char>, part: Seq<char>) -> bool {
    exists|k: int|
        0 <= k && k + part.len() <= hay.len()
            && #[trigger] hay.subrange(k, k + part.len() as int) == part
}

pub proof fn lemma_part_refl(s: Seq<char>)
    ensures
        contains_part(s, s),
{
    assert(s.subrange(0, 0 + s.len() as int) =~= s);
}

pub proof fn lemma_part_concat_left(a: Seq<char>, b: Seq<char>, part: Seq<char>)
    requires
        contains_part(a, part),
    ensures
        contains_part(a + b, part),
{
    let k = choose|k: int|
        0 <= k && k + part.len() <= a.len()
            && #[trigger] a.subrange(k, k + part.len() as int) == part;
    assert((a + b).subrange(k, k + part.len() as int) =~= a.subrange(k, k + part.len() as int));
}

pub proof fn lemma_part_concat_right(a: Seq<char>, b: Seq<char>, part: Seq<char>)
    requires
        contains_part(b, part),
    ensures
        contains_part(a + b, part),
{
    let k = choose|k: int|
        0 <= k && k + part.len() <= b.len()
            && #[trigger] b.subrange(k, k + part.len() as int) == part;
    let j = a.len() as int + k;
    assert((a + b).subrange(j, j + part.len() as int) =~= b.subrange(k, k + part.len() as int));
}

pub proof fn lemma_part_trans(hay: Seq<char>, mid: Seq<char>, part: Seq<char>)
    requires
        contains_part(hay, mid),
        contains_part(mid, part),
    ensures
        contains_part(hay, part),
{
    let k1 = choose|k: int|
        0 <= k && k + mid.len() <= hay.len()
            && #[trigger] hay.subrange(k, k + mid.len() as int) == mid;
    let k2 = choose|k: int|
        0 <= k && k + part.len() <= mid.len()
            && #[trigger] mid.subrange(k, k + part.len() as int) == part;
    let j = k1 + k2;
    assert(hay.subrange(j, j + part.len() as int) =~= mid.subrange(k2, k2 + part.len() as int));
}

} // verus!
