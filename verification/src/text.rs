//! Character-sequence helpers shared by the rendering code: saturating
//! arithmetic models, padding, clipping, and decimal formatting.

use vstd::prelude::*;
use vstd::string::StrSliceExecFns;

verus! {

/// Saturating subtraction on unbounded integers: `a - b`, floored at zero.
pub open spec fn sat_sub(a: int, b: int) -> int {
    if a >= b {
        a - b
    } else {
        0
    }
}

/// Saturating addition for `usize` values: `a + b`, capped at `usize::MAX`.
pub open spec fn sat_add_usize(a: int, b: int) -> int {
    if a + b > usize::MAX {
        usize::MAX as int
    } else {
        a + b
    }
}

/// The first `w` characters of `s`, or all of `s` when it is shorter.
pub open spec fn clip(s: Seq<char>, w: int) -> Seq<char> {
    if s.len() <= w {
        s
    } else {
        s.subrange(0, w)
    }
}

/// A run of `n` spaces.
pub open spec fn spaces_seq(n: nat) -> Seq<char> {
    Seq::new(n, |i: int| ' ')
}

/// The digit character for `d`, for `0 <= d < 10`.
pub open spec fn digit_char(d: int) -> char {
    if d == 0 {
        '0'
    } else if d == 1 {
        '1'
    } else if d == 2 {
        '2'
    } else if d == 3 {
        '3'
    } else if d == 4 {
        '4'
    } else if d == 5 {
        '5'
    } else if d == 6 {
        '6'
    } else if d == 7 {
        '7'
    } else if d == 8 {
        '8'
    } else {
        '9'
    }
}

/// The usual decimal notation of `n >= 0`, most significant digit first,
/// without leading zeros (except for `n == 0` itself).
pub open spec fn dec_seq(n: int) -> Seq<char>
    decreases n,
{
    if n < 10 {
        seq![digit_char(n)]
    } else {
        dec_seq(n / 10).push(digit_char(n % 10))
    }
}

/// A vector of `n` spaces.
pub fn spaces(n: usize) -> (v: Vec<char>)
    ensures
        v@ == spaces_seq(n as nat),
{
    let mut v: Vec<char> = Vec::new();
    let mut i: usize = 0;
    while i < n
        invariant
            i <= n,
            v@ =~= spaces_seq(i as nat),
        decreases n - i,
    {
        v.push(' ');
        proof {
            assert(v@ =~= spaces_seq((i + 1) as nat));
        }
        i = i + 1;
    }
    v
}

/// The digit character for `d < 10`.
fn digit(d: usize) -> (c: char)
    requires
        d < 10,
    ensures
        c == digit_char(d as int),
{
    match d {
        0 => '0',
        1 => '1',
        2 => '2',
        3 => '3',
        4 => '4',
        5 => '5',
        6 => '6',
        7 => '7',
        8 => '8',
        _ => '9',
    }
}

/// Formats `n` in decimal.
pub fn dec_chars(n: usize) -> (v: Vec<char>)
    ensures
        v@ == dec_seq(n as int),
    decreases n,
{
    if n < 10 {
        let mut v: Vec<char> = Vec::new();
        v.push(digit(n));
        proof {
            assert(v@ =~= dec_seq(n as int));
        }
        v
    } else {
        let mut v = dec_chars(n / 10);
        v.push(digit(n % 10));
        proof {
            assert(v@ =~= dec_seq(n as int));
        }
        v
    }
}

/// Appends every character of `src` to `dst`.
pub fn push_all(dst: &mut Vec<char>, src: &Vec<char>)
    ensures
        final(dst)@ == old(dst)@ + src@,
{
    let mut i: usize = 0;
    while i < src.len()
        invariant
            i <= src@.len(),
            dst@ =~= old(dst)@ + src@.subrange(0, i as int),
        decreases src@.len() - i,
    {
        dst.push(src[i]);
        proof {
            assert(dst@ =~= old(dst)@ + src@.subrange(0, i + 1));
        }
        i = i + 1;
    }
    proof {
        assert(dst@ =~= old(dst)@ + src@);
    }
}

/// The characters of `s`, in order, as a vector.
pub fn chars_of(s: &str) -> (v: Vec<char>)
    ensures
        v@ == s@,
{
    let n: usize = s.unicode_len();
    let mut v: Vec<char> = Vec::new();
    let mut i: usize = 0;
    while i < n
        invariant
            i <= n,
            n == s@.len(),
            v@ =~= s@.subrange(0, i as int),
        decreases n - i,
    {
        v.push(s.get_char(i));
        proof {
            assert(v@ =~= s@.subrange(0, i + 1));
        }
        i = i + 1;
    }
    proof {
        assert(v@ =~= s@);
    }
    v
}

} // verus!
