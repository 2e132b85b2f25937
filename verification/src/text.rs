//! Verified text formatting: space and zero padding, and decimal
//! rendering of unsigned numbers. The dashboard uses these to lay out
//! fixed-width columns and the elapsed-time counter of the status line.

use vstd::prelude::*;
use vstd::string::StrSliceExecFns;
use vstd::string::StringExecFns;

verus! {

/// The views of a sequence of strings.
pub open spec fn str_views(s: Seq<String>) -> Seq<Seq<char>> {
    s.map_values(|x: String| x@)
}

/// A run of `n` spaces.
pub open spec fn spec_spaces(n: nat) -> Seq<char>
    decreases n,
{
    if n == 0 {
        Seq::empty()
    } else {
        spec_spaces((n - 1) as nat) + seq![' ']
    }
}

/// A run of `n` zero digits.
pub open spec fn spec_zeros(n: nat) -> Seq<char>
    decreases n,
{
    if n == 0 {
        Seq::empty()
    } else {
        spec_zeros((n - 1) as nat) + seq!['0']
    }
}

/// `s` padded with trailing spaces to at least `width` characters.
pub open spec fn spec_pad_right(s: Seq<char>, width: nat) -> Seq<char> {
    if s.len() >= width {
        s
    } else {
        s + spec_spaces((width - s.len()) as nat)
    }
}

/// `s` padded with leading spaces to at least `width` characters.
pub open spec fn spec_pad_left(s: Seq<char>, width: nat) -> Seq<char> {
    if s.len() >= width {
        s
    } else {
        spec_spaces((width - s.len()) as nat) + s
    }
}

/// `s` padded with leading zeros to at least `width` characters.
pub open spec fn spec_zero_pad_left(s: Seq<char>, width: nat) -> Seq<char> {
    if s.len() >= width {
        s
    } else {
        spec_zeros((width - s.len()) as nat) + s
    }
}

/// The character of one decimal digit.
pub open spec fn spec_digit_char(d: nat) -> char {
    if d == 0 {
        '0'
    } else if d == 1 {
        '1'
    } else if d == 2 {
        '2'
    } else if d == 3 {
        '3'
    } else if d == 4 {
        '4'
    } else if d == 5 {
        '5'
    } else if d == 6 {
        '6'
    } else if d == 7 {
        '7'
    } else if d == 8 {
        '8'
    } else {
        '9'
    }
}

/// The decimal digits of `n`, most significant first, without leading
/// zeros (`0` itself is the single digit `0`).
pub open spec fn spec_decimal(n: nat) -> Seq<char>
    decreases n,
{
    if n < 10 {
        seq![spec_digit_char(n)]
    } else {
        spec_decimal(n / 10) + seq![spec_digit_char(n % 10)]
    }
}

/// Append one decimal digit to `out`.
fn push_digit(d: u64, out: &mut String)
    requires
        d < 10,
    ensures
        final(out)@ == old(out)@ + seq![spec_digit_char(d as nat)],
{
    proof {
        reveal_strlit("0");
        reveal_strlit("1");
        reveal_strlit("2");
        reveal_strlit("3");
        reveal_strlit("4");
        reveal_strlit("5");
        reveal_strlit("6");
        reveal_strlit("7");
        reveal_strlit("8");
        reveal_strlit("9");
    }
    match d {
        0 => out.append("0"),
        1 => out.append("1"),
        2 => out.append("2"),
        3 => out.append("3"),
        4 => out.append("4"),
        5 => out.append("5"),
        6 => out.append("6"),
        7 => out.append("7"),
        8 => out.append("8"),
        _ => out.append("9"),
    }
    proof {
        assert(final(out)@ =~= old(out)@ + seq![spec_digit_char(d as nat)]);
    }
}

/// Append the decimal rendering of `n` to `out`.
pub fn push_decimal(n: u64, out: &mut String)
    ensures
        final(out)@ == old(out)@ + spec_decimal(n as nat),
    decreases n,
{
    if n < 10 {
        push_digit(n, out);
    } else {
        push_decimal(n / 10, out);
        push_digit(n % 10, out);
        proof {
            assert(final(out)@ =~= old(out)@ + spec_decimal(n as nat));
        }
    }
}

/// The decimal rendering of `n`.
pub fn u64_to_string(n: u64) -> (r: String)
    ensures
        r@ == spec_decimal(n as nat),
{
    let mut out = String::new();
    push_decimal(n, &mut out);
    proof {
        assert(out@ =~= spec_decimal(n as nat));
    }
    out
}

/// `s` with trailing spaces appended until it is at least `width`
/// characters wide; a wider `s` comes back unchanged.
pub fn pad_right(s: &String, width: usize) -> (r: String)
    ensures
        r@ == spec_pad_right(s@, width as nat),
{
    let mut r = s.clone();
    let n = r.as_str().unicode_len();
    if n >= width {
        return r;
    }
    let mut i = n;
    while i < width
        invariant
            n <= i <= width,
            n == s@.len(),
            r@ == s@ + spec_spaces((i - n) as nat),
        decreases width - i,
    {
        r.append(" ");
        proof {
            reveal_strlit(" ");
            assert(r@ =~= s@ + spec_spaces((i + 1 - n) as nat));
        }
        i = i + 1;
    }
    r
}

/// A run of `n` spaces as a string.
fn spaces_string(n: usize) -> (r: String)
    ensures
        r@ == spec_spaces(n as nat),
{
    let mut r = String::new();
    let mut i: usize = 0;
    while i < n
        invariant
            i <= n,
            r@ == spec_spaces(i as nat),
        decreases n - i,
    {
        r.append(" ");
        proof {
            reveal_strlit(" ");
            assert(r@ =~= spec_spaces((i + 1) as nat));
        }
        i = i + 1;
    }
    r
}

/// A run of `n` zero digits as a string.
fn zeros_string(n: usize) -> (r: String)
    ensures
        r@ == spec_zeros(n as nat),
{
    let mut r = String::new();
    let mut i: usize = 0;
    while i < n
        invariant
            i <= n,
            r@ == spec_zeros(i as nat),
        decreases n - i,
    {
        r.append("0");
        proof {
            reveal_strlit("0");
            assert(r@ =~= spec_zeros((i + 1) as nat));
        }
        i = i + 1;
    }
    r
}

/// `s` with leading spaces prepended until it is at least `width`
/// characters wide; a wider `s` comes back unchanged.
pub fn pad_left(s: &String, width: usize) -> (r: String)
    ensures
        r@ == spec_pad_left(s@, width as nat),
{
    let n = s.as_str().unicode_len();
    if n >= width {
        return s.clone();
    }
    let mut r = spaces_string(width - n);
    r.append(s.as_str());
    r
}

/// `s` with leading zeros prepended until it is at least `width`
/// characters wide; a wider `s` comes back unchanged.
pub fn zero_pad_left(s: &String, width: usize) -> (r: String)
    ensures
        r@ == spec_zero_pad_left(s@, width as nat),
{
    let n = s.as_str().unicode_len();
    if n >= width {
        return s.clone();
    }
    let mut r = zeros_string(width - n);
    r.append(s.as_str());
    r
}

} // verus!
