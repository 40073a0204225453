//! Character and string helpers shared by the classifier and the log-line
//! renderers: ASCII lowercasing, path joining, and decimal rendering.

use vstd::prelude::*;
use vstd::string::StrSliceExecFns;
use vstd::string::StringExecFns;

verus! {

/// Relies on std's `String::push`: appends the given character to the end of
/// the string.
pub assume_specification[ String::push ](s: &mut String, c: char)
    ensures
        final(s)@ == old(s)@.push(c),
;

/// The ASCII-lowercased form of one character: `A`..`Z` map to `a`..`z`,
/// every other character is unchanged.
pub open spec fn lower_char(c: char) -> char {
    if 65 <= c as u32 && c as u32 <= 90 {
        ((c as u32) + 32) as char
    } else {
        c
    }
}

/// The ASCII-lowercased form of a character sequence, character by character.
pub open spec fn lower_seq(s: Seq<char>) -> Seq<char> {
    s.map_values(|c: char| lower_char(c))
}

/// ASCII-lowercases one character.
pub fn lower_char_exec(c: char) -> (r: char)
    ensures
        r == lower_char(c),
{
    let u: u32 = c as u32;
    if 65 <= u && u <= 90 {
        let b: u8 = (u + 32) as u8;
        b as char
    } else {
        c
    }
}

/// The path formed by placing `sub` below `dir`: a separator is inserted
/// unless `dir` already ends with one.
pub open spec fn spec_join(dir: Seq<char>, sub: Seq<char>) -> Seq<char> {
    if dir.len() > 0 && dir[dir.len() - 1] == '/' {
        dir + sub
    } else {
        dir + seq!['/'] + sub
    }
}

/// Joins a directory path and a name below it, as spelled out by
/// [`spec_join`].
pub fn join_path(dir: &str, sub: &str) -> (r: String)
    ensures
        r@ == spec_join(dir@, sub@),
{
    let n: usize = dir.unicode_len();
    let mut out = String::from_str(dir);
    if n == 0 || dir.get_char(n - 1) != '/' {
        out.push('/');
        proof {
            assert(out@ =~= dir@ + seq!['/']);
        }
    }
    out.append(sub);
    proof {
        if n > 0 && dir@[n - 1] == '/' {
            assert(out@ =~= dir@ + sub@);
        } else {
            assert(out@ =~= dir@ + seq!['/'] + sub@);
        }
    }
    out
}

/// ASCII-lowercases a string, character by character.
pub fn ascii_lowercase(s: &str) -> (r: String)
    ensures
        r@ == lower_seq(s@),
{
    let n: usize = s.unicode_len();
    let mut out = String::new();
    let mut i: usize = 0;
    while i < n
        invariant
            n == s@.len(),
            i <= n,
            out@ == lower_seq(s@.subrange(0, i as int)),
        decreases n - i,
    {
        let c = s.get_char(i);
        out.push(lower_char_exec(c));
        proof {
            assert(s@.subrange(0, i + 1 as int) =~= s@.subrange(0, i as int).push(s@[i as int]));
            assert(out@ =~= lower_seq(s@.subrange(0, i + 1 as int)));
        }
        i = i + 1;
    }
    proof {
        assert(s@.subrange(0, n as int) =~= s@);
    }
    out
}

/// The decimal digit character for one digit value.
pub open spec fn digit_char(d: nat) -> char {
    (48 + d) as char
}

/// The decimal rendering of a number, most significant digit first, with no
/// leading zero except for the number zero itself.
pub open spec fn dec_seq(n: nat) -> Seq<char>
    decreases n,
{
    if n < 10 {
        seq![digit_char(n)]
    } else {
        dec_seq(n / 10).push(digit_char(n % 10))
    }
}

/// A number rendered as exactly two decimal digits, zero-padded; meaningful
/// for numbers below one hundred.
pub open spec fn two_digit_seq(n: nat) -> Seq<char> {
    seq![digit_char(n / 10 % 10), digit_char(n % 10)]
}

/// The decimal rendering of a number, zero-padded on the left to at least
/// four digits.
pub open spec fn dec4_seq(n: nat) -> Seq<char> {
    if n < 10 {
        seq!['0', '0', '0'] + dec_seq(n)
    } else if n < 100 {
        seq!['0', '0'] + dec_seq(n)
    } else if n < 1000 {
        seq!['0'] + dec_seq(n)
    } else {
        dec_seq(n)
    }
}

/// Appends the decimal rendering of `n` to `out`.
pub fn push_decimal(out: &mut String, n: u64)
    ensures
        final(out)@ == old(out)@ + dec_seq(n as nat),
    decreases n,
{
    if n >= 10 {
        push_decimal(out, n / 10);
    }
    let d: u8 = 48 + (n % 10) as u8;
    out.push(d as char);
    proof {
        assert(out@ =~= old(out)@ + dec_seq(n as nat));
    }
}

/// Appends exactly two decimal digits of `n` to `out`, zero-padded.
pub fn push_two_digits(out: &mut String, n: u64)
    requires
        n < 100,
    ensures
        final(out)@ == old(out)@ + two_digit_seq(n as nat),
{
    let hi: u8 = 48 + (n / 10) as u8;
    let lo: u8 = 48 + (n % 10) as u8;
    out.push(hi as char);
    out.push(lo as char);
    proof {
        assert(n / 10 % 10 == n / 10) by (nonlinear_arith)
            requires
                n < 100,
        ;
        assert(out@ =~= old(out)@ + two_digit_seq(n as nat));
    }
}

/// Appends the decimal rendering of `n`, zero-padded on the left to at least
/// four digits, to `out`.
pub fn push_decimal_pad4(out: &mut String, n: u64)
    ensures
        final(out)@ == old(out)@ + dec4_seq(n as nat),
{
    let ghost before = out@;
    if n < 10 {
        out.push('0');
        out.push('0');
        out.push('0');
    } else if n < 100 {
        out.push('0');
        out.push('0');
    } else if n < 1000 {
        out.push('0');
    }
    push_decimal(out, n);
    proof {
        assert(out@ =~= before + dec4_seq(n as nat));
    }
}

/// The decimal rendering of a number as a string.
pub fn decimal_string(n: u64) -> (r: String)
    ensures
        r@ == dec_seq(n as nat),
{
    let mut out = String::new();
    push_decimal(&mut out, n);
    proof {
        assert(out@ =~= dec_seq(n as nat));
    }
    out
}

} // verus!
