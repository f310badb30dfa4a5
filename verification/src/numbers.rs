//! Decimal rendering and parsing of the integers that appear in request
//! paths, XML attributes and the parameter normalizer.
use vstd::prelude::*;
use crate::text::{push_char, split_on};

verus! {

/// The decimal digit character for `d`.
pub open spec fn digit_char(d: int) -> char {
    if d == 0 {
        '0'
    } else if d == 1 {
        '1'
    } else if d == 2 {
        '2'
    } else if d == 3 {
        '3'
    } else if d == 4 {
        '4'
    } else if d == 5 {
        '5'
    } else if d == 6 {
        '6'
    } else if d == 7 {
        '7'
    } else if d == 8 {
        '8'
    } else {
        '9'
    }
}

/// The decimal rendering of `n`, most significant digit first, no sign and
/// no leading zeros (a single `'0'` for zero).
pub open spec fn dec_str(n: nat) -> Seq<char>
    decreases n,
{
    if n < 10 {
        seq![digit_char(n as int)]
    } else {
        dec_str(n / 10) + seq![digit_char((n % 10) as int)]
    }
}

/// The decimal rendering of `n` padded with `'0'` to at least two digits.
pub open spec fn pad2_str(n: nat) -> Seq<char> {
    if n < 10 {
        seq!['0'] + dec_str(n)
    } else {
        dec_str(n)
    }
}

fn digit_to_char(d: u64) -> (c: char)
    requires
        d < 10,
    ensures
        c == digit_char(d as int),
{
    match d {
        0 => '0',
        1 => '1',
        2 => '2',
        3 => '3',
        4 => '4',
        5 => '5',
        6 => '6',
        7 => '7',
        8 => '8',
        _ => '9',
    }
}

/// Renders `n` in decimal.
pub fn u64_to_string(n: u64) -> (r: String)
    ensures
        r@ == dec_str(n as nat),
    decreases n,
{
    if n < 10 {
        let mut s = String::new();
        push_char(&mut s, digit_to_char(n));
        proof {
            assert(s@ =~= dec_str(n as nat));
        }
        s
    } else {
        let mut s = u64_to_string(n / 10);
        push_char(&mut s, digit_to_char(n % 10));
        proof {
            assert(s@ =~= dec_str(n as nat));
        }
        s
    }
}

/// Renders `n` in decimal.
pub fn u32_to_string(n: u32) -> (r: String)
    ensures
        r@ == dec_str(n as nat),
{
    u64_to_string(n as u64)
}

/// Renders `n` in decimal, padded to at least two digits.
pub fn u32_to_padded2(n: u32) -> (r: String)
    ensures
        r@ == pad2_str(n as nat),
{
    if n < 10 {
        let mut s = String::new();
        push_char(&mut s, '0');
        push_char(&mut s, digit_to_char(n as u64));
        proof {
            assert(s@ =~= pad2_str(n as nat));
        }
        s
    } else {
        u64_to_string(n as u64)
    }
}

/// Whether `c` is a decimal digit.
pub open spec fn is_digit(c: char) -> bool {
    '0' <= c && c <= '9'
}

/// The value of the digit `c`; meaningful only when `is_digit(c)`.
pub open spec fn digit_val(c: char) -> nat {
    (c as int - '0' as int) as nat
}

/// The value of the digit character `c`.
fn digit_value(c: char) -> (d: u64)
    requires
        is_digit(c),
    ensures
        d == digit_val(c),
{
    match c {
        '0' => 0,
        '1' => 1,
        '2' => 2,
        '3' => 3,
        '4' => 4,
        '5' => 5,
        '6' => 6,
        '7' => 7,
        '8' => 8,
        _ => 9,
    }
}

/// Whether every character of `s` is a decimal digit.
pub open spec fn all_digits(s: Seq<char>) -> bool {
    forall|i: int| 0 <= i < s.len() ==> is_digit(#[trigger] s[i])
}

/// The number denoted by the digit string `s`, most significant digit first.
pub open spec fn dec_val(s: Seq<char>) -> nat
    decreases s.len(),
{
    if s.len() == 0 {
        0
    } else {
        dec_val(s.drop_last()) * 10 + digit_val(s.last())
    }
}

/// What a token contributes when read as a `u32`: a value exactly when the
/// token is non-empty, all digits, and in range; nothing otherwise.
pub open spec fn parse_u32_spec(s: Seq<char>) -> Option<u32> {
    if s.len() > 0 && all_digits(s) && dec_val(s) <= u32::MAX {
        Some(dec_val(s) as u32)
    } else {
        None
    }
}

proof fn lemma_dec_val_prefix(s: Seq<char>, k: int)
    requires
        0 <= k <= s.len(),
    ensures
        dec_val(s.subrange(0, k)) <= dec_val(s),
    decreases s.len() - k,
{
    if k < s.len() {
        lemma_dec_val_prefix(s, k + 1);
        let p = s.subrange(0, k + 1);
        assert(p.drop_last() =~= s.subrange(0, k));
        assert(dec_val(s.subrange(0, k)) * 10 + digit_val(p.last()) >= dec_val(
            s.subrange(0, k),
        ));
    } else {
        assert(s.subrange(0, k) =~= s);
    }
}

/// Reads `t` as a `u32`, exactly as `parse_u32_spec` describes.
pub fn parse_u32_chars(t: &Vec<char>) -> (r: Option<u32>)
    ensures
        r == parse_u32_spec(t@),
{
    if t.len() == 0 {
        return None;
    }
    let mut acc: u64 = 0;
    let mut i: usize = 0;
    while i < t.len()
        invariant
            i <= t@.len(),
            acc <= u32::MAX,
            acc == dec_val(t@.subrange(0, i as int)),
            all_digits(t@.subrange(0, i as int)),
        decreases t@.len() - i,
    {
        let ghost prev = t@.subrange(0, i as int);
        let c = t[i];
        if c < '0' || c > '9' {
            assert(!is_digit(t@[i as int]));
            return None;
        }
        let d = digit_value(c);
        acc = acc * 10 + d;
        i = i + 1;
        proof {
            let step = t@.subrange(0, i as int);
            assert(step.drop_last() =~= prev);
            assert(step.last() == t@[i - 1]);
        }
        if acc > u32::MAX as u64 {
            proof {
                lemma_dec_val_prefix(t@, i as int);
                assert(t@.subrange(0, t@.len() as int) =~= t@);
            }
            return None;
        }
    }
    proof {
        assert(t@.subrange(0, t@.len() as int) =~= t@);
    }
    Some(acc as u32)
}

/// The numeric tokens among `tokens`, each read as a `u32`, order preserved,
/// non-numeric tokens dropped.
pub open spec fn numeric_values(tokens: Seq<Seq<char>>) -> Seq<u32>
    decreases tokens.len(),
{
    if tokens.len() == 0 {
        Seq::<u32>::empty()
    } else {
        numeric_values(tokens.drop_last()) + match parse_u32_spec(tokens.last()) {
            Some(v) => seq![v],
            None => Seq::<u32>::empty(),
        }
    }
}

/// The numbers found in the comma-separated string `s`: tokens that read as
/// a `u32` are kept in order, all other tokens are dropped silently.
pub open spec fn csv_u32(s: Seq<char>) -> Seq<u32> {
    numeric_values(split_on(s, ','))
}

/// Reads the comma-separated tokens of `s`, keeping the numeric ones.
pub fn parse_csv_u32(s: &str) -> (r: Vec<u32>)
    ensures
        r@ == csv_u32(s@),
{
    let tokens = crate::text::split_str(s, ',');
    let mut out: Vec<u32> = Vec::new();
    let mut i: usize = 0;
    while i < tokens.len()
        invariant
            i <= tokens@.len(),
            tokens.deep_view() == split_on(s@, ','),
            out@ == numeric_values(tokens.deep_view().subrange(0, i as int)),
        decreases tokens@.len() - i,
    {
        let ghost prev = tokens.deep_view().subrange(0, i as int);
        let cs = crate::text::chars_vec(tokens[i].as_str());
        match parse_u32_chars(&cs) {
            Some(v) => {
                out.push(v);
            },
            None => {},
        }
        i = i + 1;
        proof {
            let step = tokens.deep_view().subrange(0, i as int);
            assert(step.drop_last() =~= prev);
            assert(step.last() == tokens.deep_view()[i - 1]);
            assert(out@ =~= numeric_values(step));
        }
    }
    proof {
        assert(tokens.deep_view().subrange(0, tokens.deep_view().len() as int)
            =~= tokens.deep_view());
    }
    out
}

} // verus!
