//! Lowercase hexadecimal rendering and parsing of unsigned values.
//!
//! An identifier renders as a run of hex digits per field, zero-padded to a
//! fixed minimum width but never truncated. This module gives the rendering
//! and the inverse parse, together with the lemmas that make the encoding
//! reversible.

use vstd::prelude::*;

verus! {

/// The sixteen lowercase hex digit characters, by value.
pub open spec fn hex_digit_char(d: nat) -> char {
    if d == 0 {
        '0'
    } else if d == 1 {
        '1'
    } else if d == 2 {
        '2'
    } else if d == 3 {
        '3'
    } else if d == 4 {
        '4'
    } else if d == 5 {
        '5'
    } else if d == 6 {
        '6'
    } else if d == 7 {
        '7'
    } else if d == 8 {
        '8'
    } else if d == 9 {
        '9'
    } else if d == 10 {
        'a'
    } else if d == 11 {
        'b'
    } else if d == 12 {
        'c'
    } else if d == 13 {
        'd'
    } else if d == 14 {
        'e'
    } else {
        'f'
    }
}

pub open spec fn is_hex_digit(c: char) -> bool {
    c == '0' || c == '1' || c == '2' || c == '3' || c == '4' || c == '5' || c == '6' || c == '7'
        || c == '8' || c == '9' || c == 'a' || c == 'b' || c == 'c' || c == 'd' || c == 'e'
        || c == 'f'
}

/// Numeric value of a hex digit character (16 on a non-digit).
pub open spec fn hex_char_value(c: char) -> nat {
    if c == '0' {
        0
    } else if c == '1' {
        1
    } else if c == '2' {
        2
    } else if c == '3' {
        3
    } else if c == '4' {
        4
    } else if c == '5' {
        5
    } else if c == '6' {
        6
    } else if c == '7' {
        7
    } else if c == '8' {
        8
    } else if c == '9' {
        9
    } else if c == 'a' {
        10
    } else if c == 'b' {
        11
    } else if c == 'c' {
        12
    } else if c == 'd' {
        13
    } else if c == 'e' {
        14
    } else if c == 'f' {
        15
    } else {
        16
    }
}

/// Hex rendering of `v`, zero-padded on the left to at least `width` digits
/// and never truncated: the result is exactly `width` digits when `v` fits,
/// and as many digits as `v` needs otherwise.
pub open spec fn spec_hex_render(v: nat, width: nat) -> Seq<char>
    decreases v, width,
{
    if v < 16 && width <= 1 {
        seq![hex_digit_char(v)]
    } else {
        spec_hex_render(v / 16, if width == 0 {
            0
        } else {
            (width - 1) as nat
        }).push(hex_digit_char(v % 16))
    }
}

/// Value of a run of hex digit characters, most significant first.
pub open spec fn spec_hex_value(s: Seq<char>) -> nat
    decreases s.len(),
{
    if s.len() == 0 {
        0
    } else {
        spec_hex_value(s.drop_last()) * 16 + hex_char_value(s.last())
    }
}

pub open spec fn all_hex_digits(s: Seq<char>) -> bool {
    forall|i: int| 0 <= i < s.len() ==> is_hex_digit(#[trigger] s[i])
}

/// Sixteen to the `n`: the number of `n`-digit strings, hence the bound on
/// the value an `n`-digit run can carry.
pub open spec fn pow16(n: nat) -> nat
    decreases n,
{
    if n == 0 {
        1
    } else {
        16 * pow16((n - 1) as nat)
    }
}

pub proof fn lemma_hex_digit_char_value(d: nat)
    requires
        d < 16,
    ensures
        hex_char_value(hex_digit_char(d)) == d,
        is_hex_digit(hex_digit_char(d)),
{
}

/// Rendering reverses: parsing a rendering gives the value back.
pub proof fn lemma_hex_value_of_render(v: nat, width: nat)
    ensures
        spec_hex_value(spec_hex_render(v, width)) == v,
    decreases v, width,
{
    if v < 16 && width <= 1 {
        lemma_hex_digit_char_value(v);
        let s = spec_hex_render(v, width);
        assert(s == seq![hex_digit_char(v)]);
        assert(s.len() == 1);
        assert(s.last() == hex_digit_char(v));
        assert(s.drop_last() =~= Seq::<char>::empty());
        assert(spec_hex_value(s.drop_last()) == 0);
        assert(spec_hex_value(s) == hex_char_value(hex_digit_char(v)));
    } else {
        let w2: nat = if width == 0 {
            0
        } else {
            (width - 1) as nat
        };
        lemma_hex_value_of_render(v / 16, w2);
        lemma_hex_digit_char_value(v % 16);
        let prefix = spec_hex_render(v / 16, w2);
        let s = prefix.push(hex_digit_char(v % 16));
        assert(s.drop_last() =~= prefix);
        assert(s.last() == hex_digit_char(v % 16));
        assert(spec_hex_value(s) == (v / 16) * 16 + v % 16);
        assert(v == (v / 16) * 16 + v % 16);
    }
}

/// A rendering consists of hex digit characters only.
pub proof fn lemma_hex_render_digits(v: nat, width: nat)
    ensures
        all_hex_digits(spec_hex_render(v, width)),
    decreases v, width,
{
    if v < 16 && width <= 1 {
        lemma_hex_digit_char_value(v);
    } else {
        let w2: nat = if width == 0 {
            0
        } else {
            (width - 1) as nat
        };
        lemma_hex_render_digits(v / 16, w2);
        lemma_hex_digit_char_value(v % 16);
        let prefix = spec_hex_render(v / 16, w2);
        assert forall|i: int| 0 <= i < prefix.push(hex_digit_char(v % 16)).len() implies is_hex_digit(
            #[trigger] prefix.push(hex_digit_char(v % 16))[i],
        ) by {
            if i < prefix.len() {
                assert(is_hex_digit(prefix[i]));
            }
        }
    }
}

/// A rendering is never shorter than the requested width, and is exactly the
/// requested width when the value fits in that many digits.
pub proof fn lemma_hex_render_len(v: nat, width: nat)
    ensures
        spec_hex_render(v, width).len() >= width,
        spec_hex_render(v, width).len() >= 1,
        width >= 1 && v < pow16(width) ==> spec_hex_render(v, width).len() == width,
    decreases v, width,
{
    if v < 16 && width <= 1 {
    } else {
        let w2: nat = if width == 0 {
            0
        } else {
            (width - 1) as nat
        };
        lemma_hex_render_len(v / 16, w2);
        if width >= 1 && v < pow16(width) {
            if width == 1 {
                assert(pow16(1nat) == 16) by {
                    assert(pow16(0nat) == 1);
                }
                assert(v < 16);
            } else {
                if v / 16 >= pow16(w2) {
                    assert((v / 16) * 16 >= pow16(w2) * 16) by (nonlinear_arith)
                        requires
                            v / 16 >= pow16(w2),
                    ;
                    assert(v == (v / 16) * 16 + v % 16);
                    assert(pow16(width) == 16 * pow16(w2));
                    assert(false);
                }
            }
        }
    }
}

/// The value a run of digits carries is below sixteen to its length.
pub proof fn lemma_hex_value_bound(s: Seq<char>)
    requires
        all_hex_digits(s),
    ensures
        spec_hex_value(s) < pow16(s.len()),
    decreases s.len(),
{
    if s.len() == 0 {
    } else {
        assert forall|i: int| 0 <= i < s.drop_last().len() implies is_hex_digit(
            #[trigger] s.drop_last()[i],
        ) by {
            assert(is_hex_digit(s[i]));
        }
        lemma_hex_value_bound(s.drop_last());
        let p = spec_hex_value(s.drop_last());
        assert(is_hex_digit(s[s.len() - 1]));
        assert(hex_char_value(s.last()) <= 15);
        assert(p * 16 <= (pow16((s.len() - 1) as nat) - 1) * 16) by (nonlinear_arith)
            requires
                p <= pow16((s.len() - 1) as nat) - 1,
        ;
        assert(pow16(s.len()) == 16 * pow16((s.len() - 1) as nat));
    }
}

/// Extending a digit run on the right never decreases its value.
pub proof fn lemma_hex_value_prefix(s: Seq<char>, i: int)
    requires
        0 <= i <= s.len(),
    ensures
        spec_hex_value(s.subrange(0, i)) <= spec_hex_value(s),
    decreases s.len(),
{
    if i == s.len() {
        assert(s.subrange(0, i) =~= s);
    } else {
        lemma_hex_value_prefix(s.drop_last(), i);
        assert(s.drop_last().subrange(0, i) =~= s.subrange(0, i));
        assert(spec_hex_value(s.drop_last()) * 16 >= spec_hex_value(s.drop_last())) by (nonlinear_arith);
    }
}

fn hex_digit_exec(d: u8) -> (c: char)
    requires
        d < 16,
    ensures
        c == hex_digit_char(d as nat),
{
    if d == 0 {
        '0'
    } else if d == 1 {
        '1'
    } else if d == 2 {
        '2'
    } else if d == 3 {
        '3'
    } else if d == 4 {
        '4'
    } else if d == 5 {
        '5'
    } else if d == 6 {
        '6'
    } else if d == 7 {
        '7'
    } else if d == 8 {
        '8'
    } else if d == 9 {
        '9'
    } else if d == 10 {
        'a'
    } else if d == 11 {
        'b'
    } else if d == 12 {
        'c'
    } else if d == 13 {
        'd'
    } else if d == 14 {
        'e'
    } else {
        'f'
    }
}

fn is_hex_digit_exec(c: char) -> (r: bool)
    ensures
        r == is_hex_digit(c),
{
    c == '0' || c == '1' || c == '2' || c == '3' || c == '4' || c == '5' || c == '6' || c == '7'
        || c == '8' || c == '9' || c == 'a' || c == 'b' || c == 'c' || c == 'd' || c == 'e'
        || c == 'f'
}

fn hex_char_value_exec(c: char) -> (r: u8)
    requires
        is_hex_digit(c),
    ensures
        r as nat == hex_char_value(c),
{
    if c == '0' {
        0
    } else if c == '1' {
        1
    } else if c == '2' {
        2
    } else if c == '3' {
        3
    } else if c == '4' {
        4
    } else if c == '5' {
        5
    } else if c == '6' {
        6
    } else if c == '7' {
        7
    } else if c == '8' {
        8
    } else if c == '9' {
        9
    } else if c == 'a' {
        10
    } else if c == 'b' {
        11
    } else if c == 'c' {
        12
    } else if c == 'd' {
        13
    } else if c == 'e' {
        14
    } else {
        15
    }
}

/// Renders `v` as lowercase hex, zero-padded to at least `width` digits.
pub fn hex_render(v: u128, width: usize) -> (r: Vec<char>)
    ensures
        r@ == spec_hex_render(v as nat, width as nat),
    decreases v, width,
{
    if v < 16 && width <= 1 {
        let mut r: Vec<char> = Vec::new();
        r.push(hex_digit_exec(v as u8));
        assert(r@ =~= seq![hex_digit_char(v as nat)]);
        r
    } else {
        let w2: usize = if width == 0 {
            0
        } else {
            width - 1
        };
        let mut r = hex_render(v / 16, w2);
        r.push(hex_digit_exec((v % 16) as u8));
        assert(r@ =~= spec_hex_render((v as nat) / 16, w2 as nat).push(
            hex_digit_char((v as nat) % 16),
        ));
        r
    }
}

/// Parses the digit run `s[from..to]` as hex. Returns the value, or `None`
/// when a character is not a lowercase hex digit or the value exceeds
/// `u128::MAX`.
pub fn hex_parse_range(s: &Vec<char>, from: usize, to: usize) -> (r: Option<u128>)
    requires
        from <= to <= s@.len(),
    ensures
        match r {
            Some(v) => all_hex_digits(s@.subrange(from as int, to as int)) && v as nat
                == spec_hex_value(s@.subrange(from as int, to as int)),
            None => !all_hex_digits(s@.subrange(from as int, to as int)) || spec_hex_value(
                s@.subrange(from as int, to as int),
            ) > u128::MAX,
        },
{
    let mut acc: u128 = 0;
    let mut i: usize = from;
    while i < to
        invariant
            from <= i <= to <= s@.len(),
            all_hex_digits(s@.subrange(from as int, i as int)),
            acc as nat == spec_hex_value(s@.subrange(from as int, i as int)),
        decreases to - i,
    {
        let c = s[i];
        if !is_hex_digit_exec(c) {
            proof {
                let whole = s@.subrange(from as int, to as int);
                assert(whole[i - from] == c);
            }
            return None;
        }
        let d = hex_char_value_exec(c);
        let ghost prefix = s@.subrange(from as int, i as int);
        let ghost next = s@.subrange(from as int, i as int + 1);
        proof {
            assert(next.drop_last() =~= prefix);
            assert(next.last() == c);
        }
        let widened = match acc.checked_mul(16) {
            Some(x) => x.checked_add(d as u128),
            None => None,
        };
        match widened {
            Some(y) => {
                acc = y;
            },
            None => {
                proof {
                    let whole = s@.subrange(from as int, to as int);
                    assert(spec_hex_value(next) == acc as nat * 16 + hex_char_value(c));
                    lemma_hex_value_prefix(whole, i as int + 1 - from);
                    assert(whole.subrange(0, i as int + 1 - from) =~= next);
                }
                return None;
            },
        }
        i = i + 1;
        proof {
            assert forall|k: int| 0 <= k < next.len() implies is_hex_digit(#[trigger] next[k]) by {
                if k < prefix.len() {
                    assert(is_hex_digit(prefix[k]));
                }
            }
        }
    }
    proof {
        assert(s@.subrange(from as int, i as int) =~= s@.subrange(from as int, to as int));
    }
    Some(acc)
}

} // verus!
