//! The identifier value and its rendered form.
//!
//! An identifier renders as four lowercase hex fields with no separators:
//! timestamp (at least 16 digits), worker id (4), sequence (2), usage tag
//! (2); each field is zero-padded to its minimum width but never truncated.
//! Decoding splits the string from the right, since only the timestamp field
//! can exceed its minimum width.

use vstd::prelude::*;

use crate::hex::all_hex_digits;
use crate::hex::hex_parse_range;
use crate::hex::hex_render;
use crate::hex::lemma_hex_render_digits;
use crate::hex::lemma_hex_render_len;
use crate::hex::lemma_hex_value_bound;
use crate::hex::lemma_hex_value_of_render;
use crate::hex::pow16;
use crate::hex::spec_hex_render;
use crate::hex::spec_hex_value;

verus! {

/// A generated identifier. Two identifiers from processes that share a
/// coordinator are equal only if their (timestamp, worker id, sequence)
/// triples are equal.
#[derive(Clone, Copy, PartialEq, Eq, Structural)]
pub struct Snowflake {
    /// Nanoseconds since the epoch at generation time.
    pub timestamp: u128,
    /// The worker identity the coordinator assigned to this process.
    pub worker_id: u16,
    /// Anti-collision counter for identifiers sharing a timestamp.
    pub sequence_id: u8,
    /// Caller-supplied tag partitioning identifiers by purpose.
    pub usage_id: u8,
}

impl Snowflake {
    /// The rendered form: timestamp, worker id, sequence and usage tag as
    /// concatenated hex runs of minimum widths 16, 4, 2 and 2.
    pub open spec fn spec_render(self) -> Seq<char> {
        spec_hex_render(self.timestamp as nat, 16) + spec_hex_render(self.worker_id as nat, 4)
            + spec_hex_render(self.sequence_id as nat, 2) + spec_hex_render(self.usage_id as nat, 2)
    }

    /// Renders the identifier as a run of lowercase hex characters.
    pub fn as_hex_chars(&self) -> (r: Vec<char>)
        ensures
            r@ == self.spec_render(),
    {
        let mut r = hex_render(self.timestamp, 16);
        let mut b = hex_render(self.worker_id as u128, 4);
        let mut c = hex_render(self.sequence_id as u128, 2);
        let mut d = hex_render(self.usage_id as u128, 2);
        r.append(&mut b);
        r.append(&mut c);
        r.append(&mut d);
        r
    }

    /// Renders the identifier as a lowercase hex string.
    pub fn as_hex_string(&self) -> (r: String)
        ensures
            r@ == self.spec_render(),
    {
        let chars = self.as_hex_chars();
        chars_to_string(&chars)
    }
}

/// Relies on `String: FromIterator<char>`: collecting characters yields a
/// string of exactly those characters, in order.
#[verifier::external_body]
fn chars_to_string(v: &Vec<char>) -> (r: String)
    ensures
        r@ == v@,
{
    v.iter().collect()
}

/// What a character run decodes to: the identifier it is the rendering of,
/// if it is one. The worker id, sequence and usage fields are the last
/// 4, 2 and 2 characters; the timestamp field is the rest.
pub open spec fn spec_decode(s: Seq<char>) -> Option<Snowflake> {
    if s.len() < 24 || !all_hex_digits(s) {
        None
    } else {
        let tlen = s.len() - 8;
        let ts = spec_hex_value(s.subrange(0, tlen as int));
        let wid = spec_hex_value(s.subrange(tlen as int, tlen as int + 4));
        let sq = spec_hex_value(s.subrange(tlen as int + 4, tlen as int + 6));
        let us = spec_hex_value(s.subrange(tlen as int + 6, tlen as int + 8));
        if ts <= u128::MAX && wid <= u16::MAX && sq <= u8::MAX && us <= u8::MAX {
            Some(
                Snowflake {
                    timestamp: ts as u128,
                    worker_id: wid as u16,
                    sequence_id: sq as u8,
                    usage_id: us as u8,
                },
            )
        } else {
            None
        }
    }
}

/// Decodes a rendered identifier back into its four fields.
pub fn decode_hex_chars(s: &Vec<char>) -> (r: Option<Snowflake>)
    ensures
        r == spec_decode(s@),
{
    let n = s.len();
    if n < 24 {
        return None;
    }
    let tlen = n - 8;
    let ts = hex_parse_range(s, 0, tlen);
    let wid = hex_parse_range(s, tlen, tlen + 4);
    let sq = hex_parse_range(s, tlen + 4, tlen + 6);
    let us = hex_parse_range(s, tlen + 6, tlen + 8);
    proof {
        lemma_decode_split(s@);
    }
    match (ts, wid, sq, us) {
        (Some(t), Some(w), Some(q), Some(u)) => {
            proof {
                lemma_hex_value_bound(s@.subrange(tlen as int, tlen as int + 4));
                lemma_hex_value_bound(s@.subrange(tlen as int + 4, tlen as int + 6));
                lemma_hex_value_bound(s@.subrange(tlen as int + 6, tlen as int + 8));
                lemma_pow16_small();
            }
            Some(
                Snowflake {
                    timestamp: t,
                    worker_id: w as u16,
                    sequence_id: q as u8,
                    usage_id: u as u8,
                },
            )
        },
        _ => None,
    }
}

/// The concrete values of the small powers of sixteen the field widths use.
proof fn lemma_pow16_small()
    ensures
        pow16(2) == 256,
        pow16(4) == 0x10000,
{
    assert(pow16(0) == 1);
    assert(pow16(1) == 16);
    assert(pow16(2) == 256);
    assert(pow16(3) == 4096);
    assert(pow16(4) == 0x10000);
}

/// A run of at least 24 characters is all hex digits exactly when its four
/// field subranges are.
proof fn lemma_decode_split(s: Seq<char>)
    requires
        s.len() >= 24,
    ensures
        all_hex_digits(s) <==> (all_hex_digits(s.subrange(0, s.len() - 8)) && all_hex_digits(
            s.subrange(s.len() - 8, s.len() - 4),
        ) && all_hex_digits(s.subrange(s.len() - 4, s.len() - 2)) && all_hex_digits(
            s.subrange(s.len() - 2, s.len() as int),
        )),
{
    let tlen = s.len() - 8;
    if all_hex_digits(s.subrange(0, tlen)) && all_hex_digits(s.subrange(tlen, tlen + 4))
        && all_hex_digits(s.subrange(tlen + 4, tlen + 6)) && all_hex_digits(
        s.subrange(tlen + 6, s.len() as int),
    ) {
        assert forall|i: int| 0 <= i < s.len() implies crate::hex::is_hex_digit(#[trigger] s[i]) by {
            if i < tlen {
                assert(crate::hex::is_hex_digit(s.subrange(0, tlen)[i]));
            } else if i < tlen + 4 {
                assert(crate::hex::is_hex_digit(s.subrange(tlen, tlen + 4)[i - tlen]));
            } else if i < tlen + 6 {
                assert(crate::hex::is_hex_digit(s.subrange(tlen + 4, tlen + 6)[i - tlen - 4]));
            } else {
                assert(crate::hex::is_hex_digit(s.subrange(tlen + 6, s.len() as int)[i - tlen - 6]));
            }
        }
    }
}

/// Law (format shape): a rendered identifier always decodes back to exactly
/// the fields it was built from.
pub proof fn lemma_render_round_trip(s: Snowflake)
    ensures
        spec_decode(s.spec_render()) == Some(s),
{
    let a = spec_hex_render(s.timestamp as nat, 16);
    let b = spec_hex_render(s.worker_id as nat, 4);
    let c = spec_hex_render(s.sequence_id as nat, 2);
    let d = spec_hex_render(s.usage_id as nat, 2);
    let whole = s.spec_render();
    lemma_hex_render_len(s.timestamp as nat, 16);
    lemma_pow16_small();
    lemma_hex_render_len(s.worker_id as nat, 4);
    lemma_hex_render_len(s.sequence_id as nat, 2);
    lemma_hex_render_len(s.usage_id as nat, 2);
    assert(b.len() == 4);
    assert(c.len() == 2);
    assert(d.len() == 2);
    let tlen = whole.len() - 8;
    assert(a.len() == tlen);
    assert(whole.subrange(0, tlen) =~= a);
    assert(whole.subrange(tlen, tlen + 4) =~= b);
    assert(whole.subrange(tlen + 4, tlen + 6) =~= c);
    assert(whole.subrange(tlen + 6, tlen + 8) =~= d);
    lemma_hex_render_digits(s.timestamp as nat, 16);
    lemma_hex_render_digits(s.worker_id as nat, 4);
    lemma_hex_render_digits(s.sequence_id as nat, 2);
    lemma_hex_render_digits(s.usage_id as nat, 2);
    lemma_decode_split(whole);
    lemma_hex_value_of_render(s.timestamp as nat, 16);
    lemma_hex_value_of_render(s.worker_id as nat, 4);
    lemma_hex_value_of_render(s.sequence_id as nat, 2);
    lemma_hex_value_of_render(s.usage_id as nat, 2);
}

/// Law (format shape, injectivity): identifiers that render to the same
/// string are the same identifier, so distinct field tuples render to
/// distinct strings.
pub proof fn lemma_render_injective(a: Snowflake, b: Snowflake)
    requires
        a.spec_render() == b.spec_render(),
    ensures
        a == b,
{
    lemma_render_round_trip(a);
    lemma_render_round_trip(b);
}

} // verus!
