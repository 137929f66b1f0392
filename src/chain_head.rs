//! Decoding the chain head that the RPC endpoint reports as hexadecimal text.
//!
//! The text is an optional `0x` prefix followed by one or more hexadecimal
//! digits of either case, with no sign. Its value must fit in an `i64`.

use vstd::prelude::*;
use crate::verdict::{ChainHead, FetchError};

verus! {

/// The text after its `0x` prefix, if it has one.
pub open spec fn digits_of(s: Seq<char>) -> Seq<char> {
    if s.len() >= 2 && s[0] == '0' && s[1] == 'x' {
        s.skip(2)
    } else {
        s
    }
}

pub open spec fn is_hex_digit(c: char) -> bool {
    let u = c as u32;
    (0x30 <= u <= 0x39) || (0x61 <= u <= 0x66) || (0x41 <= u <= 0x46)
}

/// The value of one hexadecimal digit; zero for any other character.
pub open spec fn digit_value(c: char) -> int {
    let u = c as u32;
    if 0x30 <= u <= 0x39 {
        u - 0x30
    } else if 0x61 <= u <= 0x66 {
        u - 0x61 + 10
    } else if 0x41 <= u <= 0x46 {
        u - 0x41 + 10
    } else {
        0
    }
}

/// The value of a sequence of hexadecimal digits, most significant first.
pub open spec fn hex_value(d: Seq<char>) -> int
    decreases d.len(),
{
    if d.len() == 0 {
        0
    } else {
        16 * hex_value(d.drop_last()) + digit_value(d.last())
    }
}

/// The text is an optional `0x` and at least one hexadecimal digit.
pub open spec fn well_formed_hex(s: Seq<char>) -> bool {
    let d = digits_of(s);
    d.len() > 0 && forall|i: int| 0 <= i < d.len() ==> is_hex_digit(#[trigger] d[i])
}

/// The number that well-formed text denotes.
pub open spec fn block_number_of(s: Seq<char>) -> int {
    hex_value(digits_of(s))
}

/// The text is well formed and its value is an `i64`.
pub open spec fn decodable(s: Seq<char>) -> bool {
    well_formed_hex(s) && block_number_of(s) <= i64::MAX
}

proof fn lemma_hex_value_nonnegative(d: Seq<char>)
    ensures
        hex_value(d) >= 0,
    decreases d.len(),
{
    if d.len() > 0 {
        lemma_hex_value_nonnegative(d.drop_last());
    }
}

/// A prefix of a digit sequence is worth no more than the whole.
proof fn lemma_hex_value_prefix(d: Seq<char>, k: int)
    requires
        0 <= k <= d.len(),
    ensures
        hex_value(d.take(k)) <= hex_value(d),
    decreases d.len(),
{
    if k == d.len() {
        assert(d.take(k) =~= d);
    } else {
        lemma_hex_value_prefix(d.drop_last(), k);
        assert(d.drop_last().take(k) =~= d.take(k));
        lemma_hex_value_nonnegative(d.drop_last());
    }
}

fn hex_digit(c: char) -> (r: Option<u8>)
    ensures
        r is Some <==> is_hex_digit(c),
        r matches Some(v) ==> v as int == digit_value(c),
{
    let u = c as u32;
    if 0x30 <= u && u <= 0x39 {
        Some((u - 0x30) as u8)
    } else if 0x61 <= u && u <= 0x66 {
        Some((u - 0x61 + 10) as u8)
    } else if 0x41 <= u && u <= 0x46 {
        Some((u - 0x41 + 10) as u8)
    } else {
        None
    }
}

/// Decodes the chain head from the RPC endpoint's hexadecimal result.
pub fn decode_chain_head(text: &str) -> (r: Result<ChainHead, FetchError>)
    ensures
        r is Ok <==> decodable(text@),
        r matches Ok(head) ==> head.block_height == block_number_of(text@)
            && head.block_height >= 0,
        r matches Err(e) ==> e == FetchError::Decode,
{
    let n = text.unicode_len();
    let first: usize = if n >= 2 && text.get_char(0) == '0' && text.get_char(1) == 'x' {
        2
    } else {
        0
    };
    let ghost d = digits_of(text@);
    assert(d =~= text@.skip(first as int));
    if first == n {
        return Err(FetchError::Decode);
    }
    let limit: u128 = 0x7fff_ffff_ffff_ffff;
    let mut magnitude: u128 = 0;
    let mut i: usize = first;
    while i < n
        invariant
            first <= i <= n,
            n == text@.len(),
            d =~= text@.skip(first as int),
            d == digits_of(text@),
            magnitude == hex_value(d.take(i - first)),
            magnitude <= limit,
            limit == 0x7fff_ffff_ffff_ffff,
            forall|j: int| 0 <= j < i - first ==> is_hex_digit(#[trigger] d[j]),
        decreases n - i,
    {
        let c = text.get_char(i);
        let digit = hex_digit(c);
        assert(d[i - first] == c);
        match digit {
            None => {
                assert(!is_hex_digit(d[i - first]));
                assert(!well_formed_hex(text@));
                return Err(FetchError::Decode);
            },
            Some(v) => {
                assert(d.take(i + 1 - first).drop_last() =~= d.take(i - first));
                let next = magnitude * 16 + v as u128;
                if next > limit {
                    proof {
                        let p = d.take(i + 1 - first);
                        assert(p.last() == c);
                        assert(hex_value(p) == 16 * hex_value(p.drop_last()) + digit_value(p.last()));
                        lemma_hex_value_prefix(d, i + 1 - first);
                        assert(hex_value(d) > limit);
                    }
                    return Err(FetchError::Decode);
                }
                magnitude = next;
                i = i + 1;
            },
        }
    }
    assert(d.take(n - first) =~= d);
    Ok(ChainHead { block_height: magnitude as i64 })
}

} // verus!
