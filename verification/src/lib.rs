//! Runtime support for answering the legacy AWS Lambda invocation protocol:
//! a verified wire codec for the framed RPC messages, a resumable decoder and
//! encoder, a per-connection dispatch pipeline that correlates responses to
//! requests by sequence number, and per-invocation context propagation.

use vstd::prelude::*;
use vstd::string::StrSliceExecFns;
use vstd::utf8::encode_utf8;

pub mod buildtool;
pub mod codec;
pub mod commands;
pub mod connection;
pub mod context;
pub mod decoder;
pub mod encoder;
pub mod error;
pub mod events;
pub mod gateway;
pub mod gomodel;
pub mod goparse;
pub mod gorender;
pub mod handler;
pub mod messages;
pub mod towerweb;

verus! {

/// True when every byte is a decimal digit.
pub open spec fn all_digits(b: Seq<u8>) -> bool {
    forall|i: int| 0 <= i < b.len() ==> '0' as u8 <= #[trigger] b[i] <= '9' as u8
}

/// The number the digits spell, most significant first.
pub open spec fn digits_value(b: Seq<u8>) -> int
    decreases b.len(),
{
    if b.len() == 0 {
        0
    } else {
        digits_value(b.drop_last()) * 10 + (b.last() - '0' as u8)
    }
}

/// Appending digits never shrinks the value.
proof fn lemma_digits_value_monotone(b: Seq<u8>, i: int)
    requires
        0 <= i <= b.len(),
        all_digits(b),
    ensures
        digits_value(b.take(i)) <= digits_value(b),
        digits_value(b) >= 0,
    decreases b.len() - i,
{
    if i < b.len() {
        assert(b.take(i + 1).drop_last() =~= b.take(i));
        assert(b.take(i + 1).last() == b[i]);
        lemma_digits_value_nonneg(b.take(i));
        lemma_digits_value_monotone(b, i + 1);
    } else {
        assert(b.take(i) =~= b);
        lemma_digits_value_nonneg(b);
    }
}

proof fn lemma_digits_value_nonneg(b: Seq<u8>)
    requires
        all_digits(b),
    ensures
        digits_value(b) >= 0,
    decreases b.len(),
{
    if b.len() > 0 {
        assert(all_digits(b.drop_last()));
        lemma_digits_value_nonneg(b.drop_last());
    }
}

/// Parses the decimal port number found in the server-port environment
/// variable: the digits' value when the text is one or more digits spelling
/// at most the largest port, and nothing otherwise.
pub fn parse_port(s: &str) -> (r: Option<u16>)
    ensures
        ({
            let b = encode_utf8(s@);
            match r {
                Some(p) => all_digits(b) && b.len() > 0 && p as int == digits_value(b),
                None => b.len() == 0 || !all_digits(b) || digits_value(b) > 0xffff,
            }
        }),
{
    let bytes = s.as_bytes_vec();
    let ghost b = encode_utf8(s@);
    if bytes.len() == 0 {
        return None;
    }
    let mut value: u32 = 0;
    let mut i: usize = 0;
    while i < bytes.len()
        invariant
            i <= bytes.len(),
            bytes@ == b,
            b == encode_utf8(s@),
            value <= 0xffff,
            all_digits(b.take(i as int)),
            value as int == digits_value(b.take(i as int)),
        decreases bytes.len() - i,
    {
        let c = bytes[i];
        if c < '0' as u8 || c > '9' as u8 {
            assert(!all_digits(b)) by {
                assert(b[i as int] == c);
            }
            return None;
        }
        let digit: u32 = (c - '0' as u8) as u32;
        let next: u32 = value * 10 + digit;
        proof {
            assert(b.take(i + 1).drop_last() =~= b.take(i as int));
            assert(b.take(i + 1).last() == b[i as int]);
        }
        if next > 0xffff {
            proof {
                assert(all_digits(b.take(i + 1)));
                assert(digits_value(b.take(i + 1)) == digits_value(b.take(i as int)) * 10 + (
                b[i as int] - '0' as u8));
                assert(digits_value(b.take(i + 1)) == next as int);
                assert(forall|j: int|
                    0 <= j < b.len() && !('0' as u8 <= #[trigger] b[j] <= '9' as u8) ==> !all_digits(
                        b,
                    ));
                if all_digits(b) {
                    lemma_digits_value_monotone(b, i + 1);
                }
            }
            return None;
        }
        value = next;
        i = i + 1;
    }
    proof {
        assert(b.take(bytes@.len() as int) =~= b);
    }
    Some(value as u16)
}


/// The scale from a memory size in whole megabytes to bytes.
pub open spec fn bytes_per_megabyte() -> int {
    1048576
}

/// Ten steps within the scaled bound stay on the machine.
proof fn lemma_scaled_bound_fits(limit: usize)
    requires
        limit == usize::MAX as int / bytes_per_megabyte(),
    ensures
        limit * 10 + 9 <= usize::MAX,
{
    vstd::arithmetic::div_mod::lemma_fundamental_div_mod(usize::MAX as int, bytes_per_megabyte());
    vstd::arithmetic::div_mod::lemma_mod_division_less_than_divisor(
        usize::MAX as int,
        bytes_per_megabyte(),
    );
}

/// A megabyte count over the scaled bound cannot be stated in bytes on the
/// machine.
proof fn lemma_over_limit_overflows(mb: int, limit: int)
    requires
        limit == usize::MAX as int / bytes_per_megabyte(),
        mb > limit,
    ensures
        mb * bytes_per_megabyte() > usize::MAX,
{
    vstd::arithmetic::div_mod::lemma_fundamental_div_mod(usize::MAX as int, bytes_per_megabyte());
    vstd::arithmetic::div_mod::lemma_mod_division_less_than_divisor(
        usize::MAX as int,
        bytes_per_megabyte(),
    );
    assert(mb * bytes_per_megabyte() >= (limit + 1) * bytes_per_megabyte()) by (nonlinear_arith)
        requires
            mb >= limit + 1,
    ;
}

/// A megabyte count within the scaled bound fits the machine in bytes.
proof fn lemma_under_limit_fits(mb: int, limit: int)
    requires
        limit == usize::MAX as int / bytes_per_megabyte(),
        0 <= mb <= limit,
    ensures
        mb * bytes_per_megabyte() <= usize::MAX,
{
    vstd::arithmetic::div_mod::lemma_fundamental_div_mod(usize::MAX as int, bytes_per_megabyte());
    vstd::arithmetic::div_mod::lemma_mod_division_less_than_divisor(
        usize::MAX as int,
        bytes_per_megabyte(),
    );
    assert(mb * bytes_per_megabyte() <= limit * bytes_per_megabyte()) by (nonlinear_arith)
        requires
            0 <= mb <= limit,
    ;
}

/// The byte count that a memory size given in whole megabytes names: the
/// digits' value scaled to bytes, when the text is one or more digits and the
/// scaled value fits the machine; nothing otherwise.
pub fn memory_size_bytes(s: &str) -> (r: Option<usize>)
    ensures
        ({
            let b = encode_utf8(s@);
            match r {
                Some(v) => all_digits(b) && b.len() > 0 && v as int == digits_value(b)
                    * bytes_per_megabyte(),
                None => b.len() == 0 || !all_digits(b) || digits_value(b) * bytes_per_megabyte()
                    > usize::MAX,
            }
        }),
{
    let bytes = s.as_bytes_vec();
    let ghost b = encode_utf8(s@);
    if bytes.len() == 0 {
        return None;
    }
    let limit: usize = usize::MAX / 1048576;
    let mut value: usize = 0;
    let mut i: usize = 0;
    while i < bytes.len()
        invariant
            i <= bytes.len(),
            bytes@ == b,
            b == encode_utf8(s@),
            limit == usize::MAX as int / bytes_per_megabyte(),
            value <= limit,
            all_digits(b.take(i as int)),
            value as int == digits_value(b.take(i as int)),
        decreases bytes.len() - i,
    {
        let c = bytes[i];
        if c < '0' as u8 || c > '9' as u8 {
            assert(!all_digits(b)) by {
                assert(b[i as int] == c);
            }
            return None;
        }
        proof {
            lemma_scaled_bound_fits(limit);
            assert(b.take(i + 1).drop_last() =~= b.take(i as int));
            assert(b.take(i + 1).last() == b[i as int]);
        }
        let digit: usize = (c - '0' as u8) as usize;
        let next: usize = value * 10 + digit;
        if next > limit {
            proof {
                assert(all_digits(b.take(i + 1)));
                assert(digits_value(b.take(i + 1)) == digits_value(b.take(i as int)) * 10 + (
                b[i as int] - '0' as u8));
                assert(digits_value(b.take(i + 1)) == next as int);
                if all_digits(b) {
                    lemma_digits_value_monotone(b, i + 1);
                    lemma_over_limit_overflows(digits_value(b), limit as int);
                }
            }
            return None;
        }
        value = next;
        i = i + 1;
    }
    proof {
        assert(b.take(bytes@.len() as int) =~= b);
        lemma_under_limit_fits(value as int, limit as int);
    }
    Some(value * 1048576)
}

} // verus!
