//! Decode and re-encode arithmetic for the time/duration delegate family.
//!
//! On the wire a timestamp or duration travels as a single signed count of
//! sub-second units: microseconds on the natively-compiled target,
//! milliseconds on the script-engine-hosted target.  Decoding splits that
//! count into whole seconds and a nanosecond component, both Euclidean: the
//! remainder is never negative and the quotient is adjusted (floored) to
//! match, so a negative instant decodes to a pair that still denotes the
//! same instant.

use vstd::arithmetic::div_mod::{
    lemma_div_is_ordered, lemma_div_multiples_vanish, lemma_div_pos_is_pos,
    lemma_fundamental_div_mod, lemma_fundamental_div_mod_converse_div, lemma_mod_bound,
};
use vstd::prelude::*;

verus! {

/// Nanoseconds in one second.
pub const NANOS_PER_SECOND: u32 = 1_000_000_000;

/// Wire granularity of the natively-compiled target: microseconds.
pub const IO_UNITS_PER_SECOND: i64 = 1_000_000;

/// Wire granularity of the script-engine-hosted target: milliseconds.
pub const WASM_UNITS_PER_SECOND: i64 = 1_000;

/// The two admissible sub-second unit sizes.
pub open spec fn valid_units(units_per_second: i64) -> bool {
    units_per_second == IO_UNITS_PER_SECOND || units_per_second == WASM_UNITS_PER_SECOND
}

/// The Euclidean (floor) quotient: the seconds half of the decode pair.
pub open spec fn eucl_div(v: int, u: int) -> int
    recommends
        u > 0,
{
    v / u
}

/// The Euclidean remainder; non-negative for every `v` whenever `u > 0`, and
/// paired with [`eucl_div`] so that `u * eucl_div(v, u) + eucl_mod(v, u) == v`.
pub open spec fn eucl_mod(v: int, u: int) -> int
    recommends
        u > 0,
{
    v % u
}

/// How many nanoseconds one wire unit stands for.
pub open spec fn nanos_per_unit(u: int) -> int
    recommends
        u > 0,
{
    (NANOS_PER_SECOND as int) / u
}

/// A decoded instant: whole seconds plus a non-negative nanosecond part.
#[derive(PartialEq, Eq, Structural, Clone, Copy, Debug)]
pub struct DecodedTime {
    pub seconds: i64,
    pub subsec_nanos: u32,
}

/// Re-encoding a decoded instant: seconds scaled back to wire units plus the
/// nanosecond part scaled down to wire units.
pub open spec fn encode_time(seconds: int, subsec_nanos: int, u: int) -> int
    recommends
        u > 0,
{
    seconds * u + subsec_nanos / nanos_per_unit(u)
}

/// Decodes a wire count of sub-second units into seconds and nanoseconds,
/// with a floored quotient and the matching Euclidean (non-negative)
/// remainder, so negative instants keep their meaning.
pub fn wire2api_time(v: i64, units_per_second: i64) -> (r: DecodedTime)
    requires
        valid_units(units_per_second),
    ensures
        r.seconds == eucl_div(v as int, units_per_second as int),
        r.subsec_nanos == eucl_mod(v as int, units_per_second as int) * nanos_per_unit(
            units_per_second as int,
        ),
        r.subsec_nanos < NANOS_PER_SECOND,
{
    let scale: i64 = if units_per_second == IO_UNITS_PER_SECOND {
        1_000
    } else {
        1_000_000
    };
    proof {
        lemma_mod_bound(v as int, units_per_second as int);
        lemma_div_is_ordered(i64::MIN as int, v as int, units_per_second as int);
        lemma_div_is_ordered(v as int, i64::MAX as int, units_per_second as int);
        if units_per_second == WASM_UNITS_PER_SECOND {
            lemma_fundamental_div_mod_converse_div(
                i64::MIN as int,
                1000,
                -9223372036854776,
                192,
            );
            lemma_fundamental_div_mod_converse_div(i64::MAX as int, 1000, 9223372036854775, 807);
        } else {
            lemma_fundamental_div_mod_converse_div(
                i64::MIN as int,
                1000000,
                -9223372036855,
                224192,
            );
            lemma_fundamental_div_mod_converse_div(
                i64::MAX as int,
                1000000,
                9223372036854,
                775807,
            );
        }
    }
    let seconds = v.checked_div_euclid(units_per_second).unwrap();
    let rem = v.checked_rem_euclid(units_per_second).unwrap();
    let nanos = rem * scale;
    DecodedTime { seconds, subsec_nanos: nanos as u32 }
}

/// Re-encodes a decoded instant into its wire count of sub-second units.
pub fn api2wire_time(t: DecodedTime, units_per_second: i64) -> (r: i64)
    requires
        valid_units(units_per_second),
        i64::MIN <= t.seconds * units_per_second,
        encode_time(t.seconds as int, t.subsec_nanos as int, units_per_second as int)
            <= i64::MAX,
    ensures
        r == encode_time(t.seconds as int, t.subsec_nanos as int, units_per_second as int),
{
    let scale: i64 = if units_per_second == IO_UNITS_PER_SECOND {
        1_000
    } else {
        1_000_000
    };
    proof {
        lemma_div_pos_is_pos(t.subsec_nanos as int, scale as int);
        lemma_fundamental_div_mod_converse_div(
            NANOS_PER_SECOND as int,
            units_per_second as int,
            scale as int,
            0,
        );
        assert(nanos_per_unit(units_per_second as int) == scale as int);
    }
    let units_from_nanos = (t.subsec_nanos / (scale as u32)) as i64;
    t.seconds * units_per_second + units_from_nanos
}

/// Law: decoding any wire value — negative ones included — and re-encoding
/// it gives the value back, for either target's unit size.
pub proof fn lemma_time_round_trip(v: int, u: int)
    requires
        u == 1000 || u == 1000000,
    ensures
        encode_time(eucl_div(v, u), eucl_mod(v, u) * nanos_per_unit(u), u) == v,
{
    lemma_mod_bound(v, u);
    lemma_div_multiples_vanish(v % u, nanos_per_unit(u));
    assert((nanos_per_unit(u) * (v % u)) / nanos_per_unit(u) == v % u);
    assert(eucl_mod(v, u) * nanos_per_unit(u) == nanos_per_unit(u) * (v % u));
    lemma_fundamental_div_mod(v, u);
}

/// Law: the sub-second remainder is Euclidean, hence non-negative and below
/// the unit size for every wire value, negative ones included.
pub proof fn lemma_subsec_remainder_non_negative(v: int, u: int)
    requires
        u == 1000 || u == 1000000,
    ensures
        0 <= eucl_mod(v, u) < u,
{
    lemma_mod_bound(v, u);
}

} // verus!
