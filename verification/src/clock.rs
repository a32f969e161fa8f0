//! Frequencies and the choice of the baud-rate prescaler.

use vstd::arithmetic::div_mod::lemma_fundamental_div_mod;
use vstd::arithmetic::power2::{lemma2_to64, pow2};
use vstd::prelude::*;

verus! {

/// A frequency in hertz.
#[derive(Clone, Copy, Debug, PartialEq, Eq, Structural)]
pub struct Hertz(pub u32);

/// The clock tree as it was frozen when the clocks were configured.
#[derive(Clone, Copy, Debug, PartialEq, Eq, Structural)]
pub struct Clocks {
    /// Frequency of the bus that feeds the peripheral.
    pub pclk: Hertz,
}

/// Largest prescaler code the control register can hold.
pub const MAX_DIVISOR_CODE: u8 = 7;

/// The prescaler code for a given ratio of bus clock to bit rate.
///
/// Code `k` makes the peripheral divide the bus clock by `2^(k + 1)`.
/// A ratio below 1 has no code; the function is only meant for `ratio >= 1`.
pub open spec fn divisor_code_of(ratio: int) -> int
    recommends
        ratio >= 1,
{
    if ratio <= 2 {
        0
    } else if ratio <= 5 {
        1
    } else if ratio <= 11 {
        2
    } else if ratio <= 23 {
        3
    } else if ratio <= 47 {
        4
    } else if ratio <= 95 {
        5
    } else if ratio <= 191 {
        6
    } else {
        7
    }
}

/// The factor by which prescaler code `code` divides the bus clock.
pub open spec fn prescaler(code: int) -> int
    recommends
        0 <= code <= 7,
{
    pow2((code + 1) as nat) as int
}

/// The smallest ratio that selects `code`.
pub open spec fn bucket_first(code: int) -> int
    recommends
        0 <= code <= 7,
{
    if code == 0 {
        1
    } else {
        3 * (pow2((code - 1) as nat) as int)
    }
}

/// Whether `ratio` lies in the range of ratios that `code` serves: from
/// `bucket_first(code)` up to, but not including, `bucket_first(code + 1)`.
/// The last code serves every ratio from its first one upwards.
pub open spec fn in_bucket(ratio: int, code: int) -> bool {
    &&& 0 <= code <= 7
    &&& bucket_first(code) <= ratio
    &&& code < 7 ==> ratio < bucket_first(code + 1)
}

/// Whether a bit rate can be requested from a bus clock: the rate is not zero
/// and does not exceed the bus clock, so that their ratio is at least 1.
pub open spec fn rate_reachable(bus: Hertz, requested: Hertz) -> bool {
    0 < requested.0 <= bus.0
}

/// Selects the prescaler code for `ratio`, the bus clock divided by the
/// requested bit rate and rounded down.
pub fn divisor_code(ratio: u32) -> (code: u8)
    requires
        ratio >= 1,
    ensures
        code as int == divisor_code_of(ratio as int),
        code <= MAX_DIVISOR_CODE,
{
    if ratio <= 2 {
        0
    } else if ratio <= 5 {
        1
    } else if ratio <= 11 {
        2
    } else if ratio <= 23 {
        3
    } else if ratio <= 47 {
        4
    } else if ratio <= 95 {
        5
    } else if ratio <= 191 {
        6
    } else {
        7
    }
}

/// Selects the prescaler code for a requested bit rate, or refuses.
///
/// There is no code when the requested rate is zero or above the bus clock:
/// the peripheral can only divide.
pub fn checked_divisor_code(bus: Hertz, requested: Hertz) -> (code: Option<u8>)
    ensures
        code is Some <==> rate_reachable(bus, requested),
        code matches Some(c) ==> c as int == divisor_code_of(bus.0 as int / requested.0 as int),
{
    if requested.0 == 0 || requested.0 > bus.0 {
        None
    } else {
        let ratio: u32 = bus.0 / requested.0;
        assert(ratio >= 1) by (nonlinear_arith)
            requires
                ratio == bus.0 as int / requested.0 as int,
                0 < requested.0 <= bus.0,
        ;
        Some(divisor_code(ratio))
    }
}

/// Every ratio of at least 1 lies in exactly one bucket, and that bucket is
/// the one whose code the table selects.
pub proof fn lemma_divisor_code_is_the_bucket(ratio: int)
    requires
        ratio >= 1,
    ensures
        0 <= divisor_code_of(ratio) <= 7,
        in_bucket(ratio, divisor_code_of(ratio)),
        forall|code: int| #[trigger] in_bucket(ratio, code) ==> code == divisor_code_of(ratio),
{
    lemma2_to64();
}

/// The selected code is the least one whose prescaler, taken one and a half
/// times, lies above the ratio; where no code does, it is the last code.
pub proof fn lemma_divisor_code_is_least(ratio: int)
    requires
        ratio >= 1,
    ensures
        forall|k: int|
            0 <= k < divisor_code_of(ratio) ==> 2 * ratio >= 3 * #[trigger] prescaler(k),
        divisor_code_of(ratio) < 7 ==> 2 * ratio < 3 * prescaler(divisor_code_of(ratio)),
{
    lemma2_to64();
}

/// For a bus clock and a bit rate that can be requested from it, the code
/// selected is the one bucket that holds their ratio, rounded down; and that
/// bucket is the first whose bound, one and a half times its prescaler, lies
/// above the ratio.
pub proof fn lemma_divisor_code_of_a_request(bus: Hertz, requested: Hertz)
    requires
        rate_reachable(bus, requested),
    ensures
        ({
            let ratio = bus.0 as int / requested.0 as int;
            let code = divisor_code_of(ratio);
            &&& 1 <= ratio
            &&& in_bucket(ratio, code)
            &&& forall|other: int| #[trigger] in_bucket(ratio, other) ==> other == code
            &&& forall|k: int| 0 <= k < code ==> 2 * ratio >= 3 * #[trigger] prescaler(k)
            &&& code < 7 ==> 2 * ratio < 3 * prescaler(code)
        }),
{
    let b = bus.0 as int;
    let r = requested.0 as int;
    assert(b / r >= 1) by (nonlinear_arith)
        requires
            0 < r <= b,
    ;
    lemma_divisor_code_is_the_bucket(b / r);
    lemma_divisor_code_is_least(b / r);
}

/// How the bit rate that the selected code gives compares with the request.
///
/// The peripheral runs at the bus clock divided by the prescaler. Where the
/// ratio is below the prescaler, that rate is below the requested one. Where
/// it is not, the rate is at or above the requested one: the table rounds the
/// ratio down to its bucket, so a request of 20 MHz from a 48 MHz bus, with
/// ratio 2, is served at 24 MHz.
pub proof fn lemma_bit_rate_against_request(bus: Hertz, requested: Hertz)
    requires
        rate_reachable(bus, requested),
    ensures
        ({
            let ratio = bus.0 as int / requested.0 as int;
            let divide_by = prescaler(divisor_code_of(ratio));
            &&& ratio >= 1
            &&& ratio < divide_by ==> bus.0 < divide_by * requested.0
            &&& ratio >= divide_by ==> bus.0 >= divide_by * requested.0
        }),
{
    let b = bus.0 as int;
    let r = requested.0 as int;
    let ratio = b / r;
    let divide_by = prescaler(divisor_code_of(ratio));
    lemma2_to64();
    lemma_fundamental_div_mod(b, r);
    assert(ratio >= 1 && ratio * r <= b < (ratio + 1) * r) by (nonlinear_arith)
        requires
            0 < r <= b,
            ratio == b / r,
            b == r * ratio + b % r,
            0 <= b % r < r,
    ;
    if ratio < divide_by {
        assert((ratio + 1) * r <= divide_by * r) by (nonlinear_arith)
            requires
                ratio + 1 <= divide_by,
                r > 0,
        ;
    } else {
        assert(divide_by * r <= ratio * r) by (nonlinear_arith)
            requires
                divide_by <= ratio,
                r > 0,
        ;
    }
}

} // verus!
