//! The datasheet's fixed-point compensation. Temperature runs in 32-bit and
//! pressure in 64-bit two's complement arithmetic: every product, sum and
//! difference is taken modulo the word size, and every right shift is a
//! division rounded toward minus infinity.
use crate::bytes::{be_u24, read_u24_be};
use crate::calibration::Calibration;
use crate::error::Error;
use vstd::arithmetic::div_mod::{lemma_div_nonincreasing, lemma_div_pos_is_pos};
use vstd::prelude::*;

verus! {

/// `x` reduced to the range of `i32`, as 32-bit two's complement arithmetic does.
pub open spec fn wrap_i32(x: int) -> int {
    let m = x % 0x1_0000_0000;
    if m >= 0x8000_0000 {
        m - 0x1_0000_0000
    } else {
        m
    }
}

/// `x` reduced to the range of `i64`, as 64-bit two's complement arithmetic does.
pub open spec fn wrap_i64(x: int) -> int {
    let m = x % 0x1_0000_0000_0000_0000;
    if m >= 0x8000_0000_0000_0000 {
        m - 0x1_0000_0000_0000_0000
    } else {
        m
    }
}

/// 32-bit product.
pub open spec fn mul32(a: int, b: int) -> int {
    wrap_i32(a * b)
}

/// 64-bit sum.
pub open spec fn add64(a: int, b: int) -> int {
    wrap_i64(a + b)
}

/// 64-bit difference.
pub open spec fn sub64(a: int, b: int) -> int {
    wrap_i64(a - b)
}

/// 64-bit product.
pub open spec fn mul64(a: int, b: int) -> int {
    wrap_i64(a * b)
}

/// Integer division rounded toward zero.
pub open spec fn trunc_div(x: int, d: int) -> int {
    if x == 0 {
        0
    } else if x > 0 && d > 0 {
        x / d
    } else if x < 0 && d < 0 {
        (x * -1) / (d * -1)
    } else if x < 0 {
        ((x * -1) / d) * -1
    } else {
        (x / (d * -1)) * -1
    }
}

/// The raw 20-bit sample held in a 3-byte big-endian data register; the four
/// low bits are dropped.
pub open spec fn spec_raw_sample(b: Seq<u8>) -> int {
    be_u24(b[0], b[1], b[2]) / 16
}

/// The fine temperature that the raw temperature sample `adc` gives.
pub open spec fn spec_fine(adc: int, cal: Calibration) -> int {
    let t1 = cal.dig_t1 as int;
    let var1 = mul32(adc / 8 - 2 * t1, cal.dig_t2 as int) / 2048;
    let d = adc / 16 - t1;
    let var2 = mul32(mul32(d, d) / 4096, cal.dig_t3 as int) / 16384;
    var1 + var2
}

/// The temperature in hundredths of a degree Celsius for a fine temperature.
pub open spec fn spec_centi_celsius(fine: int) -> int {
    (fine * 5 + 128) / 256
}

/// The offset term of the pressure compensation.
pub open spec fn spec_pressure_offset(fine: int, cal: Calibration) -> int {
    let v = fine - 128000;
    let a = mul64(mul64(v, v), cal.dig_p6 as int);
    let b = mul64(mul64(v, cal.dig_p5 as int), 0x2_0000);
    let c = mul64(cal.dig_p4 as int, 0x8_0000_0000);
    add64(add64(a, b), c)
}

/// The divisor of the pressure compensation; zero only for a degenerate calibration.
pub open spec fn spec_pressure_divisor(fine: int, cal: Calibration) -> int {
    let v = fine - 128000;
    let a = mul64(mul64(v, v), cal.dig_p3 as int) / 256;
    let b = mul64(mul64(v, cal.dig_p2 as int), 0x1000);
    mul64(add64(0x8000_0000_0000, add64(a, b)), cal.dig_p1 as int) / 0x2_0000_0000
}

/// The quotient step of the pressure compensation, for a nonzero divisor.
pub open spec fn spec_pressure_quotient(adc: int, fine: int, cal: Calibration) -> int {
    let p0 = 1048576 - adc;
    let num = mul64(sub64(mul64(p0, 0x8000_0000), spec_pressure_offset(fine, cal)), 3125);
    wrap_i64(trunc_div(num, spec_pressure_divisor(fine, cal)))
}

/// The final correction of the pressure compensation, applied to the quotient `p`.
pub open spec fn spec_pressure_correction(p: int, cal: Calibration) -> int {
    let q = p / 0x2000;
    let var1 = mul64(mul64(cal.dig_p9 as int, q), q) / 0x200_0000;
    let var2 = mul64(cal.dig_p8 as int, p) / 0x8_0000;
    add64(add64(add64(p, var1), var2) / 256, mul64(cal.dig_p7 as int, 16))
}

/// The compensated pressure in Pa as a 24.8 fixed-point number (Pa times 256),
/// for the raw pressure sample `adc` and a nonzero divisor.
pub open spec fn spec_pressure(adc: int, fine: int, cal: Calibration) -> int {
    spec_pressure_correction(spec_pressure_quotient(adc, fine, cal), cal)
}

/// What pressure compensation gives for the raw sample `adc` and a fine temperature.
pub open spec fn spec_compensate_pressure(adc: int, fine: int, cal: Calibration) -> Result<i64, Error> {
    if spec_pressure_divisor(fine, cal) == 0 {
        Err(Error::DivisionByZero)
    } else {
        Ok(spec_pressure(adc, fine, cal) as i64)
    }
}

proof fn lemma_shr_i32(x: i32)
    ensures
        (x >> 3u32) as int == x / 8,
        (x >> 4u32) as int == x / 16,
        (x >> 8u32) as int == x / 256,
        (x >> 11u32) as int == x / 2048,
        (x >> 12u32) as int == x / 4096,
        (x >> 14u32) as int == x / 16384,
{
    assert((x >> 3u32) as int == x / 8) by (bit_vector);
    assert((x >> 4u32) as int == x / 16) by (bit_vector);
    assert((x >> 8u32) as int == x / 256) by (bit_vector);
    assert((x >> 11u32) as int == x / 2048) by (bit_vector);
    assert((x >> 12u32) as int == x / 4096) by (bit_vector);
    assert((x >> 14u32) as int == x / 16384) by (bit_vector);
}

proof fn lemma_shr_i64(x: i64)
    ensures
        (x >> 8u32) as int == x / 256,
        (x >> 13u32) as int == x / 0x2000,
        (x >> 19u32) as int == x / 0x8_0000,
        (x >> 25u32) as int == x / 0x200_0000,
        (x >> 33u32) as int == x / 0x2_0000_0000,
{
    assert((x >> 8u32) as int == x / 256) by (bit_vector);
    assert((x >> 13u32) as int == x / 0x2000) by (bit_vector);
    assert((x >> 19u32) as int == x / 0x8_0000) by (bit_vector);
    assert((x >> 25u32) as int == x / 0x200_0000) by (bit_vector);
    assert((x >> 33u32) as int == x / 0x2_0000_0000) by (bit_vector);
}

/// Extracts the raw 20-bit sample from the three bytes of a data register.
pub fn raw_sample(bytes: &[u8]) -> (r: u32)
    requires
        bytes@.len() == 3,
    ensures
        r as int == spec_raw_sample(bytes@),
        r < 0x10_0000,
{
    let v = read_u24_be(bytes);
    assert(v >> 4u32 == v / 16) by (bit_vector);
    v >> 4
}

/// A compensated temperature and the fine temperature it came from.
#[derive(Clone, Copy, Debug, PartialEq, Eq, Structural)]
pub struct TemperatureReading {
    /// Hundredths of a degree Celsius.
    pub centi_celsius: i32,
    /// The fine temperature, which pressure compensation takes.
    pub fine: i32,
}

/// Compensates a raw 20-bit temperature sample.
pub fn compensate_temperature(raw_t: u32, cal: &Calibration) -> (r: TemperatureReading)
    requires
        raw_t < 0x10_0000,
    ensures
        r.fine as int == spec_fine(raw_t as int, *cal),
        r.centi_celsius as int == spec_centi_celsius(r.fine as int),
{
    let adc = raw_t as i32;
    let t1 = cal.dig_t1 as i32;
    let t2 = cal.dig_t2 as i32;
    let t3 = cal.dig_t3 as i32;
    proof {
        lemma_shr_i32(adc);
    }
    let a: i32 = (adc >> 3) - t1 * 2;
    let ma = a.wrapping_mul(t2);
    proof {
        lemma_shr_i32(ma);
    }
    let var1: i32 = ma >> 11;
    let d: i32 = (adc >> 4) - t1;
    let dd = d.wrapping_mul(d);
    proof {
        lemma_shr_i32(dd);
    }
    let md = (dd >> 12).wrapping_mul(t3);
    proof {
        lemma_shr_i32(md);
    }
    let var2: i32 = md >> 14;
    let fine: i32 = var1 + var2;
    let c: i32 = fine * 5 + 128;
    proof {
        lemma_shr_i32(c);
    }
    TemperatureReading { centi_celsius: c >> 8, fine }
}

fn mul_i64(a: i64, b: i64) -> (r: i64)
    ensures
        r == mul64(a as int, b as int),
{
    a.wrapping_mul(b)
}

fn add_i64(a: i64, b: i64) -> (r: i64)
    ensures
        r == add64(a as int, b as int),
{
    a.wrapping_add(b)
}

fn sub_i64(a: i64, b: i64) -> (r: i64)
    ensures
        r == sub64(a as int, b as int),
{
    a.wrapping_sub(b)
}

fn pressure_offset(fine: i32, cal: &Calibration) -> (r: i64)
    ensures
        r == spec_pressure_offset(fine as int, *cal),
{
    let v: i64 = fine as i64 - 128000;
    let a = mul_i64(mul_i64(v, v), cal.dig_p6 as i64);
    let b = mul_i64(mul_i64(v, cal.dig_p5 as i64), 0x2_0000);
    let c = mul_i64(cal.dig_p4 as i64, 0x8_0000_0000);
    add_i64(add_i64(a, b), c)
}

fn pressure_divisor(fine: i32, cal: &Calibration) -> (r: i64)
    ensures
        r == spec_pressure_divisor(fine as int, *cal),
{
    let v: i64 = fine as i64 - 128000;
    let a = mul_i64(mul_i64(v, v), cal.dig_p3 as i64);
    proof {
        lemma_shr_i64(a);
    }
    let b = mul_i64(mul_i64(v, cal.dig_p2 as i64), 0x1000);
    let m = mul_i64(add_i64(0x8000_0000_0000, add_i64(a >> 8, b)), cal.dig_p1 as i64);
    proof {
        lemma_shr_i64(m);
    }
    m >> 33
}

fn pressure_quotient(raw_p: u32, fine: i32, cal: &Calibration, divisor: i64) -> (r: i64)
    requires
        raw_p < 0x10_0000,
        divisor == spec_pressure_divisor(fine as int, *cal),
        divisor != 0,
    ensures
        r == spec_pressure_quotient(raw_p as int, fine as int, *cal),
{
    let p0: i64 = 1048576 - raw_p as i64;
    let num = mul_i64(sub_i64(mul_i64(p0, 0x8000_0000), pressure_offset(fine, cal)), 3125);
    let p = match num.checked_div(divisor) {
        Some(q) => q,
        None => i64::MIN,
    };
    proof {
        lemma_wrapped_quotient(num as int, divisor as int, p as int);
    }
    p
}

fn pressure_correction(p: i64, cal: &Calibration) -> (r: i64)
    ensures
        r == spec_pressure_correction(p as int, *cal),
{
    proof {
        lemma_shr_i64(p);
    }
    let q = p >> 13;
    let t = mul_i64(mul_i64(cal.dig_p9 as i64, q), q);
    proof {
        lemma_shr_i64(t);
    }
    let u = mul_i64(cal.dig_p8 as i64, p);
    proof {
        lemma_shr_i64(u);
    }
    let w = add_i64(add_i64(p, t >> 25), u >> 19);
    proof {
        lemma_shr_i64(w);
    }
    add_i64(w >> 8, mul_i64(cal.dig_p7 as i64, 16))
}

/// Compensates a raw 20-bit pressure sample, given the fine temperature of
/// the same reading. The result is in Pa as a 24.8 fixed-point number (Pa
/// times 256); it fails with `DivisionByZero` exactly when the calibration
/// makes the divisor zero.
pub fn compensate_pressure(raw_p: u32, fine: i32, cal: &Calibration) -> (r: Result<i64, Error>)
    requires
        raw_p < 0x10_0000,
    ensures
        r == spec_compensate_pressure(raw_p as int, fine as int, *cal),
{
    let divisor = pressure_divisor(fine, cal);
    if divisor == 0 {
        return Err(Error::DivisionByZero);
    }
    let p = pressure_quotient(raw_p, fine, cal, divisor);
    Ok(pressure_correction(p, cal))
}

proof fn lemma_wrapped_quotient(x: int, d: int, q: int)
    requires
        i64::MIN <= x <= i64::MAX,
        i64::MIN <= d <= i64::MAX,
        d != 0,
        i64::MIN <= trunc_div(x, d) <= i64::MAX ==> q == trunc_div(x, d),
        !(i64::MIN <= trunc_div(x, d) <= i64::MAX) ==> q == i64::MIN,
    ensures
        q == wrap_i64(trunc_div(x, d)),
{
    if x > 0 && d > 0 {
        lemma_div_nonincreasing(x, d);
        lemma_div_pos_is_pos(x, d);
    } else if x < 0 && d < 0 {
        lemma_div_nonincreasing(-x, -d);
        lemma_div_pos_is_pos(-x, -d);
    } else if x < 0 {
        lemma_div_nonincreasing(-x, d);
        lemma_div_pos_is_pos(-x, d);
    } else if x > 0 {
        lemma_div_nonincreasing(x, -d);
        lemma_div_pos_is_pos(x, -d);
    }
}

/// A calibration whose P1 word is zero makes pressure compensation fail with
/// `DivisionByZero`, whatever the sample and the fine temperature.
pub proof fn lemma_zero_p1_divides_by_zero(adc: int, fine: int, cal: Calibration)
    requires
        cal.dig_p1 == 0,
    ensures
        spec_pressure_divisor(fine, cal) == 0,
        spec_compensate_pressure(adc, fine, cal) == Err::<i64, Error>(Error::DivisionByZero),
{
    let v = fine - 128000;
    let a = mul64(mul64(v, v), cal.dig_p3 as int) / 256;
    let b = mul64(mul64(v, cal.dig_p2 as int), 0x1000);
    assert(mul64(add64(0x8000_0000_0000, add64(a, b)), 0) == 0);
}

} // verus!
