//! Per-pixel accumulation of irradiance and irradiance-weighted temperature.
use vstd::prelude::*;

verus! {

/// One unit of output irradiance, in the library's fixed-point irradiance units.
pub const IRRADIANCE_ONE: u64 = 65536;

/// Largest stored irradiance: the largest finite half-precision value,
/// 65504, in fixed-point irradiance units.
pub const IRRADIANCE_MAX: u64 = 65504 * 65536;

/// Accumulated light of one pixel.  `temperature` (kelvin) is the
/// irradiance-weighted average of the temperatures of the stars that fell
/// there, and means something only while `irradiance > 0`.
#[derive(Debug, Clone, Copy, PartialEq, Eq, Structural)]
pub struct PixelRecord {
    pub irradiance: u64,
    pub temperature: u32,
}

/// The record of a pixel that no star has reached.
pub open spec fn empty_pixel() -> PixelRecord {
    PixelRecord { irradiance: 0, temperature: 0 }
}

/// Weighted average of two temperatures, truncated.
pub open spec fn weighted_temperature(t0: int, w0: int, t1: int, w1: int) -> int {
    (t0 * w0 + t1 * w1) / (w0 + w1)
}

/// A record after one more star: the irradiances add up, clamped at
/// `IRRADIANCE_MAX`, and the temperature becomes the weighted average of the
/// old temperature and the star's.  Where the sum is zero the record stays.
pub open spec fn combine_spec(p: PixelRecord, irradiance: u64, temperature: u32) -> PixelRecord {
    let total = p.irradiance + irradiance;
    if total > 0 {
        PixelRecord {
            irradiance: if total > IRRADIANCE_MAX { IRRADIANCE_MAX } else { total as u64 },
            temperature: weighted_temperature(
                p.temperature as int,
                p.irradiance as int,
                temperature as int,
                irradiance as int,
            ) as u32,
        }
    } else {
        p
    }
}

/// A weighted average lies between its two values.
pub proof fn lemma_weighted_temperature_between(t0: int, w0: int, t1: int, w1: int)
    requires
        0 <= t0,
        0 <= t1,
        0 <= w0,
        0 <= w1,
        w0 + w1 > 0,
    ensures
        0 <= weighted_temperature(t0, w0, t1, w1),
        weighted_temperature(t0, w0, t1, w1) <= if t0 >= t1 { t0 } else { t1 },
{
    let hi = if t0 >= t1 { t0 } else { t1 };
    assert(t0 * w0 + t1 * w1 <= hi * (w0 + w1)) by (nonlinear_arith)
        requires
            t0 <= hi,
            t1 <= hi,
            0 <= w0,
            0 <= w1,
    ;
    assert(0 <= t0 * w0 + t1 * w1) by (nonlinear_arith)
        requires
            0 <= t0,
            0 <= t1,
            0 <= w0,
            0 <= w1,
    ;
    vstd::arithmetic::div_mod::lemma_div_is_ordered(0, t0 * w0 + t1 * w1, w0 + w1);
    vstd::arithmetic::div_mod::lemma_div_is_ordered(t0 * w0 + t1 * w1, hi * (w0 + w1), w0 + w1);
    vstd::arithmetic::div_mod::lemma_div_by_multiple(hi, w0 + w1);
}

/// Two stars of irradiance `a` and `b` and temperature `ta` and `tb` folded
/// into an empty pixel, in either order, give the same record: irradiance
/// `a + b` (clamped at `IRRADIANCE_MAX`) and temperature
/// `(ta * a + tb * b) / (a + b)`.  Where both irradiances are zero the pixel
/// stays empty.
pub proof fn lemma_two_stars_commute(a: u64, ta: u32, b: u64, tb: u32)
    requires
        a <= IRRADIANCE_MAX,
        b <= IRRADIANCE_MAX,
    ensures
        combine_spec(combine_spec(empty_pixel(), a, ta), b, tb) == combine_spec(
            combine_spec(empty_pixel(), b, tb),
            a,
            ta,
        ),
        a + b > 0 ==> combine_spec(combine_spec(empty_pixel(), a, ta), b, tb) == (PixelRecord {
            irradiance: if a + b > IRRADIANCE_MAX { IRRADIANCE_MAX } else { (a + b) as u64 },
            temperature: ((ta * a + tb * b) / (a + b)) as u32,
        }),
        a + b == 0 ==> combine_spec(combine_spec(empty_pixel(), a, ta), b, tb) == empty_pixel(),
{
    if a > 0 {
        vstd::arithmetic::div_mod::lemma_div_by_multiple(ta as int, a as int);
        assert(combine_spec(empty_pixel(), a, ta) == PixelRecord { irradiance: a, temperature: ta });
    }
    if b > 0 {
        vstd::arithmetic::div_mod::lemma_div_by_multiple(tb as int, b as int);
        assert(combine_spec(empty_pixel(), b, tb) == PixelRecord { irradiance: b, temperature: tb });
    }
}

impl PixelRecord {
    /// The record of a pixel that no star has reached.
    pub fn empty() -> (r: PixelRecord)
        ensures
            r == empty_pixel(),
    {
        PixelRecord { irradiance: 0, temperature: 0 }
    }

    /// This record after one more star of the given irradiance and temperature.
    pub fn combine(self, irradiance: u64, temperature: u32) -> (r: PixelRecord)
        ensures
            r == combine_spec(self, irradiance, temperature),
            r.irradiance <= IRRADIANCE_MAX || r == self,
            self.irradiance + irradiance == 0 ==> r == self,
    {
        let total: u128 = self.irradiance as u128 + irradiance as u128;
        if total > 0 {
            proof {
                lemma_weighted_temperature_between(
                    self.temperature as int,
                    self.irradiance as int,
                    temperature as int,
                    irradiance as int,
                );
                assert(self.temperature * self.irradiance <= 0xffff_ffff * 0xffff_ffff_ffff_ffff)
                    by (nonlinear_arith)
                    requires
                        self.temperature <= 0xffff_ffff,
                        self.irradiance <= 0xffff_ffff_ffff_ffff,
                ;
                assert(temperature * irradiance <= 0xffff_ffff * 0xffff_ffff_ffff_ffff)
                    by (nonlinear_arith)
                    requires
                        temperature <= 0xffff_ffff,
                        irradiance <= 0xffff_ffff_ffff_ffff,
                ;
            }
            let weighted: u128 = self.temperature as u128 * self.irradiance as u128
                + temperature as u128 * irradiance as u128;
            let new_temperature = (weighted / total) as u32;
            let new_irradiance = if total > IRRADIANCE_MAX as u128 {
                IRRADIANCE_MAX
            } else {
                total as u64
            };
            PixelRecord { irradiance: new_irradiance, temperature: new_temperature }
        } else {
            self
        }
    }
}

/// Folds one star into the pixel at `index` of a buffer; no other pixel changes.
pub fn accumulate(buffer: &mut Vec<PixelRecord>, index: usize, irradiance: u64, temperature: u32)
    requires
        index < old(buffer).len(),
    ensures
        final(buffer)@ == old(buffer)@.update(
            index as int,
            combine_spec(old(buffer)@[index as int], irradiance, temperature),
        ),
{
    let updated = buffer[index].combine(irradiance, temperature);
    buffer.set(index, updated);
}

} // verus!
