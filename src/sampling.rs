use vstd::prelude::*;
use crate::color::Color;

verus! {

/// `q` does not exceed `255.99 * sqrt(sum / (255 * samples))`, the gamma-2
/// corrected average of `samples` channel values totalling `sum`, scaled to
/// the byte range. With `255.99² = 655308801 / 10000` the comparison is exact
/// in integers.
pub open spec fn gamma_fits(q: int, sum: int, samples: int) -> bool {
    q * q * 2550000 * samples <= 655308801 * sum
}

/// `q` is the gamma-corrected byte of `samples` channel values totalling
/// `sum`: `floor(255.99 * sqrt(sum / (255 * samples)))`.
pub open spec fn is_gamma_level(q: int, sum: int, samples: int) -> bool {
    &&& 0 <= q
    &&& gamma_fits(q, sum, samples)
    &&& !gamma_fits(q + 1, sum, samples)
}

/// One channel of a colour: 0 red, 1 green, otherwise blue.
pub open spec fn channel(c: Color, ch: int) -> int {
    if ch == 0 {
        c.0 as int
    } else if ch == 1 {
        c.1 as int
    } else {
        c.2 as int
    }
}

/// The total of one channel over a sequence of colours.
pub open spec fn channel_sum(s: Seq<Color>, ch: int) -> int
    decreases s.len(),
{
    if s.len() == 0 {
        0
    } else {
        channel_sum(s.drop_last(), ch) + channel(s.last(), ch)
    }
}

fn fits(q: u16, sum: u64, samples: u32) -> (b: bool)
    requires
        q <= 256,
        sum <= 255 * samples,
    ensures
        b == gamma_fits(q as int, sum as int, samples as int),
{
    assert(q as int * q as int <= 65536) by (nonlinear_arith)
        requires
            q <= 256,
    ;
    let qq: u128 = q as u128 * q as u128;
    let k: u128 = qq * 2550000;
    assert(k as int * samples as int <= 167116800000 * 4294967295) by (nonlinear_arith)
        requires
            k <= 167116800000,
            samples <= 4294967295,
    ;
    let lhs: u128 = k * samples as u128;
    let rhs: u128 = 655308801 * sum as u128;
    lhs <= rhs
}

/// The gamma-corrected byte of `samples` channel values totalling `sum`:
/// the average is read as a fraction of full intensity, its square root is
/// taken and scaled by 255.99, and the result is rounded down.
pub fn gamma_level(sum: u64, samples: u32) -> (q: u8)
    requires
        samples > 0,
        sum <= 255 * samples,
    ensures
        is_gamma_level(q as int, sum as int, samples as int),
{
    let mut q: u16 = 0;
    assert(gamma_fits(0, sum as int, samples as int)) by (nonlinear_arith)
        requires
            sum >= 0,
            samples >= 0,
    ;
    while q < 255 && fits(q + 1, sum, samples)
        invariant
            q <= 255,
            sum <= 255 * samples,
            gamma_fits(q as int, sum as int, samples as int),
        decreases 255 - q,
    {
        q = q + 1;
    }
    if q == 255 {
        assert(!gamma_fits(256, sum as int, samples as int)) by (nonlinear_arith)
            requires
                samples > 0,
                sum <= 255 * samples,
        ;
    }
    q as u8
}

/// The displayed colour of a pixel from its samples: each channel is
/// averaged over the samples, gamma-corrected and quantised to a byte
/// (`gamma_level`); the pixel is fully opaque.
pub fn resolve_pixel(samples: &Vec<Color>) -> (c: Color)
    requires
        0 < samples@.len() <= u32::MAX,
    ensures
        is_gamma_level(c.0 as int, channel_sum(samples@, 0), samples@.len() as int),
        is_gamma_level(c.1 as int, channel_sum(samples@, 1), samples@.len() as int),
        is_gamma_level(c.2 as int, channel_sum(samples@, 2), samples@.len() as int),
        c.3 == 255,
{
    let mut red: u64 = 0;
    let mut green: u64 = 0;
    let mut blue: u64 = 0;
    let mut i: usize = 0;
    proof {
        assert(samples@.subrange(0, 0) =~= Seq::<Color>::empty());
    }
    while i < samples.len()
        invariant
            i <= samples@.len() <= u32::MAX,
            red == channel_sum(samples@.subrange(0, i as int), 0),
            green == channel_sum(samples@.subrange(0, i as int), 1),
            blue == channel_sum(samples@.subrange(0, i as int), 2),
            red <= 255 * i,
            green <= 255 * i,
            blue <= 255 * i,
        decreases samples@.len() - i,
    {
        let c = samples[i];
        proof {
            let next = samples@.subrange(0, i as int + 1);
            assert(next.drop_last() =~= samples@.subrange(0, i as int));
        }
        red = red + c.0 as u64;
        green = green + c.1 as u64;
        blue = blue + c.2 as u64;
        i = i + 1;
    }
    proof {
        assert(samples@.subrange(0, samples@.len() as int) =~= samples@);
    }
    let n = samples.len() as u32;
    Color(gamma_level(red, n), gamma_level(green, n), gamma_level(blue, n), 255)
}

/// Gamma correction keeps the order of intensities: a pixel whose samples
/// total more in a channel never shows that channel darker.
pub proof fn lemma_gamma_monotone(sum1: int, sum2: int, samples: int, q1: int, q2: int)
    requires
        samples > 0,
        0 <= sum1 <= sum2,
        is_gamma_level(q1, sum1, samples),
        is_gamma_level(q2, sum2, samples),
    ensures
        q1 <= q2,
{
    if q1 > q2 {
        assert(gamma_fits(q2 + 1, sum2, samples)) by (nonlinear_arith)
            requires
                samples > 0,
                sum1 <= sum2,
                q2 + 1 <= q1,
                0 <= q2,
                q1 * q1 * 2550000 * samples <= 655308801 * sum1,
        ;
    }
}

} // verus!
