//! Audio level arithmetic: RMS and peak of a PCM chunk, the integer square
//! root behind the RMS, and the fixed bar scale of the level history.

use vstd::prelude::*;

verus! {

/// Height in pixels of the bar for an RMS level: a fixed scale where 32768
/// and above fill all `available_height` pixels.
pub open spec fn spec_level_height(sample: u16, available_height: u32) -> int {
    (if sample as int > 32768 {
        32768
    } else {
        sample as int
    }) * available_height as int / 32768
}

pub fn level_height(sample: u16, available_height: u32) -> (h: u32)
    ensures
        h as int == spec_level_height(sample, available_height),
        h <= available_height,
{
    let s: u64 = if sample as u64 > 32768 {
        32768
    } else {
        sample as u64
    };
    assert(s * (available_height as u64) <= 32768 * (available_height as u64)) by (nonlinear_arith)
        requires
            s <= 32768,
    ;
    let prod: u64 = s * (available_height as u64);
    assert(prod / 32768 <= available_height) by (nonlinear_arith)
        requires
            prod <= 32768 * (available_height as u64),
    ;
    (prod / 32768) as u32
}

/// Raising the level never lowers the bar.
pub proof fn level_height_is_monotonic(a: u16, b: u16, available_height: u32)
    requires
        a <= b,
    ensures
        spec_level_height(a, available_height) <= spec_level_height(b, available_height),
{
    let ca: int = if a as int > 32768 {
        32768
    } else {
        a as int
    };
    let cb: int = if b as int > 32768 {
        32768
    } else {
        b as int
    };
    let h = available_height as int;
    assert(ca * h <= cb * h) by (nonlinear_arith)
        requires
            0 <= ca <= cb,
            h >= 0,
    ;
    assert(ca * h / 32768 <= cb * h / 32768) by (nonlinear_arith)
        requires
            ca * h <= cb * h,
    ;
}

pub open spec fn square(r: int) -> int {
    r * r
}

/// `r` is the integer square root of `v`.
pub open spec fn is_isqrt(v: int, r: int) -> bool {
    r >= 0 && r * r <= v && v < (r + 1) * (r + 1)
}

proof fn lemma_newton_step_stays_above_root(v: int, x: int, r: int)
    requires
        x >= 1,
        r >= 0,
        r * r <= v,
        x >= r,
    ensures
        (x + v / x) / 2 >= r,
{
    let q = v / x;
    assert(v == x * q + v % x && 0 <= v % x < x) by (nonlinear_arith)
        requires
            x >= 1,
            q == v / x,
    ;
    if x == r {
        assert(q >= r) by (nonlinear_arith)
            requires
                v == x * q + v % x,
                0 <= v % x < x,
                x == r,
                r * r <= v,
                x >= 1,
        ;
    } else {
        assert(x + q >= 2 * r) by (nonlinear_arith)
            requires
                v == x * q + v % x,
                0 <= v % x < x,
                x >= r + 1,
                r * r <= v,
                r >= 0,
                q >= 0,
        ;
    }
}

proof fn lemma_newton_step_descends(v: int, x: int)
    requires
        x >= 1,
        v >= 0,
        x * x > v,
    ensures
        (x + v / x) / 2 < x,
{
    let q = v / x;
    assert(q < x) by (nonlinear_arith)
        requires
            x >= 1,
            q == v / x,
            x * x > v,
            v >= 0,
    ;
}

/// Integer square root by Newton's iteration.
pub fn integer_sqrt(value: u64) -> (r: u64)
    requires
        value < u64::MAX,
    ensures
        is_isqrt(value as int, r as int),
{
    if value < 2 {
        assert(is_isqrt(value as int, value as int)) by (nonlinear_arith)
            requires
                value < 2,
        ;
        return value;
    }
    let mut x = value;
    assert((x + value / x) <= value + 1) by (nonlinear_arith)
        requires
            x == value,
            value >= 2,
    ;
    let mut y = (x + value / x) / 2;
    proof {
        assert forall|r: int| r >= 0 && #[trigger] square(r) <= value implies r <= x by {
            if r > x {
                assert(r * r > x * x) by (nonlinear_arith)
                    requires
                        r > x,
                        x >= 0,
                ;
                assert(x * x >= x) by (nonlinear_arith)
                    requires
                        x >= 1,
                ;
            }
        }
    }
    while y < x
        invariant
            1 <= x <= value,
            value >= 2,
            value < u64::MAX,
            y == (x + value / x) / 2,
            forall|r: int| r >= 0 && #[trigger] square(r) <= value ==> r <= x,
        decreases x,
    {
        proof {
            assert forall|r: int| r >= 0 && #[trigger] square(r) <= value implies r <= y by {
                lemma_newton_step_stays_above_root(value as int, x as int, r);
            }
            assert(square(1) <= value);
        }
        x = y;
        assert(x + value / x <= value + 1) by (nonlinear_arith)
            requires
                1 <= x <= value,
        ;
        y = (x + value / x) / 2;
    }
    proof {
        if x * x > value {
            lemma_newton_step_descends(value as int, x as int);
        }
        let r = x as int + 1;
        if r * r <= value {
            assert(square(r) <= value);
            assert(r <= x);
        }
    }
    x
}


/// Magnitude of one signed PCM sample.
pub open spec fn magnitude(x: i16) -> int {
    if x < 0 {
        -(x as int)
    } else {
        x as int
    }
}

/// Number of stereo frames in an interleaved chunk of `len` samples; the
/// left channel (even indices) is the one measured.
pub open spec fn frame_count(len: nat) -> nat {
    (len + 1) / 2
}

/// Largest left-channel magnitude among the first `k` frames.
pub open spec fn peak_of(s: Seq<i16>, k: nat) -> int
    decreases k,
{
    if k == 0 {
        0
    } else {
        let m = magnitude(s[2 * (k - 1)]);
        let p = peak_of(s, (k - 1) as nat);
        if m > p {
            m
        } else {
            p
        }
    }
}

/// Sum of squared left-channel magnitudes of the first `k` frames,
/// saturating at `u64::MAX`.
pub open spec fn square_sum(s: Seq<i16>, k: nat) -> int
    decreases k,
{
    if k == 0 {
        0
    } else {
        let m = magnitude(s[2 * (k - 1)]);
        let t = square_sum(s, (k - 1) as nat) + m * m;
        if t > u64::MAX {
            u64::MAX as int
        } else {
            t
        }
    }
}

/// Mean square of the left channel (0 for an empty chunk).
pub open spec fn mean_square(s: Seq<i16>) -> int {
    let f = frame_count(s.len());
    if f == 0 {
        0
    } else {
        square_sum(s, f) / f as int
    }
}

proof fn lemma_square_sum_bounds(s: Seq<i16>, k: nat)
    requires
        2 * k <= s.len() + 1,
    ensures
        0 <= square_sum(s, k) <= u64::MAX,
        k == 1 ==> square_sum(s, k) <= 32768 * 32768,
        0 <= peak_of(s, k) <= 32768,
    decreases k,
{
    if k > 0 {
        lemma_square_sum_bounds(s, (k - 1) as nat);
        let m = magnitude(s[2 * (k - 1)]);
        assert(0 <= m <= 32768);
        assert(m * m <= 32768 * 32768) by (nonlinear_arith)
            requires
                0 <= m <= 32768,
        ;
        assert(m * m >= 0) by (nonlinear_arith);
    }
}

/// RMS and peak of the left channel of an interleaved stereo chunk.
pub fn audio_levels(samples: &[i16]) -> (levels: (u16, u16))
    ensures
        exists|r: int|
            is_isqrt(mean_square(samples@), r) && levels.0 as int == (if r > u16::MAX {
                u16::MAX as int
            } else {
                r
            }),
        levels.1 as int == (if peak_of(samples@, frame_count(samples@.len())) > u16::MAX {
            u16::MAX as int
        } else {
            peak_of(samples@, frame_count(samples@.len()))
        }),
{
    let mut squares: u64 = 0;
    let mut peak: u16 = 0;
    let mut frames: u64 = 0;
    let mut i: usize = 0;
    let len = samples.len();
    while i < len
        invariant
            len == samples@.len(),
            i <= len,
            i == len || i == 2 * frames,
            frames == (i + 1) / 2,
            squares as int == square_sum(samples@, frames as nat),
            peak as int == (if peak_of(samples@, frames as nat) > u16::MAX {
                u16::MAX as int
            } else {
                peak_of(samples@, frames as nat)
            }),
        decreases len - i,
    {
        let sample = samples[i];
        let magnitude: u16 = if sample < 0 {
            (0i32 - sample as i32) as u16
        } else {
            sample as u16
        };
        proof {
            lemma_square_sum_bounds(samples@, frames as nat);
        }
        if magnitude > peak {
            peak = magnitude;
        }
        assert(magnitude as int == crate::audio::magnitude(samples@[2 * frames as int]));
        assert(magnitude <= 32768);
        assert((magnitude as u64) * (magnitude as u64) <= 32768 * 32768) by (nonlinear_arith)
            requires
                magnitude <= 32768,
        ;
        let sq: u64 = (magnitude as u64) * (magnitude as u64);
        squares = squares.saturating_add(sq);
        frames = frames + 1;
        i = if len - i > 2 {
            i + 2
        } else {
            len
        };
    }
    assert(frames == frame_count(samples@.len()));
    proof {
        lemma_square_sum_bounds(samples@, frames as nat);
    }
    let mean: u64 = if frames == 0 {
        0
    } else {
        squares / frames
    };
    assert(mean < u64::MAX) by {
        if frames == 1 {
        } else if frames >= 2 {
            assert(squares / frames <= squares / 2) by (nonlinear_arith)
                requires
                    frames >= 2,
            ;
        }
    }
    let root = integer_sqrt(mean);
    assert(mean as int == mean_square(samples@));
    assert(is_isqrt(mean_square(samples@), root as int));
    let rms: u16 = if root > 65535 {
        65535
    } else {
        root as u16
    };
    (rms, peak)
}

/// The integer square root is unique, so the RMS above is fully determined.
pub proof fn isqrt_is_unique(v: int, a: int, b: int)
    requires
        is_isqrt(v, a),
        is_isqrt(v, b),
    ensures
        a == b,
{
    if a < b {
        assert((a + 1) * (a + 1) <= b * b) by (nonlinear_arith)
            requires
                0 <= a < b,
        ;
    } else if b < a {
        assert((b + 1) * (b + 1) <= a * a) by (nonlinear_arith)
            requires
                0 <= b < a,
        ;
    }
}

} // verus!
