//! Exact scalar arithmetic for the draw plan.
//!
//! Every length that the renderer feeds to the drawing surface is, in exact
//! real arithmetic, of the form `(a + b/pi + c*sqrt(3)) / SCALAR_DEN` for
//! integers `a`, `b`, `c`:
//! - plain rational lengths (ring radii, pen widths) use only `a`;
//! - the bolt-head radius carries a `1/pi` factor, so it uses `b`;
//! - the triangle side length divides by `cos(-150 degrees) = -sqrt(3)/2`,
//!   so lengths derived from it use `c`.
//!
//! Angles are exact rational numbers of turns, held as a `Frac`.

use vstd::prelude::*;

verus! {

/// Common denominator of every `Scalar`: three times ten million. As a
/// multiple of `10^7` it covers every decimal constant of the geometry,
/// down to the seven-place `0.2022246` of the bolt peaks, and the factor 3
/// covers the thirds in the triangle side fractions.
pub const SCALAR_DEN: i64 = 30_000_000;

/// An exact fraction `num / den`. Used both for angles measured in turns and
/// for plain rational quantities such as rotation degrees, pen widths and
/// gradient stop positions.
#[derive(Clone, Copy, PartialEq, Eq, Debug)]
pub struct Frac {
    pub num: i64,
    pub den: i64,
}

impl Frac {
    /// A fraction is well formed when its denominator is positive.
    pub open spec fn wf(self) -> bool {
        self.den >= 1
    }
}

/// The product of a radius below `2^32` and a scaled constant below `10^8`
/// in magnitude stays far inside the `i64` range.
proof fn lemma_scaled_product_in_range(r: int, scaled: int) by (nonlinear_arith)
    requires
        0 <= r <= 0x1_0000_0000,
        -100_000_000 <= scaled <= 100_000_000,
    ensures
        -0x7fff_ffff_ffff_ffff <= r * scaled <= 0x7fff_ffff_ffff_ffff,
{
}

/// An exact length: the real value `(rat + inv_pi/pi + rt3*sqrt(3)) / SCALAR_DEN`.
#[derive(Clone, Copy, PartialEq, Eq, Debug)]
pub struct Scalar {
    /// Rational part, in units of `1/SCALAR_DEN`.
    pub rat: i64,
    /// Coefficient of `1/pi`, in units of `1/SCALAR_DEN`.
    pub inv_pi: i64,
    /// Coefficient of `sqrt(3)`, in units of `1/SCALAR_DEN`.
    pub rt3: i64,
}

impl Scalar {
    /// The length zero.
    pub open spec fn zero_spec() -> Scalar {
        Scalar { rat: 0, inv_pi: 0, rt3: 0 }
    }

    pub fn zero() -> (s: Scalar)
        ensures
            s == Scalar::zero_spec(),
    {
        Scalar { rat: 0, inv_pi: 0, rt3: 0 }
    }

    /// The exact rational length `r * scaled / SCALAR_DEN`: `scaled` is the
    /// fraction of `r` wanted, already brought to the common denominator.
    pub fn rational(r: i64, scaled: i64) -> (s: Scalar)
        requires
            -100_000_000 <= scaled <= 100_000_000,
            0 <= r <= 0x1_0000_0000,
        ensures
            s.rat as int == r as int * scaled as int,
            s.inv_pi == 0,
            s.rt3 == 0,
    {
        proof {
            lemma_scaled_product_in_range(r as int, scaled as int);
        }
        Scalar { rat: r * scaled, inv_pi: 0, rt3: 0 }
    }

    /// The exact length `r * scaled / (SCALAR_DEN * pi)`.
    pub fn over_pi(r: i64, scaled: i64) -> (s: Scalar)
        requires
            -100_000_000 <= scaled <= 100_000_000,
            0 <= r <= 0x1_0000_0000,
        ensures
            s.inv_pi as int == r as int * scaled as int,
            s.rat == 0,
            s.rt3 == 0,
    {
        proof {
            lemma_scaled_product_in_range(r as int, scaled as int);
        }
        Scalar { rat: 0, inv_pi: r * scaled, rt3: 0 }
    }

    /// The exact length `r * scaled * sqrt(3) / SCALAR_DEN`.
    pub fn times_rt3(r: i64, scaled: i64) -> (s: Scalar)
        requires
            -100_000_000 <= scaled <= 100_000_000,
            0 <= r <= 0x1_0000_0000,
        ensures
            s.rt3 as int == r as int * scaled as int,
            s.rat == 0,
            s.inv_pi == 0,
    {
        proof {
            lemma_scaled_product_in_range(r as int, scaled as int);
        }
        Scalar { rat: 0, inv_pi: 0, rt3: r * scaled }
    }

    /// Componentwise sum of two exact lengths.
    pub fn add_scalar(self, other: Scalar) -> (s: Scalar)
        requires
            -0x4000_0000_0000_0000 <= self.rat as int + other.rat as int <= 0x4000_0000_0000_0000,
            -0x4000_0000_0000_0000 <= self.inv_pi as int + other.inv_pi as int <= 0x4000_0000_0000_0000,
            -0x4000_0000_0000_0000 <= self.rt3 as int + other.rt3 as int <= 0x4000_0000_0000_0000,
        ensures
            s.rat as int == self.rat as int + other.rat as int,
            s.inv_pi as int == self.inv_pi as int + other.inv_pi as int,
            s.rt3 as int == self.rt3 as int + other.rt3 as int,
    {
        Scalar {
            rat: self.rat + other.rat,
            inv_pi: self.inv_pi + other.inv_pi,
            rt3: self.rt3 + other.rt3,
        }
    }
}

} // verus!
