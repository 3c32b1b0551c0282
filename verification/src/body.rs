//! The point masses of the simulation and the parameters they move under.

use crate::scalar::{
    Scalar, FIFTY_BITS, FIVE_BITS, FIVE_HUNDRED_BITS, HUNDRED_BITS, ONE_BITS, ZERO_BITS,
};
use vstd::prelude::*;

verus! {

/// A display colour: four bytes that the engine carries and never reads.
#[derive(Clone, Copy, Debug, PartialEq, Eq, Structural)]
pub struct Color {
    pub red: u8,
    pub green: u8,
    pub blue: u8,
    pub alpha: u8,
}

impl Color {
    /// Opaque black.
    pub open spec fn black() -> Color {
        Color { red: 0, green: 0, blue: 0, alpha: 255 }
    }

    /// The opaque colour with the given channels.
    pub fn from_rgb(red: u8, green: u8, blue: u8) -> (c: Color)
        ensures
            c == (Color { red, green, blue, alpha: 255 }),
    {
        Color { red, green, blue, alpha: 255 }
    }
}

/// One point mass.
#[derive(Clone, Copy, Debug, PartialEq, Eq, Structural)]
pub struct Body {
    pub mass: Scalar,
    pub radius: Scalar,
    pub y_pos: Scalar,
    pub y_vel: Scalar,
    pub x_pos: Scalar,
    pub x_vel: Scalar,
    pub rgb: Color,
}

impl Body {
    /// The body that a store creates: mass 100, radius 100, at rest at
    /// (500, 500), black.
    pub open spec fn standard() -> Body {
        Body {
            mass: Scalar { bits: HUNDRED_BITS },
            radius: Scalar { bits: HUNDRED_BITS },
            y_pos: Scalar { bits: FIVE_HUNDRED_BITS },
            y_vel: Scalar { bits: ZERO_BITS },
            x_pos: Scalar { bits: FIVE_HUNDRED_BITS },
            x_vel: Scalar { bits: ZERO_BITS },
            rgb: Color::black(),
        }
    }

    /// Mass and radius are numbers of at least 1.
    pub open spec fn is_solid(self) -> bool {
        self.mass.at_least(Scalar { bits: ONE_BITS }) && self.radius.at_least(
            Scalar { bits: ONE_BITS },
        )
    }

    /// Whether `other` is this body moved: same mass, radius and colour.
    pub open spec fn same_matter(self, other: Body) -> bool {
        self.mass == other.mass && self.radius == other.radius && self.rgb == other.rgb
    }

    /// A body of the given attributes.
    pub fn new(
        mass: Scalar,
        radius: Scalar,
        y_pos: Scalar,
        y_vel: Scalar,
        x_pos: Scalar,
        x_vel: Scalar,
        rgb: Color,
    ) -> (b: Body)
        ensures
            b == (Body { mass, radius, y_pos, y_vel, x_pos, x_vel, rgb }),
    {
        Body { mass, radius, y_pos, y_vel, x_pos, x_vel, rgb }
    }
}

impl Default for Body {
    fn default() -> (b: Body)
        ensures
            b == Body::standard(),
            b.is_solid(),
    {
        Body {
            mass: Scalar { bits: HUNDRED_BITS },
            radius: Scalar { bits: HUNDRED_BITS },
            y_pos: Scalar { bits: FIVE_HUNDRED_BITS },
            y_vel: Scalar { bits: ZERO_BITS },
            x_pos: Scalar { bits: FIVE_HUNDRED_BITS },
            x_vel: Scalar { bits: ZERO_BITS },
            rgb: Color::from_rgb(0, 0, 0),
        }
    }
}

/// The physical parameters shared by all steps of a run.
#[derive(Clone, Copy, Debug, PartialEq, Eq, Structural)]
pub struct Params {
    /// Scales every force.
    pub gravitational_constant: Scalar,
    /// The softening floor: no pair attracts as if closer than this.
    pub min_separation: Scalar,
    /// Seconds per integration step.
    pub time_step: Scalar,
}

impl Params {
    /// G = 5, a floor of 50, one second per step.
    pub open spec fn standard() -> Params {
        Params {
            gravitational_constant: Scalar { bits: FIVE_BITS },
            min_separation: Scalar { bits: FIFTY_BITS },
            time_step: Scalar { bits: ONE_BITS },
        }
    }

    /// The softening floor is a number of at least 0.
    pub open spec fn is_valid(self) -> bool {
        self.min_separation.at_least(Scalar { bits: ZERO_BITS })
    }
}

impl Default for Params {
    fn default() -> (p: Params)
        ensures
            p == Params::standard(),
            p.is_valid(),
    {
        Params {
            gravitational_constant: Scalar { bits: FIVE_BITS },
            min_separation: Scalar { bits: FIFTY_BITS },
            time_step: Scalar { bits: ONE_BITS },
        }
    }
}

} // verus!
