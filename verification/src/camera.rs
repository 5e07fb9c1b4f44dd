//! The discrete rules of a free-look camera: along which of its vectors a
//! movement goes and in which sense, and the limits that its zoom keeps.
//! Angles and zoom are single-precision numbers, handled here by their bit
//! patterns.

use vstd::prelude::*;
use vstd::arithmetic::power2::lemma_pow2_pos;
use crate::single::{
    at_least,
    at_most,
    is_finite,
    is_nan,
    lemma_negative_is_not_positive,
    lemma_one_and_forty_five,
    lemma_order_of_patterns,
    scaled,
    INFINITY,
};

verus! {

/// The pattern of 1.0, the narrowest zoom in degrees.
pub const ZOOM_LOW: u32 = 0x3f80_0000;

/// The pattern of 45.0, the widest zoom in degrees and the one a camera
/// starts with.
pub const ZOOM_HIGH: u32 = 0x4234_0000;

/// A command to move the camera.
#[allow(non_camel_case_types)]
#[derive(Clone, Copy, Debug, PartialEq, Eq, Structural)]
pub enum CameraMovement {
    FORWARD,
    BACKWARD,
    LEFT,
    RIGHT,
}

/// One of the two vectors of the camera's basis that it moves along.
#[derive(Clone, Copy, Debug, PartialEq, Eq, Structural)]
pub enum Axis {
    /// The vector the camera looks along.
    Direction,
    /// The vector to the camera's right.
    Right,
}

/// What a movement does to the position: `velocity` times the vector of
/// `axis` is added to it, or subtracted from it where `reversed` holds.
#[derive(Clone, Copy, Debug, PartialEq, Eq, Structural)]
pub struct Displacement {
    pub axis: Axis,
    pub reversed: bool,
}

impl CameraMovement {
    /// Forward adds the direction and backward subtracts it; right adds the
    /// right vector and left subtracts it.
    pub open spec fn spec_displacement(self) -> Displacement {
        match self {
            CameraMovement::FORWARD => Displacement { axis: Axis::Direction, reversed: false },
            CameraMovement::BACKWARD => Displacement { axis: Axis::Direction, reversed: true },
            CameraMovement::LEFT => Displacement { axis: Axis::Right, reversed: true },
            CameraMovement::RIGHT => Displacement { axis: Axis::Right, reversed: false },
        }
    }

    /// The displacement this movement stands for.
    #[verifier::when_used_as_spec(spec_displacement)]
    pub fn displacement(self) -> (d: Displacement)
        ensures
            d == self.spec_displacement(),
    {
        match self {
            CameraMovement::FORWARD => Displacement { axis: Axis::Direction, reversed: false },
            CameraMovement::BACKWARD => Displacement { axis: Axis::Direction, reversed: true },
            CameraMovement::LEFT => Displacement { axis: Axis::Right, reversed: true },
            CameraMovement::RIGHT => Displacement { axis: Axis::Right, reversed: false },
        }
    }
}

/// Tells whether a vector of the length that `length` stands for can be
/// scaled to length one: the length has to be a number above zero. Where it
/// is not, the vector the camera had before is kept.
pub fn has_direction(length: u32) -> (ok: bool)
    ensures
        ok == (is_finite(length) && scaled(length) > 0),
{
    proof {
        assert(scaled(0) == 0);
        if 0 < length <= INFINITY {
            lemma_order_of_patterns(0, length);
        }
        if length > INFINITY && !is_nan(length) {
            lemma_negative_is_not_positive(length);
        }
    }
    0 < length && length < INFINITY
}

/// Whether `bits` stands for a number from 1 to 45.
pub open spec fn in_zoom_range(bits: u32) -> bool {
    at_least(bits, 1) && at_most(bits, 45)
}

/// `bits` brought into the zoom range: a number below 1 becomes 1, a number
/// above 45 becomes 45, and a number in between stays as it is, bit for bit.
/// A NaN, which stands for no number, becomes 1.
pub open spec fn zoom_clamped(bits: u32) -> u32 {
    if !at_least(bits, 1) {
        ZOOM_LOW
    } else if !at_most(bits, 45) {
        ZOOM_HIGH
    } else {
        bits
    }
}

/// The zoom of a camera in degrees, a number from 1 to 45 held as its bit
/// pattern.
#[derive(Clone, Copy, Debug, PartialEq, Eq)]
pub struct Zoom {
    bits: u32,
}

impl View for Zoom {
    type V = u32;

    /// The bit pattern of the zoom.
    closed spec fn view(&self) -> u32 {
        self.bits
    }
}

impl Zoom {
    #[verifier::type_invariant]
    spec fn in_range(self) -> bool {
        in_zoom_range(self.bits)
    }

    /// The zoom a camera starts with: 45 degrees.
    pub fn widest() -> (zoom: Zoom)
        ensures
            zoom@ == ZOOM_HIGH,
    {
        proof {
            lemma_one_and_forty_five();
        }
        Zoom { bits: ZOOM_HIGH }
    }

    /// The zoom that `bits` asks for, brought into the range. What the zoom
    /// was before plays no part.
    pub fn clamped(bits: u32) -> (zoom: Zoom)
        ensures
            zoom@ == zoom_clamped(bits),
    {
        proof {
            lemma_zoom_clamped(bits);
            law_zoom_clamp(bits);
        }
        if bits > INFINITY || bits < ZOOM_LOW {
            Zoom { bits: ZOOM_LOW }
        } else if bits > ZOOM_HIGH {
            Zoom { bits: ZOOM_HIGH }
        } else {
            Zoom { bits }
        }
    }

    /// The bit pattern of the zoom, which stands for a number from 1 to 45.
    pub fn bits(&self) -> (bits: u32)
        ensures
            bits == self@,
            in_zoom_range(bits),
    {
        proof {
            use_type_invariant(self);
        }
        self.bits
    }
}

/// Clamping read off the bit patterns: a pattern with the sign bit set or
/// beyond positive infinity, or below that of 1, gives 1; of the others, one
/// above the pattern of 45 gives 45.
pub proof fn lemma_zoom_clamped(bits: u32)
    ensures
        zoom_clamped(bits) == if bits > INFINITY || bits < ZOOM_LOW {
            ZOOM_LOW
        } else if bits > ZOOM_HIGH {
            ZOOM_HIGH
        } else {
            bits
        },
{
    lemma_one_and_forty_five();
    lemma_pow2_pos(149);
    if bits > INFINITY {
        if !is_nan(bits) {
            lemma_negative_is_not_positive(bits);
        }
    } else {
        if bits < ZOOM_LOW {
            lemma_order_of_patterns(bits, ZOOM_LOW);
        }
        if bits > ZOOM_LOW {
            lemma_order_of_patterns(ZOOM_LOW, bits);
        }
        if bits < ZOOM_HIGH {
            lemma_order_of_patterns(bits, ZOOM_HIGH);
        }
        if bits > ZOOM_HIGH {
            lemma_order_of_patterns(ZOOM_HIGH, bits);
        }
    }
}

/// Clamping lands in the range, and clamping what is in the range changes
/// nothing: asking for the same zoom again gives the same zoom again.
pub proof fn law_zoom_clamp(bits: u32)
    ensures
        in_zoom_range(zoom_clamped(bits)),
        in_zoom_range(bits) ==> zoom_clamped(bits) == bits,
        zoom_clamped(zoom_clamped(bits)) == zoom_clamped(bits),
{
    lemma_one_and_forty_five();
}

} // verus!
