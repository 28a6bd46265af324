//! Easing curves: which control points make one, and where no search along the curve is needed.
use crate::float_bits::{FloatBits, ONE};
use vstd::prelude::*;

verus! {

/// Why there is no curve.
#[derive(Debug, Clone, Copy, PartialEq, Eq, Structural)]
pub enum BezierError {
    InvalidControlPoint,
}

impl BezierError {
    /// What the error says.
    pub fn message(&self) -> (message: &'static str)
        ensures
            message@ == "cubic-bezier control points must be in the range [0, 1]"@,
    {
        "cubic-bezier control points must be in the range [0, 1]"
    }
}

/// A cubic curve from the origin to the point whose coordinates are both one.
#[derive(Debug, Clone, Copy)]
pub struct CubicBezier {
    pub x1: FloatBits,
    pub y1: FloatBits,
    pub x2: FloatBits,
    pub y2: FloatBits,
}

/// The curve with two control points. Their places along the x-axis have to lie between zero and
/// one, or there would be more than one height at some places.
pub fn cubic_bezier(control_points: &[FloatBits; 4]) -> (result: Result<CubicBezier, BezierError>)
    ensures
        control_points@[0].is_unit() && control_points@[2].is_unit() <==> result is Ok,
        !(control_points@[0].is_unit() && control_points@[2].is_unit()) <==> result == Err::<
            CubicBezier,
            BezierError,
        >(BezierError::InvalidControlPoint),
        result matches Ok(curve) ==> {
            &&& curve.x1 == control_points@[0]
            &&& curve.y1 == control_points@[1]
            &&& curve.x2 == control_points@[2]
            &&& curve.y2 == control_points@[3]
        },
{
    if !control_points[0].in_unit() || !control_points[2].in_unit() {
        return Err(BezierError::InvalidControlPoint);
    }
    Ok(
        CubicBezier {
            x1: control_points[0],
            y1: control_points[1],
            x2: control_points[2],
            y2: control_points[3],
        },
    )
}

impl CubicBezier {
    /// Whether the curve is a straight line: both control points lie on the diagonal.
    pub open spec fn is_linear(&self) -> bool {
        self.x1.equals(self.y1) && self.x2.equals(self.y2)
    }

    /// The height of the curve above `x` where it is `x` itself: everywhere on a straight line, and
    /// at both ends of every curve. Elsewhere the curve has to be searched.
    pub fn known_height(&self, x: FloatBits) -> (height: Option<FloatBits>)
        ensures
            height == (if self.is_linear() || x.is_zero() || x.bits == ONE {
                Some(x)
            } else {
                None
            }),
    {
        if self.x1.equal(&self.y1) && self.x2.equal(&self.y2) {
            return Some(x);
        }
        if x.zero() || x.bits == ONE {
            return Some(x);
        }
        None
    }
}

} // verus!
