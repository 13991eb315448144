//! Integer coordinates and axis-aligned rectangles.

use vstd::prelude::*;

verus! {

/// A coordinate pair in degrees scaled by 10^7 (409146138 is 40.9146138 degrees).
#[derive(Debug, Clone, Copy, PartialEq, Eq, Structural, Hash)]
pub struct Point {
    pub latitude: i32,
    pub longitude: i32,
}

/// Two corners of a rectangle, in no particular order on either axis.
#[derive(Debug, Clone, Copy, PartialEq, Eq, Structural)]
pub struct Rectangle {
    pub lo: Point,
    pub hi: Point,
}

pub open spec fn min_of(a: i32, b: i32) -> i32 {
    if a <= b { a } else { b }
}

pub open spec fn max_of(a: i32, b: i32) -> i32 {
    if a <= b { b } else { a }
}

/// The rectangle's bounding box contains `p`, edges included.
pub open spec fn within(p: Point, r: Rectangle) -> bool {
    &&& min_of(r.lo.latitude, r.hi.latitude) <= p.latitude
    &&& p.latitude <= max_of(r.lo.latitude, r.hi.latitude)
    &&& min_of(r.lo.longitude, r.hi.longitude) <= p.longitude
    &&& p.longitude <= max_of(r.lo.longitude, r.hi.longitude)
}

/// The same rectangle with its latitudes exchanged between the corners.
pub open spec fn swap_latitudes(r: Rectangle) -> Rectangle {
    Rectangle {
        lo: Point { latitude: r.hi.latitude, longitude: r.lo.longitude },
        hi: Point { latitude: r.lo.latitude, longitude: r.hi.longitude },
    }
}

/// The same rectangle with its longitudes exchanged between the corners.
pub open spec fn swap_longitudes(r: Rectangle) -> Rectangle {
    Rectangle {
        lo: Point { latitude: r.lo.latitude, longitude: r.hi.longitude },
        hi: Point { latitude: r.hi.latitude, longitude: r.lo.longitude },
    }
}

/// Whether `point` lies in the bounding box of `rectangle`, edges included;
/// the corners are normalized per axis first.
pub fn in_range(point: &Point, rectangle: &Rectangle) -> (r: bool)
    ensures
        r == within(*point, *rectangle),
{
    let lo = rectangle.lo;
    let hi = rectangle.hi;
    let top = if lo.latitude <= hi.latitude { hi.latitude } else { lo.latitude };
    let down = if lo.latitude <= hi.latitude { lo.latitude } else { hi.latitude };
    let left = if lo.longitude <= hi.longitude { lo.longitude } else { hi.longitude };
    let right = if lo.longitude <= hi.longitude { hi.longitude } else { lo.longitude };
    point.longitude >= left && point.longitude <= right && point.latitude >= down
        && point.latitude <= top
}

/// A leaf of the spatial index: a position in the feature list.
#[derive(Debug, Clone, Copy, PartialEq, Eq, Structural, Hash)]
pub struct FeatureIdx(pub usize);

} // verus!
