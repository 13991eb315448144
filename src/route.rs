//! Folding a stream of points into a route summary.

use vstd::prelude::*;

use crate::geometry::Point;
use crate::index::{last_at, FeatureIndex};
use crate::model::RouteSummary;

verus! {

/// `a + b`, clamped to the range of `i32`.
pub open spec fn saturating_sum(a: i32, b: i32) -> i32 {
    let s = a as int + b as int;
    if s > i32::MAX {
        i32::MAX
    } else if s < i32::MIN {
        i32::MIN
    } else {
        s as i32
    }
}

/// Adds two distances, clamping at the bounds of `i32` instead of overflowing.
pub fn saturating_add(a: i32, b: i32) -> (r: i32)
    ensures
        r == saturating_sum(a, b),
{
    let s: i64 = a as i64 + b as i64;
    if s > i32::MAX as i64 {
        i32::MAX
    } else if s < i32::MIN as i64 {
        i32::MIN
    } else {
        s as i32
    }
}

/// The state of one route being recorded: what has been counted so far and
/// the previous point, if any.
#[derive(Debug, Clone, Copy, PartialEq, Eq, Structural)]
pub struct RouteAccumulator {
    pub point_count: i32,
    pub feature_count: i32,
    pub distance: i32,
    pub last: Option<Point>,
}

/// The state after one more point: `located` tells whether a feature stands
/// at it, `leg` is the distance from the previous point, in meters.
pub open spec fn advanced(s: RouteAccumulator, point: Point, located: bool, leg: i32) -> RouteAccumulator {
    RouteAccumulator {
        point_count: (s.point_count + 1) as i32,
        feature_count: if located {
            (s.feature_count + 1) as i32
        } else {
            s.feature_count
        },
        distance: if s.last is Some {
            saturating_sum(s.distance, leg)
        } else {
            s.distance
        },
        last: Some(point),
    }
}

/// The state before any point.
pub open spec fn initial() -> RouteAccumulator {
    RouteAccumulator { point_count: 0, feature_count: 0, distance: 0, last: None }
}

/// A route of two points counts two points, the located ones among them,
/// and the one leg between them as its distance.
pub proof fn lemma_two_point_route(p1: Point, l1: bool, leg1: i32, p2: Point, l2: bool, leg2: i32)
    ensures
        ({
            let s = advanced(advanced(initial(), p1, l1, leg1), p2, l2, leg2);
            &&& s.point_count == 2
            &&& s.feature_count == (if l1 { 1int } else { 0 }) + (if l2 { 1int } else { 0 })
            &&& s.distance == leg2
            &&& s.last == Some(p2)
        }),
{
}

impl RouteAccumulator {
    /// Counts stay consistent: no more located points than points.
    pub open spec fn wf(&self) -> bool {
        0 <= self.feature_count <= self.point_count
    }

    pub fn new() -> (r: RouteAccumulator)
        ensures
            r == initial(),
            r.wf(),
    {
        RouteAccumulator { point_count: 0, feature_count: 0, distance: 0, last: None }
    }

    /// The previous point, from which the next leg is measured.
    pub fn previous(&self) -> (r: Option<Point>)
        ensures
            r == self.last,
    {
        self.last
    }

    /// Takes in one more point; `leg` is the spherical distance in meters
    /// from the previous point, and is ignored for the first point.
    pub fn add_point(&mut self, index: &FeatureIndex, point: Point, leg: i32)
        requires
            old(self).wf(),
            old(self).point_count < i32::MAX,
            index.wf(),
        ensures
            *final(self) == advanced(*old(self), point, last_at(index@, point) is Some, leg),
            final(self).wf(),
    {
        let located = index.contains(&point);
        self.point_count = self.point_count + 1;
        if located {
            self.feature_count = self.feature_count + 1;
        }
        if self.last.is_some() {
            self.distance = saturating_add(self.distance, leg);
        }
        self.last = Some(point);
    }

    /// The summary once the stream has ended, `elapsed` seconds after the
    /// call began.
    pub fn finish(&self, elapsed: i32) -> (r: RouteSummary)
        requires
            elapsed >= 0,
        ensures
            r == (RouteSummary {
                point_count: self.point_count,
                feature_count: self.feature_count,
                distance: self.distance,
                elapsed_time: elapsed,
            }),
    {
        RouteSummary {
            point_count: self.point_count,
            feature_count: self.feature_count,
            distance: self.distance,
            elapsed_time: elapsed,
        }
    }
}

} // verus!
