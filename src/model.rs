//! The values exchanged with callers: features, notes and route summaries.

use vstd::prelude::*;

use crate::geometry::Point;

verus! {

/// A named point of interest; an empty name means "unnamed".
#[derive(Debug, Clone, PartialEq, Eq)]
pub struct Feature {
    pub name: String,
    pub location: Option<Point>,
}

impl Feature {
    /// The "not found" value: no name and no location.
    pub open spec fn is_blank(self) -> bool {
        self.name@.len() == 0 && self.location.is_none()
    }

    pub fn blank() -> (r: Feature)
        ensures
            r.is_blank(),
    {
        Feature { name: String::new(), location: None }
    }

    /// A copy equal to `self`.
    pub fn copied(&self) -> (r: Feature)
        ensures
            r == *self,
    {
        Feature { name: self.name.clone(), location: self.location }
    }
}

/// A message left at a location.
#[derive(Debug, Clone, PartialEq, Eq)]
pub struct RouteNote {
    pub location: Option<Point>,
    pub message: String,
}

/// What a recorded route came to.
#[derive(Debug, Clone, Copy, PartialEq, Eq, Structural)]
pub struct RouteSummary {
    pub point_count: i32,
    pub feature_count: i32,
    pub distance: i32,
    pub elapsed_time: i32,
}

} // verus!
