//! The route guide service: the handlers' decisions over a shared index.

use vstd::prelude::*;

use crate::geometry::{within, Point, Rectangle};
use crate::index::{is_listing, last_at, FeatureIndex};
use crate::model::Feature;
use crate::route::{advanced, RouteAccumulator};

verus! {

/// The service state shared by every call: the feature index, built once.
pub struct RouteGuideService {
    idx: FeatureIndex,
}

impl View for RouteGuideService {
    type V = Seq<Feature>;

    closed spec fn view(&self) -> Seq<Feature> {
        self.idx@
    }
}

impl RouteGuideService {
    pub closed spec fn wf(&self) -> bool {
        self.idx.wf()
    }

    /// Builds the index over the catalog.
    pub fn new(features: Vec<Feature>) -> (r: RouteGuideService)
        ensures
            r.wf(),
            r@ == features@,
    {
        RouteGuideService { idx: FeatureIndex::build(features) }
    }

    pub fn index(&self) -> (r: &FeatureIndex)
        requires
            self.wf(),
        ensures
            r.wf(),
            r@ == self@,
    {
        &self.idx
    }

    /// Exact lookup: the feature at `point`, or the blank feature.
    pub fn get_feature(&self, point: &Point) -> (r: Feature)
        requires
            self.wf(),
        ensures
            match last_at(self@, *point) {
                Some(i) => r == self@[i],
                None => r.is_blank(),
            },
    {
        self.idx.get_feature(point)
    }

    /// Range query: the features located in the rectangle, once each.
    pub fn list_features(&self, rect: &Rectangle) -> (r: Vec<Feature>)
        requires
            self.wf(),
        ensures
            forall|k: int|
                0 <= k < r@.len() ==> (#[trigger] r@[k]).location is Some && within(
                    r@[k].location->Some_0,
                    *rect,
                ),
            is_listing(self@, *rect, r@),
    {
        self.idx.list_features(rect)
    }

    /// One step of recording a route: `leg` is the distance in meters from
    /// the route's previous point.
    pub fn record_point(&self, acc: &mut RouteAccumulator, point: Point, leg: i32)
        requires
            self.wf(),
            old(acc).wf(),
            old(acc).point_count < i32::MAX,
        ensures
            *final(acc) == advanced(*old(acc), point, last_at(self@, point) is Some, leg),
            final(acc).wf(),
    {
        acc.add_point(&self.idx, point, leg);
    }
}

} // verus!
