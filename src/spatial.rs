//! The bulk-loaded R-tree of rstar over feature coordinates.

use vstd::multiset::Multiset;
use vstd::prelude::*;

use rstar::primitives::GeomWithData;
use rstar::{RTree, AABB};

use crate::geometry::FeatureIdx;

verus! {

/// An R-tree whose leaves are coordinates `[longitude, latitude]` tagged with
/// the position of the feature they stand for.
#[verifier::external_body]
pub struct SpatialTree {
    tree: RTree<GeomWithData<[i32; 2], FeatureIdx>>,
}

/// The leaves a tree holds, each as `(longitude, latitude, position)`.
pub uninterp spec fn leaves(t: SpatialTree) -> Multiset<(i32, i32, usize)>;

/// Inclusive containment of a leaf's coordinate in the box spanned by two
/// corners, normalized per axis.
pub open spec fn in_box(e: (i32, i32, usize), a: [i32; 2], b: [i32; 2]) -> bool {
    &&& (if a[0] <= b[0] { a[0] <= e.0 && e.0 <= b[0] } else { b[0] <= e.0 && e.0 <= a[0] })
    &&& (if a[1] <= b[1] { a[1] <= e.1 && e.1 <= b[1] } else { b[1] <= e.1 && e.1 <= a[1] })
}

/// Relies on rstar's `RTree::bulk_load` over `GeomWithData::new`: the tree
/// holds exactly the given leaves.
#[verifier::external_body]
pub(crate) fn bulk_load(items: Vec<(i32, i32, usize)>) -> (t: SpatialTree)
    ensures
        leaves(t) == items@.to_multiset(),
{
    let elements = items.into_iter().map(|(x, y, i)| GeomWithData::new([x, y], FeatureIdx(i)));
    SpatialTree { tree: RTree::bulk_load(elements.collect()) }
}

/// Relies on rstar's `RTree::locate_in_envelope` with `AABB::from_corners`:
/// every leaf whose point lies in the normalized box, edges included, comes
/// out once; no other leaf does.
#[verifier::external_body]
pub(crate) fn locate(t: &SpatialTree, a: [i32; 2], b: [i32; 2]) -> (r: Vec<(i32, i32, usize)>)
    ensures
        forall|e: (i32, i32, usize)|
            #[trigger] r@.to_multiset().count(e) == if in_box(e, a, b) {
                leaves(*t).count(e)
            } else {
                0
            },
{
    let hits = t.tree.locate_in_envelope(&AABB::from_corners(a, b));
    hits.map(|l| (l.geom()[0], l.geom()[1], l.data.0)).collect()
}

} // verus!
