//! The feature index: the catalog, its exact lookup table and its spatial
//! tree, built together once and read-only afterwards.

use vstd::multiset::Multiset;
use vstd::prelude::*;

use crate::geometry::{swap_latitudes, swap_longitudes, within, Point, Rectangle};
use crate::model::Feature;
use crate::spatial::{bulk_load, in_box, leaves, locate, SpatialTree};
use crate::tables::{position_of, position_table, positions, set_position, Coord, PositionTable};

verus! {

broadcast use vstd::seq_lib::group_to_multiset_ensures, vstd::multiset::group_multiset_axioms;

/// The position of the last feature of `fs` located exactly at `p`.
pub open spec fn last_at(fs: Seq<Feature>, p: Point) -> Option<int>
    decreases fs.len(),
{
    if fs.len() == 0 {
        None
    } else if fs.last().location == Some(p) {
        Some(fs.len() - 1)
    } else {
        last_at(fs.drop_last(), p)
    }
}

/// The feature at position `i` is located in the rectangle.
pub open spec fn selected(fs: Seq<Feature>, rect: Rectangle, i: int) -> bool {
    &&& 0 <= i < fs.len()
    &&& fs[i].location is Some
    &&& within(fs[i].location->Some_0, rect)
}

/// `out` holds each selected feature exactly once, in some order, and
/// nothing else.
pub open spec fn is_listing(fs: Seq<Feature>, rect: Rectangle, out: Seq<Feature>) -> bool {
    exists|pos: Seq<int>|
        {
            &&& pos.len() == out.len()
            &&& pos.no_duplicates()
            &&& forall|k: int|
                0 <= k < pos.len() ==> 0 <= #[trigger] pos[k] < fs.len() && out[k] == fs[pos[k]]
            &&& forall|i: int| selected(fs, rect, i) <==> #[trigger] pos.contains(i)
        }
}

/// `e` is the spatial leaf of the feature at position `e.2`.
pub open spec fn is_leaf(fs: Seq<Feature>, e: (i32, i32, usize)) -> bool {
    &&& e.2 < fs.len()
    &&& fs[e.2 as int].location == Some(Point { latitude: e.1, longitude: e.0 })
}

/// A coordinate key as a point.
pub open spec fn point_of(k: Coord) -> Point {
    Point { latitude: k.0, longitude: k.1 }
}

/// The table maps each coordinate to the last feature located there.
pub open spec fn table_matches(m: Map<Coord, usize>, fs: Seq<Feature>) -> bool {
    forall|k: Coord|
        #![trigger m.contains_key(k)]
        #![trigger last_at(fs, point_of(k))]
        (m.contains_key(k) <==> last_at(fs, point_of(k)) is Some) && (m.contains_key(k) ==> m[k]
            as int == last_at(fs, point_of(k))->Some_0)
}

/// The tree holds one leaf for each located feature and nothing else.
pub open spec fn tree_matches(t: Multiset<(i32, i32, usize)>, fs: Seq<Feature>) -> bool {
    forall|e: (i32, i32, usize)| #[trigger]
        t.count(e) == if is_leaf(fs, e) {
            1nat
        } else {
            0nat
        }
}

/// A found position is in range and located at the point, and no later
/// feature is.
pub proof fn lemma_last_at(fs: Seq<Feature>, p: Point)
    ensures
        match last_at(fs, p) {
            Some(i) => 0 <= i < fs.len() && fs[i].location == Some(p) && forall|j: int|
                i < j < fs.len() ==> fs[j].location != Some(p),
            None => forall|j: int| 0 <= j < fs.len() ==> fs[j].location != Some(p),
        },
    decreases fs.len(),
{
    if fs.len() > 0 {
        let init = fs.drop_last();
        lemma_last_at(init, p);
        assert(forall|j: int| 0 <= j < init.len() ==> init[j] == fs[j]);
    }
}

/// Looking up the location of a feature finds that feature, provided no
/// later feature stands at the same location.
pub proof fn lemma_lookup_finds_feature(fs: Seq<Feature>, i: int, p: Point)
    requires
        0 <= i < fs.len(),
        fs[i].location == Some(p),
        forall|j: int| i < j < fs.len() ==> fs[j].location != Some(p),
    ensures
        last_at(fs, p) == Some(i),
{
    lemma_last_at(fs, p);
}

/// Looking up a point where no feature stands finds nothing.
pub proof fn lemma_lookup_misses(fs: Seq<Feature>, p: Point)
    requires
        forall|j: int| 0 <= j < fs.len() ==> fs[j].location != Some(p),
    ensures
        last_at(fs, p) is None,
{
    lemma_last_at(fs, p);
}

/// Which corner of the query rectangle is called `lo` and which `hi`, on
/// either axis, does not change which features are selected, so a listing
/// for one is a listing for the other.
pub proof fn lemma_listing_ignores_corner_order(fs: Seq<Feature>, rect: Rectangle, out: Seq<Feature>)
    ensures
        forall|i: int| selected(fs, swap_latitudes(rect), i) == selected(fs, rect, i),
        forall|i: int| selected(fs, swap_longitudes(rect), i) == selected(fs, rect, i),
        is_listing(fs, swap_latitudes(rect), out) == is_listing(fs, rect, out),
        is_listing(fs, swap_longitudes(rect), out) == is_listing(fs, rect, out),
{
    assert(forall|i: int| selected(fs, swap_latitudes(rect), i) == selected(fs, rect, i));
    assert(forall|i: int| selected(fs, swap_longitudes(rect), i) == selected(fs, rect, i));
}

/// The catalog with its two lookup structures.
pub struct FeatureIndex {
    features: Vec<Feature>,
    feature_map: PositionTable,
    rtree: SpatialTree,
}

impl View for FeatureIndex {
    type V = Seq<Feature>;

    closed spec fn view(&self) -> Seq<Feature> {
        self.features@
    }
}

impl FeatureIndex {
    /// Both lookup structures agree with the catalog.
    pub closed spec fn wf(&self) -> bool {
        &&& table_matches(positions(self.feature_map), self.features@)
        &&& tree_matches(leaves(self.rtree), self.features@)
    }

    /// Indexes every located feature; features without a location stay in
    /// the catalog but in neither structure.
    pub fn build(features: Vec<Feature>) -> (r: FeatureIndex)
        ensures
            r.wf(),
            r@ == features@,
    {
        let n = features.len();
        let mut table = position_table(n);
        let mut items: Vec<(i32, i32, usize)> = Vec::new();
        let mut i: usize = 0;
        while i < n
            invariant
                n == features.len(),
                i <= n,
                table_matches(positions(table), features@.take(i as int)),
                tree_matches(items@.to_multiset(), features@.take(i as int)),
            decreases n - i,
        {
            let ghost before = features@.take(i as int);
            let ghost after = features@.take(i as int + 1);
            proof {
                assert(after.drop_last() =~= before);
            }
            match features[i].location {
                Some(p) => {
                    let ghost old_items = items@;
                    set_position(&mut table, (p.latitude, p.longitude), i);
                    items.push((p.longitude, p.latitude, i));
                    assert(items@ == old_items.push((p.longitude, p.latitude, i)));
                    assert forall|e: (i32, i32, usize)| #[trigger]
                        items@.to_multiset().count(e) == if is_leaf(after, e) {
                            1nat
                        } else {
                            0nat
                        } by {
                        if e.2 < i {
                            assert(after[e.2 as int] == before[e.2 as int]);
                        }
                    }
                },
                None => {
                    assert forall|e: (i32, i32, usize)| #[trigger]
                        items@.to_multiset().count(e) == if is_leaf(after, e) {
                            1nat
                        } else {
                            0nat
                        } by {
                        if e.2 < i {
                            assert(after[e.2 as int] == before[e.2 as int]);
                        }
                    }
                },
            }
            i += 1;
        }
        assert(features@.take(n as int) =~= features@);
        FeatureIndex { features, feature_map: table, rtree: bulk_load(items) }
    }

    /// The catalog, in the order it was built from.
    pub fn features(&self) -> (r: &Vec<Feature>)
        ensures
            r@ == self@,
    {
        &self.features
    }

    /// The last feature located exactly at `point`, or the blank feature
    /// where none is.
    pub fn get_feature(&self, point: &Point) -> (r: Feature)
        requires
            self.wf(),
        ensures
            match last_at(self@, *point) {
                Some(i) => r == self@[i],
                None => r.is_blank(),
            },
    {
        let key: Coord = (point.latitude, point.longitude);
        proof {
            assert(point_of(key) == *point);
            lemma_last_at(self@, *point);
        }
        match position_of(&self.feature_map, key) {
            Some(i) => self.features[i].copied(),
            None => Feature::blank(),
        }
    }

    /// Whether some feature is located exactly at `point`.
    pub fn contains(&self, point: &Point) -> (r: bool)
        requires
            self.wf(),
        ensures
            r == (last_at(self@, *point) is Some),
    {
        let key: Coord = (point.latitude, point.longitude);
        proof {
            assert(point_of(key) == *point);
        }
        position_of(&self.feature_map, key).is_some()
    }

    /// Every feature located in the rectangle, edges included, once each, in
    /// the order the spatial tree yields them.
    pub fn list_features(&self, rect: &Rectangle) -> (r: Vec<Feature>)
        requires
            self.wf(),
        ensures
            forall|k: int|
                0 <= k < r@.len() ==> (#[trigger] r@[k]).location is Some && within(
                    r@[k].location->Some_0,
                    *rect,
                ),
            is_listing(self@, *rect, r@),
    {
        let a: [i32; 2] = [rect.lo.longitude, rect.lo.latitude];
        let b: [i32; 2] = [rect.hi.longitude, rect.hi.latitude];
        let hits = locate(&self.rtree, a, b);
        let n = self.features.len();
        let ghost fs = self@;
        let ghost hs = hits@;
        let ghost pos = hs.map_values(|e: (i32, i32, usize)| e.2 as int);
        proof {
            assert forall|k: int| 0 <= k < hs.len() implies is_leaf(fs, #[trigger] hs[k])
                && in_box(hs[k], a, b) by {
                assert(hs.contains(hs[k]));
                assert(hs.to_multiset().count(hs[k]) > 0);
            }
        }
        let mut out: Vec<Feature> = Vec::new();
        let mut k: usize = 0;
        while k < hits.len()
            invariant
                hs == hits@,
                fs == self@,
                fs == self.features@,
                k <= hits.len(),
                out@.len() == k,
                forall|j: int| 0 <= j < hs.len() ==> is_leaf(fs, #[trigger] hs[j]) && in_box(hs[j], a, b),
                forall|j: int| 0 <= j < k ==> out@[j] == fs[(#[trigger] hs[j]).2 as int],
            decreases hits.len() - k,
        {
            let e = hits[k];
            out.push(self.features[e.2].copied());
            k += 1;
        }
        proof {
            assert forall|j: int| 0 <= j < out@.len() implies (#[trigger] out@[j]).location is Some
                && within(out@[j].location->Some_0, *rect) by {
                assert(is_leaf(fs, hs[j]) && in_box(hs[j], a, b));
            }
            assert forall|x: (i32, i32, usize)| hs.to_multiset().contains(x) implies hs.to_multiset().count(x) == 1 by {
                assert(hs.to_multiset().count(x) == if in_box(x, a, b) { leaves(self.rtree).count(x) } else { 0 });
            }
            hs.lemma_multiset_has_no_duplicates_conv();
            assert forall|u: int, v: int| 0 <= u < pos.len() && 0 <= v < pos.len() && u != v implies pos[u] != pos[v] by {
                assert(is_leaf(fs, hs[u]) && is_leaf(fs, hs[v]));
                if pos[u] == pos[v] {
                    assert(hs[u] == hs[v]);
                }
            }
            assert forall|i: int| selected(fs, *rect, i) <==> #[trigger] pos.contains(i) by {
                if selected(fs, *rect, i) {
                    assert(i < n);
                    let p = fs[i].location->Some_0;
                    let e = (p.longitude, p.latitude, i as usize);
                    assert(is_leaf(fs, e));
                    assert(hs.to_multiset().count(e) == 1);
                    assert(hs.contains(e));
                    let k = choose|k: int| 0 <= k < hs.len() && hs[k] == e;
                    assert(pos[k] == i);
                }
                if pos.contains(i) {
                    let k = choose|k: int| 0 <= k < pos.len() && pos[k] == i;
                    assert(is_leaf(fs, hs[k]) && in_box(hs[k], a, b));
                }
            }
            assert(forall|j: int|
                0 <= j < pos.len() ==> 0 <= #[trigger] pos[j] < fs.len() && out@[j] == fs[pos[j]]);
            assert(pos.len() == out@.len());
            assert(pos.no_duplicates());
        }
        out
    }
}

} // verus!
