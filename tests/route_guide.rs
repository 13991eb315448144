use route_guide::chat::{ChatError, ChatRelay};
use route_guide::geometry::{in_range, Point, Rectangle};
use route_guide::index::FeatureIndex;
use route_guide::model::{Feature, RouteNote};
use route_guide::route::{saturating_add, RouteAccumulator};
use route_guide::RouteGuideService;

const BERKSHIRE: &str = "Berkshire Valley Management Area Trail, Jefferson, NJ, USA";

fn pt(latitude: i32, longitude: i32) -> Point {
    Point { latitude, longitude }
}

fn feature(name: &str, location: Option<Point>) -> Feature {
    Feature { name: name.to_string(), location }
}

fn catalog() -> Vec<Feature> {
    vec![
        feature(BERKSHIRE, Some(pt(409_146_138, -746_188_906))),
        feature("Patriots Path, Mendham, NJ 07945, USA", Some(pt(407_838_351, -746_143_763))),
        feature("", Some(pt(410_248_224, -743_099_979))),
        feature("101 New Jersey 10, Whippany, NJ 07981, USA", Some(pt(408_122_808, -743_999_179))),
        feature("Far away", Some(pt(-338_000_000, 1_512_000_000))),
        feature("Nowhere", None),
    ]
}

fn service() -> RouteGuideService {
    RouteGuideService::new(catalog())
}

/// Spherical distance in meters between two points, as the server computes it.
fn haversine(a: Point, b: Point) -> i32 {
    let r = 6_371_000.0_f64;
    let (la1, lo1) = ((a.latitude as f64 / 1e7).to_radians(), (a.longitude as f64 / 1e7).to_radians());
    let (la2, lo2) = ((b.latitude as f64 / 1e7).to_radians(), (b.longitude as f64 / 1e7).to_radians());
    let h = ((la2 - la1) * 0.5).sin().powi(2) + la1.cos() * la2.cos() * ((lo2 - lo1) * 0.5).sin().powi(2);
    (2.0 * r * h.sqrt().atan2((1.0 - h).sqrt())) as i32
}

fn names(mut fs: Vec<Feature>) -> Vec<String> {
    fs.sort_by(|a, b| a.name.cmp(&b.name));
    fs.into_iter().map(|f| f.name).collect()
}

#[test]
fn get_feature_returns_expected_feature() {
    let svc = service();
    let f = svc.get_feature(&pt(409_146_138, -746_188_906));
    assert_eq!(f.name, "Berkshire Valley Management Area Trail, Jefferson, NJ, USA");
}

#[test]
fn list_features_returns_features_in_rectangle() {
    let svc = service();
    let rect = Rectangle { lo: pt(400_000_000, -750_000_000), hi: pt(420_000_000, -730_000_000) };
    let hits = svc.list_features(&rect);
    let mut count = 0;
    for feature in &hits {
        assert!(feature.location.is_some());
        count += 1;
    }
    assert!(count > 0, "expected at least one feature in rectangle");
}

#[test]
fn record_route_returns_summary() {
    let svc = service();
    let points = vec![pt(409_146_138, -746_188_906), pt(410_248_224, -743_099_979)];
    let mut acc = RouteAccumulator::new();
    for p in points {
        let leg = acc.previous().map(|q| haversine(q, p)).unwrap_or(0);
        svc.record_point(&mut acc, p, leg);
    }
    let summary = acc.finish(0);
    assert_eq!(summary.point_count, 2);
    assert!(summary.distance > 0);
    assert!(summary.elapsed_time >= 0);
}

#[test]
fn route_chat_exchanges_notes() {
    let mut relay = ChatRelay::new();
    let notes = vec![
        RouteNote { location: Some(pt(409_146_138, -746_188_906)), message: "First note".into() },
        RouteNote { location: Some(pt(409_146_138, -746_188_906)), message: "Second note".into() },
    ];
    let mut received = Vec::new();
    for note in notes {
        for n in relay.post(note).unwrap() {
            received.push(n.message);
        }
    }
    assert!(received.contains(&"First note".to_string()));
    assert!(received.contains(&"Second note".to_string()));
}

#[test]
fn lookup_of_every_located_feature_finds_it() {
    let svc = service();
    for f in catalog() {
        if let Some(p) = f.location {
            assert_eq!(svc.get_feature(&p), f);
        }
    }
}

#[test]
fn lookup_miss_gives_blank_feature() {
    let svc = service();
    let f = svc.get_feature(&pt(0, 0));
    assert_eq!(f.name, "");
    assert_eq!(f.location, None);
}

#[test]
fn lookup_of_shared_location_gives_last_feature() {
    let svc = RouteGuideService::new(vec![
        feature("first", Some(pt(5, 6))),
        feature("second", Some(pt(5, 6))),
    ]);
    assert_eq!(svc.get_feature(&pt(5, 6)).name, "second");
    assert_eq!(svc.list_features(&Rectangle { lo: pt(5, 6), hi: pt(5, 6) }).len(), 2);
}

#[test]
fn unlocated_feature_stays_in_catalog_only() {
    let idx = FeatureIndex::build(catalog());
    assert_eq!(idx.features().len(), 6);
    assert_eq!(idx.features()[5].name, "Nowhere");
    let everything = Rectangle { lo: pt(i32::MIN, i32::MIN), hi: pt(i32::MAX, i32::MAX) };
    assert_eq!(idx.list_features(&everything).len(), 5);
    assert!(!idx.contains(&pt(0, 0)));
    assert!(idx.contains(&pt(407_838_351, -746_143_763)));
}

#[test]
fn rectangle_corner_order_does_not_matter() {
    let svc = service();
    let (a, b) = (pt(400_000_000, -750_000_000), pt(409_146_138, -743_999_179));
    let base = names(svc.list_features(&Rectangle { lo: a, hi: b }));
    let swapped_both = names(svc.list_features(&Rectangle { lo: b, hi: a }));
    let swapped_lat = names(svc.list_features(&Rectangle {
        lo: pt(b.latitude, a.longitude),
        hi: pt(a.latitude, b.longitude),
    }));
    let swapped_lon = names(svc.list_features(&Rectangle {
        lo: pt(a.latitude, b.longitude),
        hi: pt(b.latitude, a.longitude),
    }));
    assert_eq!(
        base,
        vec![
            "101 New Jersey 10, Whippany, NJ 07981, USA".to_string(),
            BERKSHIRE.to_string(),
            "Patriots Path, Mendham, NJ 07945, USA".to_string(),
        ]
    );
    assert_eq!(base, swapped_both);
    assert_eq!(base, swapped_lat);
    assert_eq!(base, swapped_lon);
}

#[test]
fn rectangle_edges_are_inclusive() {
    let svc = service();
    let p = pt(409_146_138, -746_188_906);
    let hits = svc.list_features(&Rectangle { lo: p, hi: p });
    assert_eq!(hits.len(), 1);
    assert_eq!(hits[0].name, BERKSHIRE);
    let off = svc.list_features(&Rectangle { lo: pt(409_146_139, -746_188_906), hi: pt(409_200_000, -746_000_000) });
    assert!(off.is_empty());
}

#[test]
fn listed_features_lie_in_rectangle() {
    let svc = service();
    let rect = Rectangle { lo: pt(420_000_000, -730_000_000), hi: pt(400_000_000, -750_000_000) };
    let hits = svc.list_features(&rect);
    assert_eq!(hits.len(), 4);
    for f in &hits {
        let p = f.location.unwrap();
        assert!(400_000_000 <= p.latitude && p.latitude <= 420_000_000);
        assert!(-750_000_000 <= p.longitude && p.longitude <= -730_000_000);
        assert!(in_range(&p, &rect));
    }
}

#[test]
fn in_range_normalizes_both_axes() {
    let rect = Rectangle { lo: pt(10, 20), hi: pt(-10, -20) };
    assert!(in_range(&pt(0, 0), &rect));
    assert!(in_range(&pt(10, -20), &rect));
    assert!(!in_range(&pt(11, 0), &rect));
    assert!(!in_range(&pt(0, 21), &rect));
    assert!(!in_range(&pt(0, -21), &rect));
}

#[test]
fn empty_route_summary_is_zero() {
    let acc = RouteAccumulator::new();
    let s = acc.finish(0);
    assert_eq!(s.point_count, 0);
    assert_eq!(s.feature_count, 0);
    assert_eq!(s.distance, 0);
    assert!(s.elapsed_time >= 0);
}

#[test]
fn two_point_route_counts_known_features() {
    let svc = service();
    let (p1, p2) = (pt(409_146_138, -746_188_906), pt(1, 2));
    let mut acc = RouteAccumulator::new();
    svc.record_point(&mut acc, p1, 777);
    assert_eq!(acc.distance, 0);
    svc.record_point(&mut acc, p2, haversine(p1, p2));
    let s = acc.finish(3);
    assert_eq!(s.point_count, 2);
    assert_eq!(s.feature_count, 1);
    assert_eq!(s.distance, haversine(p1, p2));
    assert_eq!(s.elapsed_time, 3);
    assert_eq!(acc.previous(), Some(p2));
}

#[test]
fn route_distance_of_known_leg() {
    let svc = service();
    let (p1, p2) = (pt(409_146_138, -746_188_906), pt(410_248_224, -743_099_979));
    let leg = haversine(p1, p2);
    assert!((28_000..29_000).contains(&leg));
    let mut acc = RouteAccumulator::new();
    svc.record_point(&mut acc, p1, 0);
    svc.record_point(&mut acc, p2, leg);
    let s = acc.finish(0);
    assert_eq!(s.distance, leg);
    assert_eq!(s.feature_count, 2);
}

#[test]
fn route_distance_saturates() {
    let svc = service();
    let mut acc = RouteAccumulator::new();
    svc.record_point(&mut acc, pt(0, 0), 0);
    svc.record_point(&mut acc, pt(0, 1), i32::MAX - 5);
    svc.record_point(&mut acc, pt(0, 2), 10);
    assert_eq!(acc.distance, i32::MAX);
    assert_eq!(acc.point_count, 3);
    assert_eq!(acc.feature_count, 0);
}

#[test]
fn saturating_add_clamps_both_ways() {
    assert_eq!(saturating_add(2, 3), 5);
    assert_eq!(saturating_add(i32::MAX, 1), i32::MAX);
    assert_eq!(saturating_add(i32::MIN, -1), i32::MIN);
}

#[test]
fn chat_replays_location_history_only() {
    let mut relay = ChatRelay::new();
    let here = pt(1, 1);
    let there = pt(2, 2);
    let first = relay.post(RouteNote { location: Some(here), message: "a".into() }).unwrap();
    assert_eq!(first.len(), 1);
    let other = relay.post(RouteNote { location: Some(there), message: "x".into() }).unwrap();
    assert_eq!(other, vec![RouteNote { location: Some(there), message: "x".into() }]);
    let second = relay.post(RouteNote { location: Some(here), message: "b".into() }).unwrap();
    let msgs: Vec<String> = second.iter().map(|n| n.message.clone()).collect();
    assert_eq!(msgs, vec!["a".to_string(), "b".to_string()]);
    assert!(second.iter().all(|n| n.location == Some(here)));
}

#[test]
fn chat_refuses_note_without_location() {
    let mut relay = ChatRelay::new();
    let r = relay.post(RouteNote { location: None, message: "lost".into() });
    assert_eq!(r, Err(ChatError::MissingLocation));
    let next = relay.post(RouteNote { location: Some(pt(0, 0)), message: "found".into() }).unwrap();
    assert_eq!(next.len(), 1);
}

#[test]
fn berkshire_scenario() {
    let svc = RouteGuideService::new(vec![feature(BERKSHIRE, Some(pt(409_146_138, -746_188_906)))]);
    assert_eq!(svc.get_feature(&pt(409_146_138, -746_188_906)).name, BERKSHIRE);
    assert!(svc.get_feature(&pt(0, 0)).name.is_empty());
    let rect = Rectangle { lo: pt(400_000_000, -750_000_000), hi: pt(420_000_000, -730_000_000) };
    let hits = svc.list_features(&rect);
    assert!(hits.iter().any(|f| f.name == BERKSHIRE));
    let mut acc = RouteAccumulator::new();
    let (p1, p2) = (pt(409_146_138, -746_188_906), pt(410_248_224, -743_099_979));
    svc.record_point(&mut acc, p1, 0);
    svc.record_point(&mut acc, p2, haversine(p1, p2));
    let s = acc.finish(0);
    assert_eq!(s.point_count, 2);
    assert!(s.distance > 0);
}
