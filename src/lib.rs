//! Route guide: a fixed catalog of named, geolocated features served through
//! exact lookups, rectangle range queries, route summaries and a
//! location-keyed note relay.

pub mod geometry;
pub mod model;
pub mod spatial;
pub mod tables;
pub mod index;
pub mod route;
pub mod chat;
pub mod service;

pub use service::RouteGuideService;
