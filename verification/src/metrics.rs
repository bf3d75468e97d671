//! Click events: one record for every resolved short code.

use vstd::prelude::*;

verus! {

/// An angle in degrees, held as the bit pattern of its IEEE 754 binary64
/// representation.
#[derive(Debug, Clone, Copy, PartialEq, Eq)]
pub struct Coordinate {
    pub bits: u64,
}

/// One resolved short code, with what is known about the visitor.
#[derive(Debug, Clone, PartialEq, Eq)]
pub struct Metric {
    /// The anonymous identifier of the visitor.
    pub visitor_id: String,
    /// The short code that was resolved.
    pub shorthand_id: String,
    /// The moment of the resolve, in nanoseconds since the Unix epoch.
    pub created_at: i128,
    /// The target URL as it was when the code was resolved.
    pub url: String,
    /// The address of the client.
    pub ip: String,
    pub android: Option<bool>,
    pub ios: Option<bool>,
    pub mobile: Option<bool>,
    pub region_name: Option<String>,
    pub country: Option<String>,
    pub city: Option<String>,
    pub zip_code: Option<String>,
    pub time_zone: Option<String>,
    pub user_agent: Option<String>,
    pub longitude: Option<Coordinate>,
    pub latitude: Option<Coordinate>,
}

/// The spatial reference system of the stored points: WGS 84.
pub const WGS84_SRID: u32 = 4326;

/// A geographic point in a spatial reference system.
#[derive(Debug, Clone, Copy, PartialEq, Eq)]
pub struct GeoPoint {
    pub longitude: Coordinate,
    pub latitude: Coordinate,
    pub srid: u32,
}

/// The point of a pair of coordinates: both of them under WGS 84, or no point
/// where either is missing.
pub open spec fn location_of(longitude: Option<Coordinate>, latitude: Option<Coordinate>) -> Option<
    GeoPoint,
> {
    match (longitude, latitude) {
        (Some(lng), Some(lat)) => Some(
            GeoPoint { longitude: lng, latitude: lat, srid: WGS84_SRID },
        ),
        _ => None,
    }
}

impl Metric {
    /// Where the visitor was, if both coordinates are known.
    pub fn location(&self) -> (point: Option<GeoPoint>)
        ensures
            point == location_of(self.longitude, self.latitude),
    {
        match (self.longitude, self.latitude) {
            (Some(lng), Some(lat)) => Some(
                GeoPoint { longitude: lng, latitude: lat, srid: WGS84_SRID },
            ),
            _ => None,
        }
    }
}

} // verus!
