//! What the service takes from its callers and hands back to them.

use vstd::prelude::*;

use super::models::Weather;
use crate::timestamp::Timestamp;

verus! {

/// The status of a success that carries a body.
pub const OK: u16 = 200;

/// The status of a success that carries none.
pub const NO_CONTENT: u16 = 204;

/// A success as it leaves for the transport: the status and the body.
#[derive(Debug)]
pub struct Reply<T> {
    pub status_code: u16,
    pub body: T,
}

#[derive(Debug, PartialEq, Eq, Structural, Clone, Copy)]
pub struct WeatherForecastResponse {
    /// Current weather
    pub forecast: Weather,
    /// When is the forecast not valid anymore
    pub valid_until: Timestamp,
}

#[derive(Debug, PartialEq, Eq, Structural, Clone, Copy)]
pub struct RegionUpsertRequest {
    /// Weather forecast for the region
    pub forecast: Weather,
    /// For how many hours the forecast considered is valid
    pub valid_for_hours: u64,
}

#[derive(Debug)]
pub struct RegionListResponse {
    pub regions: Vec<String>,
}

} // verus!
