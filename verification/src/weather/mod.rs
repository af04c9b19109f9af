//! Forecasts by region: the data, the table that holds it and the replies.

pub mod dtos;
pub mod models;
pub mod router;
pub mod store;
