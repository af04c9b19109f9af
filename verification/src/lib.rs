//! A region-keyed weather-record service: the codec of the forecast names, the
//! error taxonomy, the records and the rules that turn the backing table's
//! answers into replies.

pub mod db;
pub mod error;
pub mod text;
pub mod timestamp;
pub mod weather;
