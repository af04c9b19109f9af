//! The four operations on forecasts by region. Each one is stated on what the
//! backing table answered: the caller runs the statement, and the rules here
//! say what is written and what is replied.

use vstd::prelude::*;

use super::dtos::{
    RegionListResponse, RegionUpsertRequest, Reply, WeatherForecastResponse, NO_CONTENT, OK,
};
use super::models::{seen, Weather, WeatherForecast, WeatherForecastView};
use super::store::{
    chronological, decodable, found, keyed, merged, taken, upserted, write_keeps_table_sound, Table,
};
use crate::error::{
    internal_failure, missing, outcome, ErrorResponse, ErrorResponseView, INTERNAL_SERVER_ERROR,
};
use crate::timestamp::Timestamp;

verus! {

/// The reply that a stored record makes: its forecast, decoded, and the moment
/// until which it holds. A record whose forecast names no condition is a fault
/// of the table and an internal failure.
pub open spec fn reply_of(
    row: WeatherForecastView,
    expose_internal_errors: bool,
) -> Result<Reply<WeatherForecastResponse>, ErrorResponseView> {
    match Weather::parse(row.forecast) {
        Some(forecast) => Ok(
            Reply {
                status_code: OK,
                body: WeatherForecastResponse { forecast, valid_until: row.valid_until },
            },
        ),
        None => Err(
            internal_failure(
                "Invalid weather forecast format in the database..."@,
                expose_internal_errors,
            ),
        ),
    }
}

/// The reply to a read, from the record that the table holds for the region,
/// if it holds one.
pub open spec fn forecast_reply(
    row: Option<WeatherForecastView>,
    expose_internal_errors: bool,
) -> Result<Reply<WeatherForecastResponse>, ErrorResponseView> {
    match row {
        Some(row) => reply_of(row, expose_internal_errors),
        None => Err(missing("Region not found."@)),
    }
}

/// The record that a write at the moment `now` hands to the table: valid for
/// the requested hours from `now`, created and updated at `now`. There is none
/// where no date and time names the end of its validity.
pub open spec fn written(
    region: Seq<char>,
    payload: RegionUpsertRequest,
    now: Timestamp,
) -> Option<WeatherForecastView> {
    match now.plus_hours(payload.valid_for_hours as int) {
        Some(valid_until) => Some(
            WeatherForecastView {
                region,
                forecast: payload.forecast.name(),
                valid_until,
                created_at: now,
                updated_at: now,
            },
        ),
        None => None,
    }
}

/// The reply to a write, from the record that the table holds after it. No
/// record stands for a write that failed.
pub open spec fn upsert_reply(
    stored: Option<WeatherForecastView>,
    expose_internal_errors: bool,
) -> Result<Reply<WeatherForecastResponse>, ErrorResponseView> {
    match stored {
        Some(row) => reply_of(row, expose_internal_errors),
        None => Err(internal_failure("Failed to upsert region."@, expose_internal_errors)),
    }
}

/// The reply to a removal, from the number of records that left the table: a
/// success without a body where a record left. No number stands for a removal
/// that failed.
pub open spec fn delete_reply(
    deleted: Option<usize>,
    expose_internal_errors: bool,
) -> Result<Reply<()>, ErrorResponseView> {
    match deleted {
        Some(count) => if count == 0 {
            Err(missing("Region not found."@))
        } else {
            Ok(Reply { status_code: NO_CONTENT, body: () })
        },
        None => Err(internal_failure("Failed to delete region."@, expose_internal_errors)),
    }
}

/// The reply to a listing, from the distinct regions that the table gave. No
/// list stands for a read that failed.
pub open spec fn list_reply(
    loaded: Option<Vec<String>>,
    expose_internal_errors: bool,
) -> Result<Reply<RegionListResponse>, ErrorResponseView> {
    match loaded {
        Some(regions) => Ok(Reply { status_code: OK, body: RegionListResponse { regions } }),
        None => Err(internal_failure("Failed to fetch regions."@, expose_internal_errors)),
    }
}

fn decode(row: &WeatherForecast, expose_internal_errors: bool) -> (reply: Result<
    Reply<WeatherForecastResponse>,
    ErrorResponse,
>)
    ensures
        outcome(reply) == reply_of(row@, expose_internal_errors),
{
    match Weather::from_str(row.forecast.as_str()) {
        Some(forecast) => Ok(
            Reply {
                status_code: OK,
                body: WeatherForecastResponse { forecast, valid_until: row.valid_until },
            },
        ),
        None => Err(
            ErrorResponse::internal_server_error(
                "Invalid weather forecast format in the database...",
                expose_internal_errors,
            ),
        ),
    }
}

/// Get current weather forecast for a region. `row` is the record that the
/// table holds under the region's exact name, or `None` where it gave none.
pub fn weather_forecast(row: Option<WeatherForecast>, expose_internal_errors: bool) -> (reply:
    Result<Reply<WeatherForecastResponse>, ErrorResponse>)
    ensures
        outcome(reply) == forecast_reply(seen(row), expose_internal_errors),
{
    match row {
        Some(row) => decode(&row, expose_internal_errors),
        None => Err(ErrorResponse::not_found("Region not found.")),
    }
}

/// The record that a write for `region` at the moment `now` hands to the
/// table, to be inserted, or on a region that has a record already, to replace
/// its forecast, its validity and its moment of update. `None` where no date
/// and time names the end of the validity: nothing is written then.
pub fn new_forecast(region: &str, payload: &RegionUpsertRequest, now: Timestamp) -> (record:
    Option<WeatherForecast>)
    requires
        now.wf(),
    ensures
        seen(record) == written(region@, *payload, now),
{
    match now.checked_add_hours(payload.valid_for_hours) {
        Some(valid_until) => Some(
            WeatherForecast {
                region: region.to_owned(),
                forecast: payload.forecast.as_str().to_owned(),
                valid_until,
                created_at: now,
                updated_at: now,
            },
        ),
        None => None,
    }
}

/// Insert or update a weather forecast for a region. `stored` is the record
/// that the table holds for the region after the write, or `None` where the
/// write failed or nothing could be written.
pub fn upsert_forecast(stored: Option<WeatherForecast>, expose_internal_errors: bool) -> (reply:
    Result<Reply<WeatherForecastResponse>, ErrorResponse>)
    ensures
        outcome(reply) == upsert_reply(seen(stored), expose_internal_errors),
{
    match stored {
        Some(row) => decode(&row, expose_internal_errors),
        None => Err(
            ErrorResponse::internal_server_error(
                "Failed to upsert region.",
                expose_internal_errors,
            ),
        ),
    }
}

/// Delete a weather forecast for a region. `deleted` is the number of records
/// that the removal took from the table, or `None` where it failed.
pub fn delete_region(deleted: Option<usize>, expose_internal_errors: bool) -> (reply: Result<
    Reply<()>,
    ErrorResponse,
>)
    ensures
        outcome(reply) == delete_reply(deleted, expose_internal_errors),
{
    match deleted {
        Some(count) => if count == 0 {
            Err(ErrorResponse::not_found("Region not found."))
        } else {
            Ok(Reply { status_code: NO_CONTENT, body: () })
        },
        None => Err(
            ErrorResponse::internal_server_error(
                "Failed to delete region.",
                expose_internal_errors,
            ),
        ),
    }
}

/// List all regions with weather forecasts. `loaded` holds the distinct region
/// names that the table gave, or `None` where the read failed.
pub fn list_regions(loaded: Option<Vec<String>>, expose_internal_errors: bool) -> (reply: Result<
    Reply<RegionListResponse>,
    ErrorResponse,
>)
    ensures
        outcome(reply) == list_reply(loaded, expose_internal_errors),
{
    match loaded {
        Some(regions) => Ok(Reply { status_code: OK, body: RegionListResponse { regions } }),
        None => Err(
            ErrorResponse::internal_server_error(
                "Failed to fetch regions.",
                expose_internal_errors,
            ),
        ),
    }
}

/// A write answers with what was written, and so does a read of the region
/// that follows it: the forecast of the request, valid until the requested
/// hours after the moment of the write. This holds wherever a date and time
/// names that end, whether or not the region had a record. On a region that
/// had none, the record found is the one written, created at that moment.
pub proof fn read_after_write(
    table: Table,
    region: Seq<char>,
    payload: RegionUpsertRequest,
    now: Timestamp,
    expose_internal_errors: bool,
)
    requires
        written(region, payload, now) is Some,
    ensures
        ({
            let record = written(region, payload, now)->0;
            let valid_until = Timestamp {
                secs: (now.secs + 3600 * payload.valid_for_hours) as i64,
                nanos: now.nanos,
            };
            let reply = Ok::<Reply<WeatherForecastResponse>, ErrorResponseView>(
                Reply {
                    status_code: OK,
                    body: WeatherForecastResponse { forecast: payload.forecast, valid_until },
                },
            );
            &&& valid_until.secs == now.secs + 3600 * payload.valid_for_hours
            &&& upsert_reply(Some(merged(table, record)), expose_internal_errors) == reply
            &&& forecast_reply(found(upserted(table, record), region), expose_internal_errors)
                == reply
            &&& !table.contains_key(region) ==> found(upserted(table, record), region) == Some(
                record,
            ) && record.created_at == now && record.updated_at == now
        }),
{
    Weather::decode_inverts_encode(payload.forecast, payload.forecast.name());
}

/// A write to a region that has a record leaves the record's moment of
/// creation as it was and sets its moment of update to that of the write.
pub proof fn rewrite_updates_in_place(
    table: Table,
    region: Seq<char>,
    payload: RegionUpsertRequest,
    now: Timestamp,
)
    requires
        table.contains_key(region),
        written(region, payload, now) is Some,
    ensures
        ({
            let after = upserted(table, written(region, payload, now)->0);
            &&& after[region].created_at == table[region].created_at
            &&& after[region].updated_at == now
            &&& now != table[region].updated_at ==> after[region].updated_at
                != table[region].updated_at
        }),
{
}

/// What the service writes keeps a table sound. Records stay under their own
/// regions, and their forecasts still name conditions. No record is updated
/// before it was created, as long as the moment of a write to a region that
/// has a record is not before that record's creation.
pub proof fn writes_keep_table_sound(
    table: Table,
    region: Seq<char>,
    payload: RegionUpsertRequest,
    now: Timestamp,
)
    requires
        written(region, payload, now) is Some,
    ensures
        ({
            let after = upserted(table, written(region, payload, now)->0);
            &&& keyed(table) ==> keyed(after)
            &&& decodable(table) ==> decodable(after)
            &&& chronological(table) && (table.contains_key(region)
                ==> table[region].created_at.at_or_before(now)) ==> chronological(after)
        }),
{
    Weather::decode_inverts_encode(payload.forecast, payload.forecast.name());
    write_keeps_table_sound(table, written(region, payload, now)->0);
}

/// The removal of a region that has a record succeeds. A second removal of
/// the same region finds nothing, and neither does a read of it.
pub proof fn delete_succeeds_once(
    table: Table,
    region: Seq<char>,
    expose_internal_errors: bool,
)
    ensures
        table.contains_key(region) ==> delete_reply(
            Some(taken(table, region)),
            expose_internal_errors,
        ) == Ok::<Reply<()>, ErrorResponseView>(Reply { status_code: NO_CONTENT, body: () }),
        delete_reply(Some(taken(table.remove(region), region)), expose_internal_errors) == Err::<
            Reply<()>,
            ErrorResponseView,
        >(missing("Region not found."@)),
        forecast_reply(found(table.remove(region), region), expose_internal_errors) == Err::<
            Reply<WeatherForecastResponse>,
            ErrorResponseView,
        >(missing("Region not found."@)),
{
}

/// The reason of an internal failure leaves the service only where internal
/// reasons are exposed: where they are not, every reply that the four
/// operations give with the status of an internal failure carries the one
/// fixed reason.
pub proof fn internal_reasons_held_back(
    row: Option<WeatherForecastView>,
    deleted: Option<usize>,
    loaded: Option<Vec<String>>,
)
    ensures
        forecast_reply(row, false) matches Err(error) ==> (error.status_code
            == INTERNAL_SERVER_ERROR ==> error.reason == "Internal server error"@),
        upsert_reply(row, false) matches Err(error) ==> error.reason == "Internal server error"@,
        delete_reply(deleted, false) matches Err(error) ==> (error.status_code
            == INTERNAL_SERVER_ERROR ==> error.reason == "Internal server error"@),
        list_reply(loaded, false) matches Err(error) ==> error.reason == "Internal server error"@,
{
}

} // verus!
