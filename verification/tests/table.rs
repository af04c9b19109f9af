use backend_template::timestamp::Timestamp;
use backend_template::weather::dtos::{RegionUpsertRequest, WeatherForecastResponse};
use backend_template::weather::models::{Weather, WeatherForecast};
use backend_template::weather::router::{
    delete_region, list_regions, new_forecast, upsert_forecast, weather_forecast,
};
use backend_template::weather::store::RegionStore;

fn moment(secs: i64) -> Timestamp {
    Timestamp::new(secs, 0).unwrap()
}

fn put(
    store: &mut RegionStore,
    region: &str,
    forecast: Weather,
    hours: u64,
    now: Timestamp,
) -> WeatherForecastResponse {
    let payload = RegionUpsertRequest { forecast, valid_for_hours: hours };
    let stored = new_forecast(region, &payload, now).map(|record| store.upsert(record));
    let reply = upsert_forecast(stored, false).unwrap();
    assert_eq!(reply.status_code, 200);
    reply.body
}

fn sorted(mut names: Vec<String>) -> Vec<String> {
    names.sort();
    names
}

#[test]
fn an_empty_table_holds_nothing() {
    let mut store = RegionStore::new();
    assert!(store.find("Tokyo").is_none());
    assert!(store.regions().is_empty());
    assert_eq!(store.delete("Tokyo"), 0);
}

#[test]
fn upsert_then_get_on_a_fresh_region() {
    let mut store = RegionStore::new();
    let now = Timestamp::new(1_700_000_000, 777).unwrap();
    let written = put(&mut store, "Lima", Weather::Cloudy, 6, now);
    let expected = WeatherForecastResponse {
        forecast: Weather::Cloudy,
        valid_until: Timestamp { secs: 1_700_000_000 + 6 * 3600, nanos: 777 },
    };
    assert_eq!(written, expected);
    assert_eq!(weather_forecast(store.find("Lima"), false).unwrap().body, expected);
    let row = store.find("Lima").unwrap();
    assert_eq!(row.region, "Lima");
    assert_eq!(row.forecast, "Cloudy");
    assert_eq!(row.created_at, now);
    assert_eq!(row.updated_at, now);
}

#[test]
fn upsert_returns_the_stored_record() {
    let mut store = RegionStore::new();
    let first = store.upsert(WeatherForecast {
        region: "Lima".to_string(),
        forecast: "Rain".to_string(),
        valid_until: moment(50),
        created_at: moment(10),
        updated_at: moment(10),
    });
    assert_eq!(first.created_at, moment(10));
    assert_eq!(first.updated_at, moment(10));
    let second = store.upsert(WeatherForecast {
        region: "Lima".to_string(),
        forecast: "Snow".to_string(),
        valid_until: moment(90),
        created_at: moment(20),
        updated_at: moment(20),
    });
    assert_eq!(second.region, "Lima");
    assert_eq!(second.forecast, "Snow");
    assert_eq!(second.valid_until, moment(90));
    assert_eq!(second.created_at, moment(10));
    assert_eq!(second.updated_at, moment(20));
}

#[test]
fn upsert_of_an_existing_region_keeps_created_at() {
    let mut store = RegionStore::new();
    put(&mut store, "Lima", Weather::Cloudy, 6, moment(1_000));
    let reply = put(&mut store, "Lima", Weather::Snow, 1, moment(5_000));
    assert_eq!(reply, WeatherForecastResponse { forecast: Weather::Snow, valid_until: moment(8_600) });
    let row = store.find("Lima").unwrap();
    assert_eq!(row.forecast, "Snow");
    assert_eq!(row.valid_until, moment(8_600));
    assert_eq!(row.created_at, moment(1_000));
    assert_eq!(row.updated_at, moment(5_000));
    assert_eq!(store.regions(), vec!["Lima".to_string()]);
}

#[test]
fn regions_are_case_sensitive() {
    let mut store = RegionStore::new();
    put(&mut store, "Lima", Weather::Cloudy, 6, moment(1_000));
    put(&mut store, "lima", Weather::Rain, 6, moment(2_000));
    assert_eq!(store.find("Lima").unwrap().forecast, "Cloudy");
    assert_eq!(store.find("lima").unwrap().forecast, "Rain");
    assert!(store.find("LIMA").is_none());
    assert_eq!(sorted(store.regions()), vec!["Lima".to_string(), "lima".to_string()]);
}

#[test]
fn a_write_leaves_other_regions_alone() {
    let mut store = RegionStore::new();
    put(&mut store, "A", Weather::Sunny, 1, moment(100));
    put(&mut store, "B", Weather::Rain, 2, moment(200));
    put(&mut store, "A", Weather::Snow, 3, moment(300));
    let b = store.find("B").unwrap();
    assert_eq!(b.forecast, "Rain");
    assert_eq!(b.valid_until, moment(200 + 7_200));
    assert_eq!(b.created_at, moment(200));
    assert_eq!(b.updated_at, moment(200));
}

#[test]
fn delete_succeeds_once_then_finds_nothing() {
    let mut store = RegionStore::new();
    put(&mut store, "Lima", Weather::Cloudy, 6, moment(1_000));
    assert_eq!(delete_region(Some(store.delete("Lima")), false).unwrap().status_code, 204);
    let e = delete_region(Some(store.delete("Lima")), false).unwrap_err();
    assert_eq!(e.status_code, 404);
    assert_eq!(e.reason, "Region not found.");
    assert!(store.find("Lima").is_none());
}

#[test]
fn delete_takes_one_region_only() {
    let mut store = RegionStore::new();
    put(&mut store, "A", Weather::Sunny, 1, moment(100));
    put(&mut store, "B", Weather::Rain, 2, moment(200));
    put(&mut store, "C", Weather::Snow, 3, moment(300));
    assert_eq!(store.delete("B"), 1);
    assert_eq!(sorted(store.regions()), vec!["A".to_string(), "C".to_string()]);
    assert_eq!(store.find("A").unwrap().forecast, "Sunny");
    assert_eq!(store.find("C").unwrap().forecast, "Snow");
    assert_eq!(store.delete("A"), 1);
    assert_eq!(store.delete("C"), 1);
    assert!(store.regions().is_empty());
}

#[test]
fn a_deleted_region_starts_anew() {
    let mut store = RegionStore::new();
    put(&mut store, "Lima", Weather::Cloudy, 6, moment(1_000));
    assert_eq!(store.delete("Lima"), 1);
    put(&mut store, "Lima", Weather::Rain, 1, moment(9_000));
    let row = store.find("Lima").unwrap();
    assert_eq!(row.created_at, moment(9_000));
    assert_eq!(row.updated_at, moment(9_000));
}

#[test]
fn list_after_upserting_a_and_b_and_deleting_a() {
    let mut store = RegionStore::new();
    put(&mut store, "A", Weather::Sunny, 1, moment(100));
    put(&mut store, "B", Weather::Rain, 2, moment(200));
    assert!(delete_region(Some(store.delete("A")), false).is_ok());
    let reply = list_regions(Some(store.regions()), false).unwrap();
    assert_eq!(reply.status_code, 200);
    assert_eq!(reply.body.regions, vec!["B".to_string()]);
}

#[test]
fn regions_are_listed_once_each() {
    let mut store = RegionStore::new();
    for (i, region) in ["A", "B", "A", "C", "B", "A"].iter().enumerate() {
        put(&mut store, region, Weather::Sunny, 1, moment(i as i64));
    }
    assert_eq!(sorted(store.regions()), vec!["A".to_string(), "B".to_string(), "C".to_string()]);
}

#[test]
fn two_writes_to_one_region_do_not_mix() {
    let a = (Weather::Sunny, 1u64, moment(1_000));
    let b = (Weather::Snow, 9u64, moment(1_001));
    for (first, second) in [(a, b), (b, a)] {
        let mut store = RegionStore::new();
        put(&mut store, "Lima", first.0, first.1, first.2);
        put(&mut store, "Lima", second.0, second.1, second.2);
        let row = store.find("Lima").unwrap();
        assert_eq!(row.forecast, second.0.as_str());
        assert_eq!(row.valid_until, second.2.checked_add_hours(second.1).unwrap());
        assert_eq!(row.updated_at, second.2);
        assert_eq!(row.created_at, first.2);
    }
}

#[test]
fn a_write_that_cannot_be_made_changes_nothing() {
    let mut store = RegionStore::new();
    put(&mut store, "Lima", Weather::Cloudy, 6, moment(1_000));
    let payload = RegionUpsertRequest { forecast: Weather::Rain, valid_for_hours: u64::MAX };
    let stored = new_forecast("Lima", &payload, moment(2_000)).map(|record| store.upsert(record));
    let e = upsert_forecast(stored, true).unwrap_err();
    assert_eq!(e.status_code, 500);
    assert_eq!(e.reason, "Failed to upsert region.");
    assert_eq!(store.find("Lima").unwrap().forecast, "Cloudy");
}

#[test]
fn put_get_delete_get_for_tokyo() {
    let mut store = RegionStore::new();
    let now = Timestamp::new(1_750_000_000, 5).unwrap();
    let body = WeatherForecastResponse {
        forecast: Weather::Rain,
        valid_until: Timestamp { secs: 1_750_000_000 + 4 * 3600, nanos: 5 },
    };
    let payload = RegionUpsertRequest { forecast: Weather::from_str("Rain").unwrap(), valid_for_hours: 4 };
    let stored = new_forecast("Tokyo", &payload, now).map(|record| store.upsert(record));
    let put = upsert_forecast(stored, false).unwrap();
    assert!(put.status_code == 200 || put.status_code == 201);
    assert_eq!(put.body, body);
    assert_eq!(body.forecast.as_str(), "Rain");
    let get = weather_forecast(store.find("Tokyo"), false).unwrap();
    assert_eq!(get.status_code, 200);
    assert_eq!(get.body, body);
    let delete = delete_region(Some(store.delete("Tokyo")), false).unwrap();
    assert_eq!(delete.status_code, 204);
    let e = weather_forecast(store.find("Tokyo"), false).unwrap_err();
    let parts = e.into_response(false);
    assert_eq!(parts.status_code, 404);
    assert_eq!(parts.reason.as_deref(), Some("Region not found."));
}

#[test]
fn any_text_is_a_region() {
    let mut store = RegionStore::new();
    put(&mut store, "", Weather::Sunny, 1, moment(1));
    put(&mut store, "São Paulo", Weather::Rain, 1, moment(2));
    put(&mut store, "Sao Paulo", Weather::Snow, 1, moment(3));
    put(&mut store, " ", Weather::Cloudy, 1, moment(4));
    assert_eq!(store.find("").unwrap().forecast, "Sunny");
    assert_eq!(store.find("São Paulo").unwrap().forecast, "Rain");
    assert_eq!(store.find("Sao Paulo").unwrap().forecast, "Snow");
    assert_eq!(store.find(" ").unwrap().forecast, "Cloudy");
    assert_eq!(store.regions().len(), 4);
    assert_eq!(store.delete(""), 1);
    assert!(store.find("").is_none());
    assert_eq!(store.regions().len(), 3);
}

#[test]
fn many_regions() {
    let mut store = RegionStore::new();
    for i in 0..200 {
        put(&mut store, &format!("region-{i}"), Weather::Sunny, i, moment(i as i64));
    }
    for i in (0..200).step_by(2) {
        assert_eq!(store.delete(&format!("region-{i}")), 1);
    }
    assert_eq!(store.regions().len(), 100);
    for i in 0..200u64 {
        let row = store.find(&format!("region-{i}"));
        if i % 2 == 0 {
            assert!(row.is_none());
        } else {
            let row = row.unwrap();
            assert_eq!(row.valid_until, moment(i as i64 + 3600 * i as i64));
            assert_eq!(row.created_at, moment(i as i64));
        }
    }
}

#[test]
fn a_corrupt_record_in_the_table_is_an_internal_failure() {
    let mut store = RegionStore::new();
    store.upsert(WeatherForecast {
        region: "Lima".to_string(),
        forecast: "Drizzle".to_string(),
        valid_until: moment(50),
        created_at: moment(10),
        updated_at: moment(10),
    });
    let e = weather_forecast(store.find("Lima"), true).unwrap_err();
    assert_eq!(e.status_code, 500);
    assert_eq!(e.reason, "Invalid weather forecast format in the database...");
    let parts = weather_forecast(store.find("Lima"), false).unwrap_err().into_response(false);
    assert_eq!(parts.status_code, 500);
    assert_eq!(parts.reason, None);
}
