//! The weather conditions with their names, and the stored record.

use vstd::prelude::*;

use crate::text::str_eq;
use crate::timestamp::Timestamp;

verus! {

/// Known weather conditions.
#[derive(Debug, PartialEq, Eq, Structural, Clone, Copy)]
pub enum Weather {
    /// Sunny weather
    Sunny,
    /// Cloudy weather
    Cloudy,
    /// Rainy weather
    Rain,
    /// Snowy weather
    Snow,
}

impl Weather {
    /// The name under which a condition is stored and sent.
    pub open spec fn name(self) -> Seq<char> {
        match self {
            Weather::Sunny => "Sunny"@,
            Weather::Cloudy => "Cloudy"@,
            Weather::Rain => "Rain"@,
            Weather::Snow => "Snow"@,
        }
    }

    /// The condition that a text names, if it is exactly one of the four names.
    pub open spec fn parse(text: Seq<char>) -> Option<Weather> {
        if text == "Sunny"@ {
            Some(Weather::Sunny)
        } else if text == "Cloudy"@ {
            Some(Weather::Cloudy)
        } else if text == "Rain"@ {
            Some(Weather::Rain)
        } else if text == "Snow"@ {
            Some(Weather::Snow)
        } else {
            None
        }
    }

    /// Decodes a name. The match is exact and case-sensitive; any other text
    /// gives `None`, never a default condition.
    pub fn from_str(value: &str) -> (decoded: Option<Weather>)
        ensures
            decoded == Weather::parse(value@),
    {
        if str_eq(value, "Sunny") {
            Some(Weather::Sunny)
        } else if str_eq(value, "Cloudy") {
            Some(Weather::Cloudy)
        } else if str_eq(value, "Rain") {
            Some(Weather::Rain)
        } else if str_eq(value, "Snow") {
            Some(Weather::Snow)
        } else {
            None
        }
    }

    /// Encodes a condition as its name.
    pub fn as_str(&self) -> (encoded: &'static str)
        ensures
            encoded@ == self.name(),
    {
        match self {
            Weather::Sunny => "Sunny",
            Weather::Cloudy => "Cloudy",
            Weather::Rain => "Rain",
            Weather::Snow => "Snow",
        }
    }

    /// Decoding the name of a condition gives that condition back, and a text
    /// decodes to a condition only if it is that condition's name.
    pub proof fn decode_inverts_encode(w: Weather, text: Seq<char>)
        ensures
            Weather::parse(w.name()) == Some(w),
            Weather::parse(text) == Some(w) <==> text == w.name(),
            Weather::parse(text) is None <==> forall|v: Weather| text != v.name(),
    {
        Self::names_differ();
        if Weather::parse(text) is None {
            assert forall|v: Weather| text != v.name() by {
                if text == v.name() {
                    assert(Weather::parse(text) == Some(v));
                }
            }
        } else {
            let v = Weather::parse(text)->0;
            assert(text == v.name());
        }
    }

    /// No two conditions share a name.
    pub proof fn names_differ()
        ensures
            "Sunny"@ != "Cloudy"@,
            "Sunny"@ != "Rain"@,
            "Sunny"@ != "Snow"@,
            "Cloudy"@ != "Rain"@,
            "Cloudy"@ != "Snow"@,
            "Rain"@ != "Snow"@,
    {
        reveal_strlit("Sunny");
        reveal_strlit("Cloudy");
        reveal_strlit("Rain");
        reveal_strlit("Snow");
        assert("Sunny"@.len() == 5 && "Cloudy"@.len() == 6 && "Rain"@.len() == 4);
        assert("Rain"@[0] == 'R' && "Snow"@[0] == 'S');
    }
}

/// The forecast stored for one region. `created_at` is the moment of the
/// region's first write and `updated_at` that of its last.
#[derive(Debug)]
pub struct WeatherForecast {
    pub region: String,
    pub forecast: String,
    pub valid_until: Timestamp,
    pub created_at: Timestamp,
    pub updated_at: Timestamp,
}

/// What a `WeatherForecast` holds, as mathematics.
pub struct WeatherForecastView {
    pub region: Seq<char>,
    pub forecast: Seq<char>,
    pub valid_until: Timestamp,
    pub created_at: Timestamp,
    pub updated_at: Timestamp,
}

impl View for WeatherForecast {
    type V = WeatherForecastView;

    open spec fn view(&self) -> WeatherForecastView {
        WeatherForecastView {
            region: self.region@,
            forecast: self.forecast@,
            valid_until: self.valid_until,
            created_at: self.created_at,
            updated_at: self.updated_at,
        }
    }
}

impl Clone for WeatherForecast {
    fn clone(&self) -> (copy: Self)
        ensures
            copy@ == self@,
    {
        WeatherForecast {
            region: self.region.clone(),
            forecast: self.forecast.clone(),
            valid_until: self.valid_until,
            created_at: self.created_at,
            updated_at: self.updated_at,
        }
    }
}

/// A record that may be absent, seen as mathematics.
pub open spec fn seen(row: Option<WeatherForecast>) -> Option<WeatherForecastView> {
    match row {
        Some(record) => Some(record@),
        None => None,
    }
}

} // verus!
