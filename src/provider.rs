use vstd::prelude::*;
use crate::url::{percent_encode, push_char, push_encoded};
use vstd::utf8::encode_utf8;

verus! {

/// Unit in which a provider reports temperatures.
#[derive(Clone, Copy, Debug, PartialEq, Eq, Structural)]
pub enum TemperatureUnit {
    Celsius,
    Fahrenheit,
}

/// Shape of the JSON body that a provider answers with.
#[derive(Clone, Copy, Debug, PartialEq, Eq, Structural)]
pub enum SchemaVariant {
    /// `location` and `currentConditions`, as a realtime endpoint sends them.
    Realtime,
    /// `coord`, `weather`, `main`, `wind`, `sys` and the rest of a current-weather endpoint.
    Current,
}

/// How to ask one weather provider for the conditions at a place.
#[derive(Clone, Debug, PartialEq, Eq)]
pub struct Provider {
    pub base_url: String,
    pub query_param: String,
    pub key_param: String,
    /// An extra `name=value` pair that selects the unit system, if the provider needs one.
    pub units_param: Option<(String, String)>,
    pub unit: TemperatureUnit,
    pub schema: SchemaVariant,
}

/// `=` then `value`, the second half of a query pair.
pub open spec fn assigned(value: Seq<char>) -> Seq<char> {
    seq!['='] + value
}

impl Provider {
    /// The trailing `&name=value` that selects the unit system, or nothing.
    pub open spec fn units_suffix(&self) -> Seq<char> {
        match self.units_param {
            Some(pair) => seq!['&'] + pair.0@ + assigned(pair.1@),
            None => Seq::empty(),
        }
    }

    /// The place name as it stands in a request URL: its UTF-8 bytes, percent-encoded.
    pub open spec fn encoded_query(query: Seq<char>) -> Seq<char> {
        percent_encode(encode_utf8(query))
    }

    /// The request URL for the place named `query`.
    pub open spec fn url_spec(&self, query: Seq<char>, key: Seq<char>) -> Seq<char> {
        self.base_url@ + seq!['?'] + self.query_param@ + assigned(Self::encoded_query(query))
            + seq!['&'] + self.key_param@ + assigned(key) + self.units_suffix()
    }

    /// Where the encoded place name starts in a request URL.
    pub open spec fn query_offset(&self) -> int {
        (self.base_url@.len() + 1 + self.query_param@.len() + 1) as int
    }

    /// Builds `base?query_param=<encoded query>&key_param=key[&units]`.
    pub fn request_url(&self, query: &str, api_key: &str) -> (r: String)
        ensures
            r@ == self.url_spec(query@, api_key@),
    {
        let mut url = self.base_url.clone();
        push_char(&mut url, '?');
        url.append(self.query_param.as_str());
        push_char(&mut url, '=');
        push_encoded(&mut url, query);
        push_char(&mut url, '&');
        url.append(self.key_param.as_str());
        push_char(&mut url, '=');
        url.append(api_key);
        match &self.units_param {
            Some(pair) => {
                push_char(&mut url, '&');
                url.append(pair.0.as_str());
                push_char(&mut url, '=');
                url.append(pair.1.as_str());
            },
            None => {},
        }
        assert(url@ =~= self.url_spec(query@, api_key@));
        url
    }

    /// A reading in tenths of a degree of this provider's unit, shown in
    /// hundredths of a degree Fahrenheit. Celsius goes through
    /// `F = C * 9 / 5 + 32`; a Fahrenheit reading is only rescaled.
    pub open spec fn shown_temperature(&self, reading_tenths: int) -> int {
        match self.unit {
            TemperatureUnit::Celsius => reading_tenths * 18 + 3200,
            TemperatureUnit::Fahrenheit => reading_tenths * 10,
        }
    }

    /// The temperature to display, in hundredths of a degree Fahrenheit, for a
    /// reading in tenths of a degree of the unit this provider reports.
    pub fn display_temperature(&self, reading_tenths: i32) -> (r: i64)
        ensures
            r == self.shown_temperature(reading_tenths as int),
    {
        match self.unit {
            TemperatureUnit::Celsius => reading_tenths as i64 * 18 + 3200,
            TemperatureUnit::Fahrenheit => reading_tenths as i64 * 10,
        }
    }
}

} // verus!
