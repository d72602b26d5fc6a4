//! The weather tool: verified construction of outbound request URLs
//! and verified interpretation of what came back from the upstream
//! weather/geocoding API.
//!
//! The handlers never perform I/O themselves. The surrounding process
//! fetches a URL and hands the outcome back as a [`FetchOutcome`]:
//! either a status code with a body, or a transport failure with its
//! message. Coordinates run through the library as the decimal text
//! the upstream API sent, so that they are forwarded unchanged.

use vstd::prelude::*;
use vstd::string::StringExecFns;

use crate::errors::{ErrorCategory, ToolError};
use crate::status::{map_status, spec_is_success, spec_status_category, spec_status_message};

verus! {

/// The weather service: it holds the immutable API credential supplied
/// at process startup.
#[derive(Debug, Clone)]
pub struct Weather {
    pub api_key: String,
}

/// A geographic position, as the decimal text of its latitude and
/// longitude exactly as the geocoding endpoint sent them.
#[derive(Debug, Clone)]
pub struct Location {
    pub lat: String,
    pub lon: String,
}

/// What an outbound HTTP call came to: a response with its status code
/// and body text, or a transport-level failure with its message.
#[derive(Debug)]
pub enum FetchOutcome {
    Response { status: u16, body: String },
    TransportFailure { message: String },
}

/// What the geocoding body parses to: `None` when it is not a JSON
/// array of objects carrying numeric `lat` and `lon` fields, otherwise
/// the entries' coordinate texts in order.
pub uninterp spec fn geo_parse(s: Seq<char>) -> Option<Seq<(Seq<char>, Seq<char>)>>;

/// Whether a string is well-formed JSON.
pub uninterp spec fn json_ok(s: Seq<char>) -> bool;

/// Relies on serde_json: `from_str` parses the body into JSON values,
/// `Value::get` picks the `lat` and `lon` fields of each entry, and
/// `Number::as_str` hands back the decimal text each field held. The
/// outcome depends on the body's characters alone.
#[verifier::external_body]
fn parse_geo_results(body: &str) -> (r: Result<Vec<Location>, String>)
    ensures
        match r {
            Ok(v) => geo_parse(body@) matches Some(g) && v@.len() == g.len() && (forall|i: int|
                0 <= i < g.len() ==> #[trigger] g[i] == (v@[i].lat@, v@[i].lon@)),
            Err(_) => geo_parse(body@) is None,
        },
{
    let entries: Vec<serde_json::Value> = match serde_json::from_str(body) {
        Ok(v) => v,
        Err(e) => return Err(e.to_string()),
    };
    let mut out = Vec::new();
    for e in &entries {
        match (e.get("lat"), e.get("lon")) {
            (Some(serde_json::Value::Number(lat)), Some(serde_json::Value::Number(lon))) => out
                .push(Location { lat: lat.as_str().to_owned(), lon: lon.as_str().to_owned() }),
            _ => return Err("entry without numeric lat and lon fields".to_owned()),
        }
    }
    Ok(out)
}

/// Relies on serde_json::from_str: whether the body is well-formed
/// JSON depends on its characters alone; on failure the parser's
/// message is handed back.
#[verifier::external_body]
fn check_json(body: &str) -> (r: Result<(), String>)
    ensures
        r is Ok <==> json_ok(body@),
{
    match serde_json::from_str::<serde_json::Value>(body) {
        Ok(_) => Ok(()),
        Err(e) => Err(e.to_string()),
    }
}

impl Weather {
    /// Builds the weather service around the startup credential.
    pub fn new(api_key: String) -> (w: Weather)
        ensures
            w.api_key == api_key,
    {
        Weather { api_key }
    }

    /// The geocoding request URL for a free-text place name.
    pub fn geocoding_url(&self, location: &str) -> (r: String)
        ensures
            r@ == "http://api.openweathermap.org/geo/1.0/direct?q="@ + location@
                + "&limit=1&appid="@ + self.api_key@,
    {
        let mut s = "http://api.openweathermap.org/geo/1.0/direct?q=".to_owned();
        s.append(location);
        s.append("&limit=1&appid=");
        s.append(self.api_key.as_str());
        s
    }

    /// The current-weather request URL for a position.
    pub fn current_weather_url(&self, lat: &str, lon: &str) -> (r: String)
        ensures
            r@ == "http://api.openweathermap.org/data/2.5/weather?lat="@ + lat@ + "&lon="@
                + lon@ + "&appid="@ + self.api_key@,
    {
        let mut s = "http://api.openweathermap.org/data/2.5/weather?lat=".to_owned();
        s.append(lat);
        s.append("&lon=");
        s.append(lon);
        s.append("&appid=");
        s.append(self.api_key.as_str());
        s
    }

    /// The 5-day/3-hour forecast request URL for a position.
    pub fn forecast_url(&self, lat: &str, lon: &str) -> (r: String)
        ensures
            r@ == "http://api.openweathermap.org/data/2.5/forecast?lat="@ + lat@ + "&lon="@
                + lon@ + "&appid="@ + self.api_key@,
    {
        let mut s = "http://api.openweathermap.org/data/2.5/forecast?lat=".to_owned();
        s.append(lat);
        s.append("&lon=");
        s.append(lon);
        s.append("&appid=");
        s.append(self.api_key.as_str());
        s
    }

    /// Interprets what the geocoding call came to: a transport failure
    /// is the caller's invalid request, a non-2xx status follows the
    /// shared status table, an unparseable body is an internal error,
    /// an empty result list means the place was not found, and
    /// otherwise the first entry's coordinates are returned.
    pub fn location_from_outcome(outcome: &FetchOutcome) -> (r: Result<Location, ToolError>)
        ensures
            (outcome matches FetchOutcome::TransportFailure { message } ==> (r matches Err(e)
                && e.category == ErrorCategory::InvalidRequest
                && e.message@ == "OpenWeatherMap API request failed: "@ + message@)),
            (outcome matches FetchOutcome::Response { status, body } ==> (if !spec_is_success(*status) {
                r matches Err(e) && e.category == spec_status_category(*status) && e.message@
                    == spec_status_message(*status)
            } else {
                match geo_parse(body@) {
                    None => r matches Err(e) && e.category == ErrorCategory::InternalError && (
                    exists|rest: Seq<char>| e.message@ == "Parse failed: "@ + rest),
                    Some(g) => if g.len() == 0 {
                        r matches Err(e) && e.category == ErrorCategory::NotFound && e.message@
                            == "Location not found"@
                    } else {
                        r matches Ok(loc) && loc.lat@ == g[0].0 && loc.lon@ == g[0].1
                    },
                }
            })),
    {
        let (status, body) = match outcome {
            FetchOutcome::TransportFailure { message } => {
                let mut m = "OpenWeatherMap API request failed: ".to_owned();
                m.append(message.as_str());
                return Err(ToolError::invalid_request(m));
            },
            FetchOutcome::Response { status, body } => (*status, body),
        };
        if let Some(e) = map_status(status) {
            return Err(e);
        }
        let mut entries = match parse_geo_results(body.as_str()) {
            Ok(v) => v,
            Err(m) => {
                let mut msg = "Parse failed: ".to_owned();
                msg.append(m.as_str());
                return Err(ToolError::internal_error(msg));
            },
        };
        if entries.len() == 0 {
            return Err(ToolError::not_found("Location not found".to_owned()));
        }
        let first = entries.remove(0);
        Ok(first)
    }

    /// Interprets what a current-weather or forecast call came to: a
    /// transport failure is the caller's invalid request, a non-2xx
    /// status follows the shared status table, a body that is not
    /// well-formed JSON is an internal error, and otherwise the body
    /// is forwarded unchanged.
    pub fn weather_json_from_outcome(outcome: &FetchOutcome) -> (r: Result<String, ToolError>)
        ensures
            (outcome matches FetchOutcome::TransportFailure { message } ==> (r matches Err(e)
                && e.category == ErrorCategory::InvalidRequest
                && e.message@ == "OpenWeatherMap API request failed: "@ + message@)),
            (outcome matches FetchOutcome::Response { status, body } ==> (if !spec_is_success(*status) {
                r matches Err(e) && e.category == spec_status_category(*status) && e.message@
                    == spec_status_message(*status)
            } else if json_ok(body@) {
                r matches Ok(s) && s@ == body@
            } else {
                r matches Err(e) && e.category == ErrorCategory::InternalError && (
                exists|rest: Seq<char>| e.message@ == "Parse failed: "@ + rest)
            })),
    {
        match outcome {
            FetchOutcome::TransportFailure { message } => {
                let mut m = "OpenWeatherMap API request failed: ".to_owned();
                m.append(message.as_str());
                Err(ToolError::invalid_request(m))
            },
            FetchOutcome::Response { status, body } => {
                if let Some(e) = map_status(*status) {
                    return Err(e);
                }
                match check_json(body.as_str()) {
                    Ok(_) => Ok(body.clone()),
                    Err(m) => {
                        let mut msg = "Parse failed: ".to_owned();
                        msg.append(m.as_str());
                        Err(ToolError::internal_error(msg))
                    },
                }
            },
        }
    }
}

} // verus!
