//! The request, the service's records, and the report made from them.
use vstd::prelude::*;
use vstd::utf8::{decode_utf8, valid_utf8};

use crate::error::WeatherError;
use crate::units::{default_units, spec_default_units, temperature_unit, unit_label};

verus! {

/// A lookup request: a city name and the units to ask for.
#[derive(Debug)]
pub struct Request {
    pub city: String,
    pub units: String,
}

/// One record of the service's answer. Temperature and wind speed are kept
/// as the bit patterns of the numbers the service sent, and carried through
/// unchanged.
#[derive(Debug)]
pub struct CityWeather {
    pub name: String,
    pub country: String,
    pub temperature_bits: u64,
    pub humidity: u32,
    /// The weather descriptions, in the order the service gave them.
    pub descriptions: Vec<String>,
    pub wind_speed_bits: u64,
}

/// The reshaped answer for one city.
#[derive(Debug)]
pub struct Report {
    pub city: String,
    pub country: Option<String>,
    pub temperature_bits: u64,
    pub temperature_unit: String,
    pub description: String,
    pub humidity: u32,
    pub wind_speed_bits: u64,
}

/// The description a report gives: the first one listed, else `unknown`.
pub open spec fn description_of(descriptions: Seq<String>) -> Seq<char> {
    if descriptions.len() > 0 {
        descriptions[0]@
    } else {
        "unknown"@
    }
}

/// Whether `report` is the reshaping of `record` for the requested `units`.
pub open spec fn reshapes(record: CityWeather, units: Seq<char>, report: Report) -> bool {
    &&& report.city@ == record.name@
    &&& report.country matches Some(c) && c@ == record.country@
    &&& report.temperature_bits == record.temperature_bits
    &&& report.temperature_unit@ == unit_label(units)
    &&& report.description@ == description_of(record.descriptions@)
    &&& report.humidity == record.humidity
    &&& report.wind_speed_bits == record.wind_speed_bits
}

/// Whether a status code means success.
pub open spec fn is_success(status: u16) -> bool {
    200 <= status && status < 300
}

/// A name for what `String::from_utf8_lossy` makes of a byte string.
pub uninterp spec fn lossy_text(bytes: Seq<u8>) -> Seq<char>;

/// Relies on String::from_utf8_lossy: the text of the bytes, with each invalid
/// sequence replaced; bytes that are valid UTF-8 come back as the text they
/// encode.
#[verifier::external_body]
fn text_of_bytes(bytes: &[u8]) -> (r: String)
    ensures
        r@ == lossy_text(bytes@),
        valid_utf8(bytes@) ==> r@ == decode_utf8(bytes@),
{
    String::from_utf8_lossy(bytes).into_owned()
}

impl Request {
    /// A request for `city`; units default to `metric` when none are given.
    pub fn new(city: String, units: Option<String>) -> (r: Request)
        ensures
            r.city@ == city@,
            units matches Some(u) ==> r.units@ == u@,
            units is None ==> r.units@ == spec_default_units(),
    {
        match units {
            Some(u) => Request { city, units: u },
            None => Request { city, units: default_units() },
        }
    }
}

/// Checks the service's status code. Any status outside `200..300` fails with
/// the status and the body read as text.
pub fn check_status(status: u16, body: &[u8]) -> (r: Result<(), WeatherError>)
    ensures
        is_success(status) <==> r is Ok,
        !is_success(status) ==> (r matches Err(WeatherError::Upstream { status: s, body: t })
            && s == status && t@ == lossy_text(body@)),
        !is_success(status) && valid_utf8(body@) ==> (r matches Err(
            WeatherError::Upstream { status: s, body: t },
        ) && t@ == decode_utf8(body@)),
{
    if 200 <= status && status < 300 {
        Ok(())
    } else {
        Err(WeatherError::Upstream { status, body: text_of_bytes(body) })
    }
}

/// The description for a record's list of weather descriptions.
pub fn first_description(descriptions: &Vec<String>) -> (r: String)
    ensures
        r@ == description_of(descriptions@),
{
    if descriptions.len() > 0 {
        descriptions[0].clone()
    } else {
        String::from_str("unknown")
    }
}

/// Reshapes one record of the service's answer into a report.
pub fn reshape(record: &CityWeather, units: &String) -> (r: Report)
    ensures
        reshapes(*record, units@, r),
{
    Report {
        city: record.name.clone(),
        country: Some(record.country.clone()),
        temperature_bits: record.temperature_bits,
        temperature_unit: temperature_unit(units),
        description: first_description(&record.descriptions),
        humidity: record.humidity,
        wind_speed_bits: record.wind_speed_bits,
    }
}

/// Reshapes the first record of the service's answer; with no record the
/// city is not found.
pub fn report_from(records: &Vec<CityWeather>, units: &String) -> (r: Result<Report, WeatherError>)
    ensures
        records@.len() == 0 <==> r is Err,
        records@.len() == 0 ==> r == Err::<Report, WeatherError>(WeatherError::NotFound),
        records@.len() > 0 ==> (r matches Ok(rep) && reshapes(records@[0], units@, rep)),
{
    if records.len() == 0 {
        Err(WeatherError::NotFound)
    } else {
        Ok(reshape(&records[0], units))
    }
}

} // verus!
