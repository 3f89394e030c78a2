//! The upstream query: the credential check and the request URL.
use vstd::prelude::*;
use vstd::utf8::encode_utf8;

use crate::error::WeatherError;
use crate::report::Request;

verus! {

/// Whether a byte passes through percent-encoding unchanged: an ASCII
/// letter or digit, or one of `-`, `.`, `_`, `~`.
pub open spec fn is_unreserved(b: u8) -> bool {
    (0x30 <= b && b <= 0x39) || (0x41 <= b && b <= 0x5a) || (0x61 <= b && b <= 0x7a)
        || b == 0x2d || b == 0x2e || b == 0x5f || b == 0x7e
}

/// The upper-case hexadecimal digit for a value below sixteen.
pub open spec fn hex_digit(d: u8) -> char {
    seq!['0', '1', '2', '3', '4', '5', '6', '7', '8', '9', 'A', 'B', 'C', 'D', 'E', 'F'][d as int]
}

/// What one byte becomes: itself when unreserved, else `%` and its two hex digits.
pub open spec fn encode_byte(b: u8) -> Seq<char> {
    if is_unreserved(b) {
        seq![b as char]
    } else {
        seq!['%', hex_digit(b / 16), hex_digit(b % 16)]
    }
}

/// Percent-encoding of a byte string, byte by byte.
pub open spec fn percent_encoded(bytes: Seq<u8>) -> Seq<char>
    decreases bytes.len(),
{
    if bytes.len() == 0 {
        seq![]
    } else {
        percent_encoded(bytes.drop_last()) + encode_byte(bytes.last())
    }
}

/// The text of a city name as it stands in a URL query component.
pub open spec fn encoded_city(city: Seq<char>) -> Seq<char> {
    percent_encoded(encode_utf8(city))
}

/// The lookup URL for an already encoded city, a credential and a units value.
pub open spec fn url_of(encoded: Seq<char>, key: Seq<char>, units: Seq<char>) -> Seq<char> {
    "https://api.openweathermap.org/data/2.5/find?q="@ + encoded + "&appid="@ + key + "&units="@
        + units
}

/// Relies on urlencoding::encode, which turns every UTF-8 byte of the text
/// that is not an ASCII letter, digit, `-`, `.`, `_` or `~` into `%` and two
/// upper-case hex digits, and keeps the others.
#[verifier::external_body]
fn percent_encode(s: &str) -> (r: String)
    ensures
        r@ == percent_encoded(encode_utf8(s@)),
{
    urlencoding::encode(s).into_owned()
}

/// Builds the lookup URL from a city name that is already percent-encoded.
pub fn request_url(encoded: &str, key: &str, units: &str) -> (r: String)
    ensures
        r@ == url_of(encoded@, key@, units@),
{
    let mut url = String::from_str("https://api.openweathermap.org/data/2.5/find?q=");
    url.append(encoded);
    url.append("&appid=");
    url.append(key);
    url.append("&units=");
    url.append(units);
    url
}

/// Builds the lookup URL for a city name as given: the name is percent-encoded,
/// the credential and the units go in as they are.
pub fn upstream_url(city: &str, key: &str, units: &str) -> (r: String)
    ensures
        r@ == url_of(encoded_city(city@), key@, units@),
{
    let encoded = percent_encode(city);
    request_url(encoded.as_str(), key, units)
}

/// Resolves the credential and builds the lookup URL for a request. Without a
/// credential this is a configuration error, whatever the request holds.
pub fn prepare(request: &Request, api_key: Option<String>) -> (r: Result<String, WeatherError>)
    ensures
        api_key is None <==> r == Err::<String, WeatherError>(WeatherError::Config),
        api_key is Some <==> r is Ok,
        api_key matches Some(k) ==> (r matches Ok(u) && u@ == url_of(
            encoded_city(request.city@),
            k@,
            request.units@,
        )),
{
    match api_key {
        None => Err(WeatherError::Config),
        Some(key) => Ok(upstream_url(request.city.as_str(), key.as_str(), request.units.as_str())),
    }
}

} // verus!
