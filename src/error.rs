//! The ways a lookup fails, and the message each one reports.
use vstd::prelude::*;
use vstd::string::StrSliceExecFns;

verus! {

/// Why a lookup produced no report.
#[derive(Debug)]
pub enum WeatherError {
    /// The request or the service's answer is not JSON of the expected shape.
    Decode(String),
    /// No credential for the service is configured.
    Config,
    /// The service answered with a status outside `200..300`; `body` is its
    /// answer as text.
    Upstream { status: u16, body: String },
    /// The service knows no city of that name.
    NotFound,
    /// The service could not be reached.
    Network(String),
}

/// The decimal digit for a value below ten.
pub open spec fn digit_char(d: nat) -> char {
    seq!['0', '1', '2', '3', '4', '5', '6', '7', '8', '9'][d as int]
}

/// The decimal text of a natural number, without leading zeros.
pub open spec fn decimal(n: nat) -> Seq<char>
    decreases n,
{
    if n < 10 {
        seq![digit_char(n)]
    } else {
        decimal(n / 10) + seq![digit_char(n % 10)]
    }
}

/// The message reported for a failure.
pub open spec fn message_of(e: WeatherError) -> Seq<char> {
    match e {
        WeatherError::Decode(m) => m@,
        WeatherError::Config => "OPENWEATHER_API_KEY environment variable not set"@,
        WeatherError::Upstream { status, body } => "Weather API error ("@ + decimal(status as nat)
            + "): "@ + body@,
        WeatherError::NotFound => "no weather data found for this city"@,
        WeatherError::Network(m) => m@,
    }
}

fn append_digit(s: &mut String, d: u16)
    requires
        d < 10,
    ensures
        final(s)@ == old(s)@ + seq![digit_char(d as nat)],
{
    let digits = "0123456789";
    proof {
        reveal_strlit("0123456789");
    }
    let one = digits.substring_char(d as usize, d as usize + 1);
    assert(one@ =~= seq![digit_char(d as nat)]);
    s.append(one);
}

/// Appends the decimal text of `n`.
pub fn append_decimal(s: &mut String, n: u16)
    ensures
        final(s)@ == old(s)@ + decimal(n as nat),
    decreases n,
{
    if n >= 10 {
        append_decimal(s, n / 10);
    }
    append_digit(s, n % 10);
    assert(final(s)@ =~= old(s)@ + decimal(n as nat));
}

impl WeatherError {
    /// The human-readable description of the failure.
    pub fn message(&self) -> (r: String)
        ensures
            r@ == message_of(*self),
    {
        match self {
            WeatherError::Decode(m) => m.clone(),
            WeatherError::Config => String::from_str(
                "OPENWEATHER_API_KEY environment variable not set",
            ),
            WeatherError::Upstream { status, body } => {
                let mut r = String::from_str("Weather API error (");
                append_decimal(&mut r, *status);
                r.append("): ");
                r.append(body.as_str());
                assert(r@ =~= message_of(*self));
                r
            },
            WeatherError::NotFound => String::from_str("no weather data found for this city"),
            WeatherError::Network(m) => m.clone(),
        }
    }
}

} // verus!
