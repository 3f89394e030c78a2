//! Facts that relate several functions of the library.
use vstd::prelude::*;

use crate::error::{decimal, message_of, WeatherError};
use crate::units::{imperial, spec_default_units, unit_label};

verus! {

/// A request that leaves its units out, and so gets the default `metric`,
/// is reported in Celsius.
pub proof fn omitted_units_read_as_celsius()
    ensures
        unit_label(spec_default_units()) == "C"@,
        unit_label("metric"@) == "C"@,
        unit_label("imperial"@) == "F"@,
{
    reveal_strlit("metric");
    reveal_strlit("imperial");
    assert(spec_default_units() != imperial()) by {
        assert(spec_default_units().len() != imperial().len());
    }
}

/// Every report labels its temperature `C` or `F`, whatever units were asked for.
pub proof fn label_is_celsius_or_fahrenheit(units: Seq<char>)
    ensures
        unit_label(units) == "C"@ || unit_label(units) == "F"@,
{
}

/// The message of a failed status names the status code in decimal, right
/// after the opening `Weather API error (`, and ends with the body text.
pub proof fn upstream_message_names_status_and_body(status: u16, body: String)
    ensures
        ({
            let m = message_of(WeatherError::Upstream { status, body });
            let d = decimal(status as nat);
            &&& m.subrange(19, 19 + d.len() as int) == d
            &&& m.subrange(m.len() - body@.len(), m.len() as int) == body@
        }),
{
    reveal_strlit("Weather API error (");
    reveal_strlit("): ");
    let m = message_of(WeatherError::Upstream { status, body });
    let d = decimal(status as nat);
    assert(m.subrange(19, 19 + d.len() as int) =~= d);
    assert(m.subrange(m.len() - body@.len(), m.len() as int) =~= body@);
}

} // verus!
