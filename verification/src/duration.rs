//! A human-readable rendering of a duration in seconds.  The grammar is
//! deliberately quirky in places (notably "1 hour N minutes" with a plural
//! even for N = 1) and is preserved literally.

use vstd::prelude::*;
use vstd::string::StringExecFns;

use crate::decimal::{spec_decimal, u64_to_decimal};

verus! {

/// What `format_duration` renders: round to whole days beyond fifteen days;
/// days with an hour remainder from two days up; bare hours above nineteen;
/// bare seconds under a minute; the one-minute forms with their singular
/// second; bare minutes under an hour; the one-hour forms; and hours with a
/// minute remainder for the rest.
pub open spec fn spec_format_duration(secs: u64) -> Seq<char> {
    let mins = secs / 60;
    let hours = mins / 60;
    let m = mins % 60;
    let days = hours / 24;
    if days > 15 {
        spec_decimal(((hours / 12 + 1) / 2) as nat) + " days"@
    } else if days >= 2 {
        if hours % 24 == 0 {
            spec_decimal(days as nat) + " days"@
        } else if hours % 24 == 1 {
            spec_decimal(days as nat) + " days 1 hour"@
        } else {
            spec_decimal(days as nat) + " days "@ + spec_decimal((hours % 24) as nat) + " hours"@
        }
    } else if hours > 19 {
        spec_decimal(hours as nat) + " hours"@
    } else if hours == 0 && m == 0 {
        spec_decimal(secs as nat) + " seconds"@
    } else if hours == 0 && m == 1 && secs == 61 {
        "1 minute 1 second"@
    } else if hours == 0 && m == 1 {
        "1 minute "@ + spec_decimal((secs % 60) as nat) + " seconds"@
    } else if hours == 0 {
        spec_decimal(m as nat) + " minutes"@
    } else if hours == 1 && m == 0 {
        "1 hour"@
    } else if hours == 1 {
        "1 hour "@ + spec_decimal(m as nat) + " minutes"@
    } else if m == 0 {
        spec_decimal(hours as nat) + " hours"@
    } else if m == 1 {
        spec_decimal(hours as nat) + " hours 1 minute"@
    } else {
        spec_decimal(hours as nat) + " hours "@ + spec_decimal(m as nat) + " minutes"@
    }
}

/// Render a duration in seconds for a human reader.
pub fn format_duration(secs: u64) -> (s: String)
    ensures
        s@ == spec_format_duration(secs),
{
    let mins = secs / 60;
    let hours = mins / 60;
    let mins = mins % 60;
    let days = hours / 24;
    if days > 15 {
        // round to nearest day
        let mut s = u64_to_decimal((hours / 12 + 1) / 2);
        s.append(" days");
        s
    } else if days >= 2 {
        if hours % 24 == 0 {
            let mut s = u64_to_decimal(days);
            s.append(" days");
            s
        } else if hours % 24 == 1 {
            let mut s = u64_to_decimal(days);
            s.append(" days 1 hour");
            s
        } else {
            let mut s = u64_to_decimal(days);
            s.append(" days ");
            s.append(u64_to_decimal(hours % 24).as_str());
            s.append(" hours");
            s
        }
    } else if hours > 19 {
        let mut s = u64_to_decimal(hours);
        s.append(" hours");
        s
    } else if hours == 0 && mins == 0 {
        let mut s = u64_to_decimal(secs);
        s.append(" seconds");
        s
    } else if hours == 0 && mins == 1 && secs == 61 {
        "1 minute 1 second".to_owned()
    } else if hours == 0 && mins == 1 {
        let mut s = "1 minute ".to_owned();
        s.append(u64_to_decimal(secs % 60).as_str());
        s.append(" seconds");
        s
    } else if hours == 0 {
        let mut s = u64_to_decimal(mins);
        s.append(" minutes");
        s
    } else if hours == 1 && mins == 0 {
        "1 hour".to_owned()
    } else if hours == 1 {
        let mut s = "1 hour ".to_owned();
        s.append(u64_to_decimal(mins).as_str());
        s.append(" minutes");
        s
    } else if mins == 0 {
        let mut s = u64_to_decimal(hours);
        s.append(" hours");
        s
    } else if mins == 1 {
        let mut s = u64_to_decimal(hours);
        s.append(" hours 1 minute");
        s
    } else {
        let mut s = u64_to_decimal(hours);
        s.append(" hours ");
        s.append(u64_to_decimal(mins).as_str());
        s.append(" minutes");
        s
    }
}

} // verus!
