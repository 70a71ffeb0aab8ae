//! What a table surface shows of itself: its title, and the time of day at
//! which it was created, in the time zone of its user.

use std::fmt::Write;
use vstd::prelude::*;
use vstd::string::*;
use crate::TableId;
use crate::decimal::{decimal, push_decimal};

verus! {

/// Whether `name` is the name of a time zone, as `chrono_tz` knows them.
pub uninterp spec fn is_zone(name: Seq<char>) -> bool;

/// The text that `chrono` gives for the instant `secs` seconds and `nsecs`
/// nanoseconds after the start of 1970, seen in the time zone named `zone`
/// and laid out by `pattern`; none where the instant, the zone or the
/// pattern is not valid.
pub uninterp spec fn clock_text(secs: i64, nsecs: u32, zone: Seq<char>, pattern: Seq<char>) -> Option<
    Seq<char>,
>;

/// Asks `chrono_tz` whether it knows a time zone by this name, through
/// `Tz::from_str`. The answer depends on the name alone: the zones are a
/// table compiled into that crate. Nothing more is claimed of it.
#[verifier::external_body]
fn known_zone(name: &str) -> (known: bool)
    ensures
        known == is_zone(name@),
{
    name.parse::<chrono_tz::Tz>().is_ok()
}

/// Has `chrono` write an instant as text: `TimeZone::timestamp_opt` on `Utc`
/// makes the instant, `DateTime::with_timezone` moves it to the zone that
/// `Tz::from_str` finds under `zone`, and `DateTime::format` lays it out by
/// `pattern`. The text depends on these four values alone; there is none
/// where `chrono` refuses the instant, the zone or the pattern. Nothing more
/// is claimed of it.
#[verifier::external_body]
fn clock(secs: i64, nsecs: u32, zone: &str, pattern: &str) -> (shown: Option<String>)
    ensures
        match shown {
            Some(text) => clock_text(secs, nsecs, zone@, pattern@) == Some(text@),
            None => clock_text(secs, nsecs, zone@, pattern@) is None,
        },
{
    let tz = zone.parse::<chrono_tz::Tz>().ok()?;
    let utc = chrono::TimeZone::timestamp_opt(&chrono::Utc, secs, nsecs).single()?;
    let mut text = String::new();
    match write!(text, "{}", utc.with_timezone(&tz).format(pattern)) {
        Ok(()) => Some(text),
        Err(_) => None,
    }
}

/// How the time of day is laid out: hours, minutes, seconds and
/// milliseconds, then the abbreviation of the time zone.
pub const CLOCK_PATTERN: &'static str = "%H:%M:%S%.3f %Z";

/// The time zone that is used where the user's is not known.
pub const MOUNTAIN: &'static str = "US/Mountain";

/// The title of the surface of table `id`.
pub open spec fn title_of(id: TableId) -> Seq<char> {
    "Table "@ + decimal(id as nat)
}

/// Builds the title of the surface of table `id`.
pub fn table_title(id: TableId) -> (title: String)
    ensures
        title@ == title_of(id),
{
    let mut title = String::from_str("Table ");
    push_decimal(&mut title, id as u64);
    title
}

/// The time zone to show times in: the one that the browser names, where it
/// names one that is known, and mountain time else.
pub open spec fn zone_choice(local: Option<Seq<char>>) -> Seq<char> {
    match local {
        Some(name) => if is_zone(name) {
            name
        } else {
            MOUNTAIN@
        },
        None => MOUNTAIN@,
    }
}

/// The characters of a text, where there is one.
pub open spec fn text_of(text: Option<String>) -> Option<Seq<char>> {
    match text {
        Some(t) => Some(t@),
        None => None,
    }
}

/// Chooses the time zone to show times in, given the name of the browser's,
/// if the browser told it.
pub fn timezone_from_browser_or_mountain(local: Option<String>) -> (zone: String)
    ensures
        zone@ == zone_choice(text_of(local)),
{
    match local {
        Some(name) => {
            if known_zone(name.as_str()) {
                name
            } else {
                String::from_str(MOUNTAIN)
            }
        },
        None => String::from_str(MOUNTAIN),
    }
}

/// What a table shows of its creation, given the time of day as text.
pub open spec fn created_text(clock: Seq<char>) -> Seq<char> {
    "Created at "@ + clock
}

/// Builds what a table shows of its creation from the time of day.
pub fn created_at(clock: &str) -> (state: String)
    ensures
        state@ == created_text(clock@),
{
    let mut state = String::from_str("Created at ");
    state.append(clock);
    state
}

/// What a table that was created `secs` seconds and `nsecs` nanoseconds
/// after the start of 1970 shows of its creation: the time of day in the
/// time zone chosen from the browser's, or nothing where that instant
/// cannot be shown.
pub fn created_state(secs: i64, nsecs: u32, local: Option<String>) -> (state: Option<String>)
    ensures
        text_of(state) == match clock_text(
            secs,
            nsecs,
            zone_choice(text_of(local)),
            CLOCK_PATTERN@,
        ) {
            Some(clock) => Some(created_text(clock)),
            None => None,
        },
{
    let zone = timezone_from_browser_or_mountain(local);
    match clock(secs, nsecs, zone.as_str(), CLOCK_PATTERN) {
        Some(text) => Some(created_at(text.as_str())),
        None => None,
    }
}

} // verus!
