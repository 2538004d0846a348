//! The analog clock of a named time zone: zone lookup, the wall-clock time
//! there at a given instant, the three hand angles and the colour tone.
use vstd::prelude::*;
use chrono::Timelike;

verus! {

/// Whether `name` is an identifier of the compiled time-zone database.
pub uninterp spec fn zone_known(name: Seq<char>) -> bool;

/// Hour, minute and second of the wall clock in zone `zone` at `instant`
/// (seconds since the Unix epoch), by the zone's rules in the database.
pub uninterp spec fn wall_clock_of(zone: Seq<char>, instant: int) -> (int, int, int);

/// The display label of the wall-clock time in zone `zone` at `instant`.
pub uninterp spec fn time_label_of(zone: Seq<char>, instant: int) -> Seq<char>;

/// The instants (seconds since the Unix epoch) from this many seconds before
/// the epoch to this many after it lie well inside the calendar's range.
pub const INSTANT_LIMIT: i64 = 8_000_000_000_000;

/// The wall-clock time of a zone at one instant, with its display label
/// (weekday, day, month, year, 24-hour time, UTC offset, zone abbreviation).
#[derive(Debug)]
pub struct LocalTime {
    pub hour: u8,
    pub minute: u8,
    pub second: u8,
    pub label: String,
}

impl LocalTime {
    pub open spec fn wf(&self) -> bool {
        self.hour < 24 && self.minute < 60 && self.second < 60
    }
}

/// Why no clock face could be computed.
#[derive(Clone, Copy, Debug, PartialEq, Eq, Structural)]
pub enum ZoneClockError {
    /// The zone name is not in the time-zone database.
    InvalidZone,
    /// The instant lies outside the range the calendar can represent.
    InstantOutOfRange,
}

/// Relies on chrono-tz's `Tz::from_str` (an exact lookup of the name in the
/// compiled zone table), chrono's `DateTime::from_timestamp_secs` (none
/// outside the representable range), `with_timezone`, the `Timelike` getters
/// (an hour below 24, a minute and a second below 60) and `format`. The
/// conversion fails only outside about 262 thousand years around the epoch.
#[verifier::external_body]
fn wall_clock(zone: &str, instant_secs: i64) -> (r: Result<LocalTime, ZoneClockError>)
    ensures
        (r is Err && r->Err_0 == ZoneClockError::InvalidZone) <==> !zone_known(zone@),
        zone_known(zone@) && -INSTANT_LIMIT <= instant_secs <= INSTANT_LIMIT ==> r is Ok,
        r matches Ok(t) ==> t.wf() && (t.hour as int, t.minute as int, t.second as int)
            == wall_clock_of(zone@, instant_secs as int) && t.label@ == time_label_of(
            zone@,
            instant_secs as int,
        ),
{
    let tz = match zone.parse::<chrono_tz::Tz>() {
        Ok(tz) => tz,
        Err(_) => return Err(ZoneClockError::InvalidZone),
    };
    let local = match chrono::DateTime::from_timestamp_secs(instant_secs) {
        Some(utc) => utc.with_timezone(&tz),
        None => return Err(ZoneClockError::InstantOutOfRange),
    };
    Ok(LocalTime {
        hour: local.hour() as u8,
        minute: local.minute() as u8,
        second: local.second() as u8,
        label: local.format("%a %e %b %Y %H:%M:%S %:z %Z").to_string(),
    })
}

/// The colour tone of the clock face, by hour of day.
#[derive(Clone, Copy, Debug, PartialEq, Eq, Structural)]
pub enum Tone {
    Night,
    Morning,
    Afternoon,
    Evening,
    Late,
}

/// Half-open ranges of the hour: [0,6) night, [6,12) morning,
/// [12,18) afternoon, [18,21) evening, [21,24) late.
pub open spec fn tone_of(hour: int) -> Tone {
    if hour < 6 {
        Tone::Night
    } else if hour < 12 {
        Tone::Morning
    } else if hour < 18 {
        Tone::Afternoon
    } else if hour < 21 {
        Tone::Evening
    } else {
        Tone::Late
    }
}

/// Hand angles are in tenths of a degree, on a dial whose zero lies a quarter
/// turn counter-clockwise from twelve o'clock. The hour is not reduced to a
/// twelve-hour dial.
pub open spec fn hour_angle(hour: int, minute: int) -> int {
    hour * 300 + minute * 5 - 900
}

pub open spec fn minute_angle(minute: int, second: int) -> int {
    minute * 60 + second - 900
}

pub open spec fn second_angle(second: int) -> int {
    second * 60 - 900
}

/// What the clock face shows for one wall-clock time.
#[derive(Debug)]
pub struct ClockFace {
    pub label: String,
    pub hour: u8,
    pub minute: u8,
    pub second: u8,
    pub hour_angle_tenths: i32,
    pub minute_angle_tenths: i32,
    pub second_angle_tenths: i32,
    pub tone: Tone,
}

impl ClockFace {
    /// The angles and the tone are those of the face's own time.
    pub open spec fn is_consistent(&self) -> bool {
        &&& self.hour < 24 && self.minute < 60 && self.second < 60
        &&& self.hour_angle_tenths == hour_angle(self.hour as int, self.minute as int)
        &&& self.minute_angle_tenths == minute_angle(self.minute as int, self.second as int)
        &&& self.second_angle_tenths == second_angle(self.second as int)
        &&& self.tone == tone_of(self.hour as int)
    }

    /// The face shows the wall clock of `zone` at `instant`.
    pub open spec fn shows_wall_clock(&self, zone: Seq<char>, instant: int) -> bool {
        &&& self.is_consistent()
        &&& (self.hour as int, self.minute as int, self.second as int) == wall_clock_of(zone, instant)
        &&& self.label@ == time_label_of(zone, instant)
    }

    pub open spec fn shows(&self, t: LocalTime) -> bool {
        &&& self.is_consistent()
        &&& self.label@ == t.label@
        &&& self.hour == t.hour && self.minute == t.minute && self.second == t.second
    }
}

/// The tone for an hour of the day.
pub fn tone_for_hour(hour: u8) -> (r: Tone)
    requires
        hour < 24,
    ensures
        r == tone_of(hour as int),
{
    if hour < 6 {
        Tone::Night
    } else if hour < 12 {
        Tone::Morning
    } else if hour < 18 {
        Tone::Afternoon
    } else if hour < 21 {
        Tone::Evening
    } else {
        Tone::Late
    }
}

/// The hand angles and tone of a wall-clock time.
pub fn clock_face(t: LocalTime) -> (r: ClockFace)
    requires
        t.wf(),
    ensures
        r.shows(t),
{
    let h = t.hour as i32;
    let m = t.minute as i32;
    let s = t.second as i32;
    ClockFace {
        hour: t.hour,
        minute: t.minute,
        second: t.second,
        hour_angle_tenths: h * 300 + m * 5 - 900,
        minute_angle_tenths: m * 60 + s - 900,
        second_angle_tenths: s * 60 - 900,
        tone: tone_for_hour(t.hour),
        label: t.label,
    }
}

/// The clock face of `zone` at `instant_secs` (seconds since the Unix epoch,
/// captured once by the caller).
pub fn zone_clock(zone: &str, instant_secs: i64) -> (r: Result<ClockFace, ZoneClockError>)
    ensures
        (r is Err && r->Err_0 == ZoneClockError::InvalidZone) <==> !zone_known(zone@),
        zone_known(zone@) && -INSTANT_LIMIT <= instant_secs <= INSTANT_LIMIT ==> r is Ok,
        r matches Ok(f) ==> f.shows_wall_clock(zone@, instant_secs as int),
{
    match wall_clock(zone, instant_secs) {
        Ok(t) => Ok(clock_face(t)),
        Err(e) => Err(e),
    }
}

/// The clock computation is deterministic: two faces that show the wall
/// clock of the same zone at the same instant agree in time, label, hand
/// angles and tone.
pub proof fn lemma_zone_clock_deterministic(zone: Seq<char>, instant: int, a: ClockFace, b: ClockFace)
    requires
        a.shows_wall_clock(zone, instant),
        b.shows_wall_clock(zone, instant),
    ensures
        a.hour == b.hour && a.minute == b.minute && a.second == b.second,
        a.label@ == b.label@,
        a.hour_angle_tenths == b.hour_angle_tenths,
        a.minute_angle_tenths == b.minute_angle_tenths,
        a.second_angle_tenths == b.second_angle_tenths,
        a.tone == b.tone,
{
}

} // verus!
