use northwind_browser::clock::{
    clock_face, tone_for_hour, zone_clock, LocalTime, Tone, ZoneClockError, INSTANT_LIMIT,
};
use northwind_browser::handlers::{
    zonetime_handler, zonetimes_handler, DEFAULT_ZONE, MISSING_ZONE_MSG,
};
use northwind_browser::views::Page;

/// 2024-01-15T12:00:00Z
const NOON_2024_01_15: i64 = 1_705_320_000;

#[test]
fn london_at_noon_utc() {
    let face = zone_clock("Europe/London", NOON_2024_01_15).unwrap();
    assert_eq!((face.hour, face.minute, face.second), (12, 0, 0));
    assert_eq!(face.hour_angle_tenths, 2700);
    assert_eq!(face.minute_angle_tenths, -900);
    assert_eq!(face.second_angle_tenths, -900);
    assert_eq!(face.tone, Tone::Afternoon);
    assert_eq!(face.label, "Mon 15 Jan 2024 12:00:00 +00:00 GMT");
}

#[test]
fn same_instant_and_zone_give_same_face() {
    let a = zone_clock("Europe/London", NOON_2024_01_15).unwrap();
    let b = zone_clock("Europe/London", NOON_2024_01_15).unwrap();
    assert_eq!(a.label, b.label);
    assert_eq!(a.hour_angle_tenths, b.hour_angle_tenths);
    assert_eq!(a.tone, b.tone);
}

#[test]
fn new_york_is_offset_from_utc() {
    let face = zone_clock("America/New_York", NOON_2024_01_15 + 30 * 60 + 45).unwrap();
    assert_eq!((face.hour, face.minute, face.second), (7, 30, 45));
    assert_eq!(face.hour_angle_tenths, 7 * 300 + 30 * 5 - 900);
    assert_eq!(face.minute_angle_tenths, 30 * 60 + 45 - 900);
    assert_eq!(face.second_angle_tenths, 45 * 60 - 900);
    assert_eq!(face.tone, Tone::Morning);
    assert!(face.label.ends_with("-05:00 EST"));
}

#[test]
fn hand_angles_of_a_wall_clock_time() {
    let t = LocalTime { hour: 15, minute: 30, second: 45, label: "x".to_string() };
    let face = clock_face(t);
    assert_eq!(face.hour_angle_tenths, 3750);
    assert_eq!(face.minute_angle_tenths, 945);
    assert_eq!(face.second_angle_tenths, 1800);
    assert_eq!(face.tone, Tone::Afternoon);
    assert_eq!(face.label, "x");
    let late = clock_face(LocalTime { hour: 23, minute: 59, second: 59, label: String::new() });
    assert_eq!(late.hour_angle_tenths, 23 * 300 + 59 * 5 - 900);
    assert_eq!(late.tone, Tone::Late);
}

#[test]
fn tone_boundaries_are_half_open() {
    assert_eq!(tone_for_hour(0), Tone::Night);
    assert_eq!(tone_for_hour(5), Tone::Night);
    assert_eq!(tone_for_hour(6), Tone::Morning);
    assert_eq!(tone_for_hour(11), Tone::Morning);
    assert_eq!(tone_for_hour(12), Tone::Afternoon);
    assert_eq!(tone_for_hour(17), Tone::Afternoon);
    assert_eq!(tone_for_hour(18), Tone::Evening);
    assert_eq!(tone_for_hour(20), Tone::Evening);
    assert_eq!(tone_for_hour(21), Tone::Late);
    assert_eq!(tone_for_hour(23), Tone::Late);
}

#[test]
fn unknown_zone_is_rejected() {
    assert_eq!(zone_clock("Not/AZone", NOON_2024_01_15).unwrap_err(), ZoneClockError::InvalidZone);
    assert_eq!(zone_clock("", NOON_2024_01_15).unwrap_err(), ZoneClockError::InvalidZone);
    assert_eq!(zone_clock("europe/london", NOON_2024_01_15).unwrap_err(), ZoneClockError::InvalidZone);
    match zonetime_handler(Some("Not/AZone"), NOON_2024_01_15) {
        Page::BadRequest(t) => assert_eq!(t.errmsg, "unknown time zone: Not/AZone"),
        other => panic!("unexpected {:?}", other),
    }
}

#[test]
fn missing_zone_is_rejected() {
    match zonetime_handler(None, NOON_2024_01_15) {
        Page::BadRequest(t) => assert_eq!(t.errmsg, MISSING_ZONE_MSG),
        other => panic!("unexpected {:?}", other),
    }
}

#[test]
fn known_zone_renders_clock_face() {
    match zonetime_handler(Some("Europe/London"), NOON_2024_01_15) {
        Page::ZoneClock(t) => {
            assert_eq!(t.face.hour_angle_tenths, 2700);
            assert_eq!(t.face.tone, Tone::Afternoon);
        }
        other => panic!("unexpected {:?}", other),
    }
    match zonetimes_handler() {
        Page::ZoneSelect(t) => assert_eq!(t.default_zone, DEFAULT_ZONE),
        other => panic!("unexpected {:?}", other),
    }
}

#[test]
fn known_zone_succeeds_across_the_instant_range() {
    for zone in ["Europe/London", "Pacific/Kiritimati", "America/Adak", "UTC"] {
        for instant in [-INSTANT_LIMIT, -1, 0, NOON_2024_01_15, INSTANT_LIMIT] {
            let face = zone_clock(zone, instant).unwrap();
            assert!(face.hour < 24 && face.minute < 60 && face.second < 60);
        }
    }
    match zonetime_handler(Some("Asia/Tokyo"), INSTANT_LIMIT) {
        Page::ZoneClock(_) => {}
        other => panic!("unexpected {:?}", other),
    }
}

#[test]
fn instant_beyond_the_calendar_is_out_of_range() {
    assert_eq!(zone_clock("Europe/London", i64::MAX).unwrap_err(), ZoneClockError::InstantOutOfRange);
    assert_eq!(zone_clock("Not/AZone", i64::MAX).unwrap_err(), ZoneClockError::InvalidZone);
}
