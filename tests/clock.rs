use bedtime_bot::clock::{day_of_reading, first_fire, next_fire_instant, pick_instant, Time, TimeZone};

fn berlin() -> TimeZone {
    TimeZone::parse("Europe/Berlin").expect("known zone")
}

#[test]
fn time_new_checks_ranges() {
    assert_eq!(Time::new(22, 30), Some(Time { hour: 22, minute: 30 }));
    assert_eq!(Time::new(0, 0), Some(Time { hour: 0, minute: 0 }));
    assert_eq!(Time::new(24, 0), None);
    assert_eq!(Time::new(23, 60), None);
}

#[test]
fn record_text_is_zero_padded() {
    assert_eq!(Time { hour: 7, minute: 5 }.to_record_text(), "07:05");
    assert_eq!(Time { hour: 23, minute: 59 }.to_record_text(), "23:59");
    assert_eq!(Time { hour: 0, minute: 0 }.to_record_text(), "00:00");
}

#[test]
fn record_text_reads_back() {
    for hour in 0..24u8 {
        for minute in 0..60u8 {
            let t = Time { hour, minute };
            assert_eq!(Time::from_record_text(&t.to_record_text()), Some(t));
        }
    }
}

#[test]
fn record_text_rejects_malformed() {
    assert_eq!(Time::from_record_text("24:00"), None);
    assert_eq!(Time::from_record_text("12:60"), None);
    assert_eq!(Time::from_record_text("7:05"), None);
    assert_eq!(Time::from_record_text("07-05"), None);
    assert_eq!(Time::from_record_text("ab:cd"), None);
    assert_eq!(Time::from_record_text(""), None);
    assert_eq!(Time::from_record_text("07:05 "), None);
}

#[test]
fn twelve_hour_text() {
    assert_eq!(Time { hour: 22, minute: 30 }.to_string(), "10:30 PM");
    assert_eq!(Time { hour: 0, minute: 0 }.to_string(), "12:00 AM");
    assert_eq!(Time { hour: 12, minute: 15 }.to_string(), "12:15 PM");
    assert_eq!(Time { hour: 9, minute: 5 }.to_string(), "09:05 AM");
}

#[test]
fn twelve_hour_parse() {
    assert_eq!(Time::from_str("10:30 PM"), Some(Time { hour: 22, minute: 30 }));
    assert_eq!(Time::from_str("12:00 AM"), Some(Time { hour: 0, minute: 0 }));
    assert_eq!(Time::from_str("12:15 PM"), Some(Time { hour: 12, minute: 15 }));
    assert_eq!(Time::from_str("bedtime"), None);
    assert_eq!(Time::from_str("22:30"), None);
}

#[test]
fn zone_names() {
    assert_eq!(berlin().name(), "Europe/Berlin");
    assert!(TimeZone::parse("Mars/Olympus_Mons").is_none());
    assert!(TimeZone::parse("europe/berlin").is_none());
    assert!(TimeZone::parse("").is_none());
    assert_eq!(TimeZone::parse("America/Los_Angeles").map(|z| z.name()), Some("America/Los_Angeles".to_string()));
}

#[test]
fn fires_today_when_still_ahead() {
    // 2024-06-01 22:29 in Berlin (summer time, UTC+2)
    let bedtime = Time { hour: 22, minute: 30 };
    assert_eq!(next_fire_instant(&berlin(), bedtime, 1717273740), Some(1717273800));
}

#[test]
fn fires_tomorrow_at_the_bedtime_itself() {
    // exactly 22:30:00 local: the next firing is strictly later
    let bedtime = Time { hour: 22, minute: 30 };
    assert_eq!(next_fire_instant(&berlin(), bedtime, 1717273800), Some(1717360200));
    assert_eq!(next_fire_instant(&berlin(), bedtime, 1717273801), Some(1717360200));
}

#[test]
fn skips_a_bedtime_lost_to_the_spring_gap() {
    // 02:30 does not exist in Berlin on 2024-03-31; from 2024-03-30 12:00 UTC
    // the next 02:30 is on 2024-04-01, summer time
    let bedtime = Time { hour: 2, minute: 30 };
    assert_eq!(next_fire_instant(&berlin(), bedtime, 1711800000), Some(1711931400));
}

#[test]
fn takes_the_second_pass_of_a_repeated_hour() {
    // 2024-10-27 in Berlin: 02:00-03:00 happens twice; at the second 02:15
    // the next 02:30 is the second one, a quarter of an hour later
    let bedtime = Time { hour: 2, minute: 30 };
    assert_eq!(next_fire_instant(&berlin(), bedtime, 1729991700), Some(1729992600));
}

#[test]
fn fires_in_western_and_half_hour_zones() {
    let la = TimeZone::parse("America/Los_Angeles").unwrap();
    assert_eq!(next_fire_instant(&la, Time { hour: 23, minute: 0 }, 1705298400), Some(1705302000));
    let kolkata = TimeZone::parse("Asia/Kolkata").unwrap();
    assert_eq!(next_fire_instant(&kolkata, Time { hour: 0, minute: 15 }, 1705341600), Some(1705344300));
}

#[test]
fn next_fire_is_after_now_and_within_a_day() {
    let bedtime = Time { hour: 22, minute: 30 };
    let mut now: i64 = 1704067200; // 2024-01-01 00:00 UTC
    while now < 1735689600 {
        let fire = next_fire_instant(&berlin(), bedtime, now).expect("a firing");
        assert!(fire > now);
        assert!(fire - now <= 25 * 3600);
        now += 7 * 3600 + 17 * 60 + 3;
    }
}

#[test]
fn day_of_reading_floors() {
    assert_eq!(day_of_reading(0), 0);
    assert_eq!(day_of_reading(86399), 0);
    assert_eq!(day_of_reading(86400), 1);
    assert_eq!(day_of_reading(-1), -1);
    assert_eq!(day_of_reading(-86399), -1);
    assert_eq!(day_of_reading(1717281000), 19875);
}

#[test]
fn pick_instant_prefers_the_first_that_reads_back() {
    // an ordinary reading: one instant, after now
    assert_eq!(pick_instant(100, 7300, 100 + 100, 7100, 200, 7100), Some(200));
    // the first is not after now, the second is
    assert_eq!(pick_instant(2000, 5000, 1400, 3600, 5000, 0), Some(5000));
    // neither is after now
    assert_eq!(pick_instant(9000, 5000, 1400, 3600, 5000, 0), None);
    // an instant whose offset does not read the reading back
    assert_eq!(pick_instant(0, 5000, 1400, 3000, 1400, 3000), None);
    // both qualify: the first wins
    assert_eq!(pick_instant(0, 5000, 1400, 3600, 5000, 0), Some(1400));
}

#[test]
fn first_fire_takes_the_earliest_day() {
    assert_eq!(first_fire(Some(1), Some(2), Some(3)), Some(1));
    assert_eq!(first_fire(None, Some(2), Some(3)), Some(2));
    assert_eq!(first_fire(None, None, Some(3)), Some(3));
    assert_eq!(first_fire(None, None, None), None);
}
