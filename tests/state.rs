use bedtime_bot::clock::{Time, TimeZone};
use bedtime_bot::state::{State, UserRecord};

fn berlin() -> TimeZone {
    TimeZone::parse("Europe/Berlin").unwrap()
}

#[test]
fn unknown_users_are_created_with_defaults() {
    let mut state: State<u32> = State::new();
    assert_eq!(state.describe(5), "**on**: true\n**time zone**: none\n**bedtime**: none");
    assert!(!state.can_attach(5));
    assert!(state.records().len() == 1);
}

#[test]
fn users_are_independent() {
    let mut state: State<u32> = State::new();
    state.set_time_zone(1, berlin());
    let plan = state.set_bedtime(1, Time { hour: 22, minute: 30 });
    assert!(plan.arm.is_some());
    assert!(state.can_attach(1));
    state.attach(1, 10);
    assert!(!state.can_attach(1));
    let other = state.set_bedtime(2, Time { hour: 21, minute: 0 });
    assert!(other.arm.is_none());
    assert!(other.cancelled.is_none());
    let off = state.off(1);
    assert_eq!(off.cancelled, Some(10));
    assert_eq!(state.describe(2), "**on**: true\n**time zone**: none\n**bedtime**: 09:00 PM");
}

#[test]
fn records_round_trip_through_a_restart() {
    let mut state: State<u32> = State::new();
    state.set_time_zone(1, berlin());
    state.set_bedtime(1, Time { hour: 22, minute: 30 });
    state.set_bedtime(2, Time { hour: 6, minute: 5 });
    state.off(2);
    state.set_time_zone(3, TimeZone::parse("Asia/Kolkata").unwrap());
    let records = state.records();
    let stored: Vec<(u64, Option<String>)> = records.iter().map(|(id, r)| (*id, r.bedtime.clone())).collect();
    assert!(stored.contains(&(1, Some("22:30".to_string()))));
    assert!(stored.contains(&(2, Some("06:05".to_string()))));
    assert!(stored.contains(&(3, None)));
    let mut reloaded: State<u32> = State::load(&records);
    for id in 1..4u64 {
        assert_eq!(reloaded.describe(id), state.describe(id));
    }
}

#[test]
fn arm_all_plans_exactly_the_eligible_users() {
    let records = vec![
        (1, UserRecord { on: true, time_zone: Some("Europe/Berlin".to_string()), bedtime: Some("22:30".to_string()) }),
        (2, UserRecord { on: false, time_zone: Some("Europe/Berlin".to_string()), bedtime: Some("22:30".to_string()) }),
        (3, UserRecord { on: true, time_zone: None, bedtime: Some("22:30".to_string()) }),
        (4, UserRecord { on: true, time_zone: Some("Asia/Tokyo".to_string()), bedtime: Some("23:45".to_string()) }),
    ];
    let mut state: State<u32> = State::load(&records);
    let plans = state.arm_all();
    let mut ids: Vec<u64> = plans.iter().map(|(id, _)| *id).collect();
    ids.sort();
    assert_eq!(ids, vec![1, 4]);
    for (id, plan) in &plans {
        if *id == 4 {
            assert_eq!(plan.time_zone.name(), "Asia/Tokyo");
            assert_eq!(plan.bedtime, Time { hour: 23, minute: 45 });
        }
    }
    assert!(state.can_attach(1));
    assert!(!state.can_attach(2));
}

#[test]
fn unreadable_records_fall_back_to_defaults() {
    let records = vec![
        (1, UserRecord { on: false, time_zone: Some("Nowhere/Special".to_string()), bedtime: Some("22:30".to_string()) }),
        (2, UserRecord { on: false, time_zone: Some("Europe/Berlin".to_string()), bedtime: Some("10:30 PM".to_string()) }),
        (3, UserRecord { on: false, time_zone: Some("Europe/Berlin".to_string()), bedtime: None }),
    ];
    let mut state: State<u32> = State::load(&records);
    let default_text = "**on**: true\n**time zone**: none\n**bedtime**: none";
    assert_eq!(state.describe(1), default_text);
    assert_eq!(state.describe(2), default_text);
    assert_eq!(state.describe(3), "**on**: false\n**time zone**: Europe/Berlin\n**bedtime**: none");
}

#[test]
fn a_later_record_for_the_same_user_counts() {
    let records = vec![
        (1, UserRecord { on: true, time_zone: None, bedtime: Some("08:00".to_string()) }),
        (1, UserRecord { on: true, time_zone: None, bedtime: Some("21:15".to_string()) }),
    ];
    let mut state: State<u32> = State::load(&records);
    assert_eq!(state.describe(1), "**on**: true\n**time zone**: none\n**bedtime**: 09:15 PM");
    assert_eq!(state.records().len(), 1);
}

#[test]
fn presence_and_wake_by_id() {
    let mut state: State<u32> = State::new();
    let flags = state.flags(9);
    state.presence(9, false);
    assert!(!flags.is_awake());
    state.presence(9, true);
    assert!(flags.is_awake());
    flags.begin_episode();
    state.allow_awake(9);
    assert!(flags.is_wake_acknowledged());
}
