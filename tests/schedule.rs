use bedtime_bot::clock::{Time, TimeZone};
use bedtime_bot::schedule::{ScheduleConfig, UserInfo};

fn berlin() -> TimeZone {
    TimeZone::parse("Europe/Berlin").unwrap()
}

#[test]
fn default_user_is_idle_and_ineligible() {
    let mut user: UserInfo<u32> = UserInfo::default();
    assert!(!user.is_armed());
    assert!(user.config().on);
    assert!(!user.config().is_eligible());
    assert_eq!(user.to_string(), "**on**: true\n**time zone**: none\n**bedtime**: none");
    let update = user.update_sched();
    assert!(update.cancelled.is_none());
    assert!(update.arm.is_none());
}

#[test]
fn arms_once_zone_and_bedtime_are_set() {
    let mut user: UserInfo<u32> = UserInfo::default();
    let update = user.set_time_zone(berlin());
    assert!(update.arm.is_none());
    let update = user.set_bedtime(Time { hour: 22, minute: 30 });
    assert!(update.cancelled.is_none());
    let plan = update.arm.expect("eligible");
    assert_eq!(plan.time_zone.name(), "Europe/Berlin");
    assert_eq!(plan.bedtime, Time { hour: 22, minute: 30 });
    user.attach(1);
    assert!(user.is_armed());
}

#[test]
fn reconfiguring_twice_leaves_one_task() {
    let mut user: UserInfo<u32> = UserInfo::default();
    user.set_time_zone(berlin());
    assert!(user.set_bedtime(Time { hour: 22, minute: 30 }).arm.is_some());
    user.attach(1);
    let again = user.set_bedtime(Time { hour: 22, minute: 30 });
    assert_eq!(again.cancelled, Some(1));
    assert!(again.arm.is_some());
    user.attach(2);
    let last = user.update_sched();
    assert_eq!(last.cancelled, Some(2));
}

#[test]
fn disabling_idles_and_enabling_rearms() {
    let mut user: UserInfo<u32> = UserInfo::default();
    user.set_time_zone(berlin());
    user.set_bedtime(Time { hour: 23, minute: 0 });
    user.attach(7);
    let off = user.off();
    assert_eq!(off.cancelled, Some(7));
    assert!(off.arm.is_none());
    assert!(!user.is_armed());
    // while off, changing settings starts nothing
    assert!(user.set_bedtime(Time { hour: 21, minute: 0 }).arm.is_none());
    assert!(user.set_time_zone(berlin()).arm.is_none());
    let on = user.on();
    assert!(on.cancelled.is_none());
    assert_eq!(on.arm.map(|p| p.bedtime), Some(Time { hour: 21, minute: 0 }));
}

#[test]
fn describe_reflects_the_last_settings() {
    let mut user: UserInfo<u32> = UserInfo::default();
    user.set_time_zone(TimeZone::parse("America/New_York").unwrap());
    user.set_bedtime(Time { hour: 9, minute: 0 });
    user.set_time_zone(berlin());
    user.set_bedtime(Time { hour: 22, minute: 30 });
    user.off();
    assert_eq!(user.to_string(), "**on**: false\n**time zone**: Europe/Berlin\n**bedtime**: 10:30 PM");
    user.on();
    assert_eq!(user.to_string(), "**on**: true\n**time zone**: Europe/Berlin\n**bedtime**: 10:30 PM");
}

#[test]
fn set_config_replaces_everything() {
    let mut user: UserInfo<u32> = UserInfo::default();
    user.set_time_zone(berlin());
    user.set_bedtime(Time { hour: 22, minute: 30 });
    user.attach(3);
    let update = user.set_config(ScheduleConfig::new());
    assert_eq!(update.cancelled, Some(3));
    assert!(update.arm.is_none());
    assert_eq!(user.to_string(), "**on**: true\n**time zone**: none\n**bedtime**: none");
}

#[test]
fn presence_and_wake_reach_the_shared_flags() {
    let user: UserInfo<u32> = UserInfo::default();
    let flags = user.flags();
    user.asleep();
    assert!(!flags.is_awake());
    user.awake();
    assert!(flags.is_awake());
    flags.begin_episode();
    user.allow_awake();
    assert!(flags.is_wake_acknowledged());
}
