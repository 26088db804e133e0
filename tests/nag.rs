use bedtime_bot::clock::{next_fire_instant, Time, TimeZone};
use bedtime_bot::nag::{nag_step, NagAction, RuntimeFlags};

#[test]
fn nag_step_decisions() {
    assert_eq!(nag_step(true, true), NagAction::Stop);
    assert_eq!(nag_step(true, false), NagAction::Stop);
    assert_eq!(nag_step(false, true), NagAction::Remind);
    assert_eq!(nag_step(false, false), NagAction::Pause);
}

#[test]
fn fresh_flags_are_set() {
    let flags = RuntimeFlags::new();
    assert!(flags.is_awake());
    assert!(flags.is_wake_acknowledged());
    assert_eq!(flags.next_action(), NagAction::Stop);
}

#[test]
fn berlin_bedtime_episode() {
    let zone = TimeZone::parse("Europe/Berlin").unwrap();
    let bedtime = Time { hour: 22, minute: 30 };
    // the trigger computed just before falls on 22:30:00 local
    let fire = next_fire_instant(&zone, bedtime, 1717273740).unwrap();
    assert_eq!(fire, 1717273800);
    let flags = RuntimeFlags::new();
    let task_flags = flags.share();
    task_flags.begin_episode();
    assert!(!flags.is_wake_acknowledged());
    // the first pass sends a reminder
    assert_eq!(task_flags.next_action(), NagAction::Remind);
    // the acknowledgment stops the loop at its next pass
    flags.allow_awake();
    assert_eq!(task_flags.next_action(), NagAction::Stop);
}

#[test]
fn reminders_continue_while_online() {
    let flags = RuntimeFlags::new();
    flags.begin_episode();
    for _ in 0..1000 {
        assert_eq!(flags.next_action(), NagAction::Remind);
    }
    flags.allow_awake();
    assert_eq!(flags.next_action(), NagAction::Stop);
}

#[test]
fn offline_does_not_end_the_episode() {
    let flags = RuntimeFlags::new();
    let task_flags = flags.share();
    task_flags.begin_episode();
    assert_eq!(task_flags.next_action(), NagAction::Remind);
    flags.asleep();
    assert!(!task_flags.is_awake());
    for _ in 0..1000 {
        assert_eq!(task_flags.next_action(), NagAction::Pause);
    }
    flags.awake();
    assert_eq!(task_flags.next_action(), NagAction::Remind);
    flags.allow_awake();
    assert_eq!(task_flags.next_action(), NagAction::Stop);
}
