use quickdoctor::timing::{
    invalid_time_line, offset_line, parse_start_time, plan_arming, start_line, wait_step, ArmPlan,
    ClockTime, WaitStep,
};

#[test]
fn start_times_are_read() {
    assert_eq!(parse_start_time("08:30:05"), Some(ClockTime { hour: 8, minute: 30, second: 5 }));
    assert_eq!(parse_start_time("+7:x:059:ignored"), Some(ClockTime { hour: 7, minute: 0, second: 59 }));
    assert_eq!(parse_start_time("::"), Some(ClockTime { hour: 0, minute: 0, second: 0 }));
    assert_eq!(parse_start_time("25:61:99999999999"), Some(ClockTime { hour: 25, minute: 61, second: 0 }));
    assert_eq!(parse_start_time(" 8:-1:1 "), Some(ClockTime { hour: 0, minute: 0, second: 0 }));
    assert_eq!(parse_start_time("08:30"), None);
    assert_eq!(parse_start_time(""), None);
}

#[test]
fn times_of_day_are_checked() {
    assert!(ClockTime { hour: 23, minute: 59, second: 59 }.is_valid());
    assert!(ClockTime { hour: 0, minute: 0, second: 0 }.is_valid());
    assert!(!ClockTime { hour: 24, minute: 0, second: 0 }.is_valid());
    assert!(!ClockTime { hour: 1, minute: 60, second: 0 }.is_valid());
    assert!(!ClockTime { hour: 1, minute: 0, second: 60 }.is_valid());
}

#[test]
fn the_wait_is_planned() {
    let (plan, line) = plan_arming("08:00:00", 10_000, 0, 10_000);
    assert!(matches!(plan, ArmPlan::AlreadyPassed));
    assert_eq!((line.level.as_str(), line.message.as_str()), ("warn", "target time already passed: 08:00:00"));
    let (plan, line) = plan_arming("08:00:00", 100_000, 2_500, 10_000);
    match plan {
        ArmPlan::Wait { wait_ms } => assert_eq!(wait_ms, 87_500),
        other => panic!("unexpected {:?}", other),
    }
    assert_eq!((line.level.as_str(), line.message.as_str()), ("info", "waiting 87.0s to start"));
    let (plan, _) = plan_arming("x", 10_000, -1, 10_000);
    match plan {
        ArmPlan::Wait { wait_ms } => assert_eq!(wait_ms, 1),
        other => panic!("unexpected {:?}", other),
    }
    let (plan, _) = plan_arming("x", i64::MAX, i64::MIN, i64::MIN);
    match plan {
        ArmPlan::Wait { wait_ms } => assert_eq!(wait_ms, u64::MAX),
        other => panic!("unexpected {:?}", other),
    }
    let (plan, _) = plan_arming("x", i64::MIN, i64::MAX, i64::MAX);
    assert!(matches!(plan, ArmPlan::AlreadyPassed));
}

#[test]
fn the_wait_proceeds_in_slices() {
    assert_eq!(wait_step(60_000), WaitStep::Sleep { ms: 1000 });
    assert_eq!(wait_step(3_000), WaitStep::Sleep { ms: 1000 });
    assert_eq!(wait_step(2_001), WaitStep::Sleep { ms: 1000 });
    assert_eq!(wait_step(2_000), WaitStep::Spin);
    assert_eq!(wait_step(1), WaitStep::Spin);
    assert_eq!(wait_step(0), WaitStep::Go);
    assert_eq!(wait_step(-50), WaitStep::Go);
}

#[test]
fn lines_of_the_wait() {
    let l = invalid_time_line("8h");
    assert_eq!((l.level.as_str(), l.message.as_str()), ("error", "invalid time format: 8h"));
    assert_eq!(offset_line(1_234).message, "time offset 1.234s");
    assert_eq!(offset_line(-500).message, "time offset -0.500s");
    assert_eq!(offset_line(0).message, "time offset 0.000s");
    assert_eq!(offset_line(61_007).message, "time offset 61.007s");
    assert_eq!(offset_line(-12_040).message, "time offset -12.040s");
    assert_eq!(offset_line(i64::MIN).message, "time offset -9223372036854775.808s");
    assert_eq!(offset_line(5).level, "info");
    let l = start_line();
    assert_eq!((l.level.as_str(), l.message.as_str()), ("info", "start trigger"));
}
