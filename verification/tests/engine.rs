use quickdoctor::engine::{Action, Engine, Event, LogLine, Phase, Step};
use quickdoctor::errors::AppError;
use quickdoctor::grabber::{
    is_too_fast_message, normalize_address_id, normalize_address_text, pick_time_slot,
    random_backoff_ms, random_jitter_ms, resolve_address, submit_throttle_wait,
};
use quickdoctor::types::{
    AddressOption, DoctorSchedule, GrabConfig, ScheduleSlot, SubmitOrderResult, TicketDetail,
    TimeSlot,
};

fn strings(items: &[&str]) -> Vec<String> {
    items.iter().map(|s| s.to_string()).collect()
}

fn config(dates: &[&str]) -> GrabConfig {
    GrabConfig {
        unit_id: "1".into(),
        unit_name: String::new(),
        dep_id: "2".into(),
        dep_name: String::new(),
        doctor_ids: Vec::new(),
        member_id: "3".into(),
        member_name: String::new(),
        target_dates: strings(dates),
        time_types: Vec::new(),
        preferred_hours: Vec::new(),
        address_id: String::new(),
        address: String::new(),
        start_time: String::new(),
        use_server_time: false,
        retry_interval_ms: 0,
        max_retries: 0,
        use_proxy_submit: true,
    }
}

fn slot(id: &str, time_type: &str, left: i32) -> ScheduleSlot {
    ScheduleSlot {
        schedule_id: id.into(),
        time_type: time_type.into(),
        time_type_desc: format!("{} desc", time_type),
        left_num: left,
        sch_date: "2024-01-01".into(),
    }
}

fn doctor(id: &str, name: &str, slots: Vec<ScheduleSlot>) -> DoctorSchedule {
    DoctorSchedule {
        doctor_id: id.into(),
        doctor_name: name.into(),
        reg_fee: "10".into(),
        total_left_num: slots.iter().map(|s| s.left_num).sum(),
        his_doc_id: format!("h{}", id),
        his_dep_id: "hd".into(),
        schedule_id: slots.first().map(|s| s.schedule_id.clone()).unwrap_or_default(),
        time_type_desc: slots.first().map(|s| s.time_type_desc.clone()).unwrap_or_default(),
        schedules: slots,
    }
}

fn detail() -> TicketDetail {
    let times = vec![
        TimeSlot { name: "08:00-08:30".into(), value: "t1".into() },
        TimeSlot { name: "09:00-09:30".into(), value: "t2".into() },
    ];
    TicketDetail {
        times: times.clone(),
        time_slots: times,
        sch_data: "blob".into(),
        detlid_realtime: "rt".into(),
        level_code: "lc".into(),
        sch_date: "2024-01-01".into(),
        order_no: "on".into(),
        disease_content: "dc".into(),
        disease_input: "di".into(),
        is_hot: "0".into(),
        his_mem_id: "hm".into(),
        address_id: String::new(),
        address: String::new(),
        addresses: vec![AddressOption { id: "77".into(), text: "Shenzhen Road 1".into() }],
    }
}

fn param<'a>(params: &'a [(String, String)], name: &str) -> &'a str {
    params.iter().find(|(k, _)| k == name).map(|(_, v)| v.as_str()).unwrap_or_else(|| panic!("no field {}", name))
}

fn has_log(step: &Step, level: &str, message: &str) -> bool {
    step.logs.iter().any(|l: &LogLine| l.level == level && l.message == message)
}

fn ok_result() -> SubmitOrderResult {
    SubmitOrderResult { success: true, status: true, message: "OK".into(), url: Some("https://www.91160.com/order/success.html".into()) }
}

fn failed_result(message: &str) -> SubmitOrderResult {
    SubmitOrderResult { success: false, status: false, message: message.into(), url: None }
}

#[test]
fn validation_accepts_the_minimal_job() {
    assert!(config(&["2024-01-01"]).validate().is_ok());
}

#[test]
fn validation_names_the_first_missing_field() {
    let mut c = config(&["2024-01-01"]);
    c.unit_id = String::new();
    c.dep_id = String::new();
    assert_eq!(c.validate(), Err("unit_id is required".to_string()));
    let mut c = config(&["2024-01-01"]);
    c.dep_id = String::new();
    assert_eq!(c.validate(), Err("dep_id is required".to_string()));
    let mut c = config(&["2024-01-01"]);
    c.member_id = String::new();
    assert_eq!(c.validate(), Err("member_id is required".to_string()));
    let c = config(&[]);
    assert_eq!(c.validate(), Err("target_dates is required".to_string()));
}

#[test]
fn an_incomplete_job_ends_before_any_request() {
    let mut engine = Engine::new(config(&[]));
    let step = engine.step(Event::Start);
    match step.action {
        Action::Finish(result) => {
            assert!(!result.success);
            assert_eq!(result.message, "target_dates is required");
            assert!(result.detail.is_none());
        }
        other => panic!("unexpected action {:?}", other),
    }
    assert_eq!(step.logs.len(), 1);
    assert_eq!(step.logs[0].level, "error");
    assert_eq!(engine.phase(), Phase::Finished);
}

#[test]
fn end_to_end_success() {
    let mut engine = Engine::new(config(&["2024-01-01"]));
    let step = engine.advance(Event::Start, 7, 3000);
    assert!(has_log(&step, "info", "grab engine started"));
    assert!(has_log(&step, "info", "grab config: dates=2024-01-01 doctor_ids= time_types= preferred="));
    assert!(has_log(&step, "info", "grab mode: fuzzy"));
    assert!(has_log(&step, "info", "attempt 1"));
    assert!(has_log(&step, "info", "schedule query: 2024-01-01"));
    match &step.action {
        Action::QuerySchedule { unit_id, dep_id, date, jitter_ms } => {
            assert_eq!(unit_id, "1");
            assert_eq!(dep_id, "2");
            assert_eq!(date, "2024-01-01");
            assert_eq!(*jitter_ms, 7);
        }
        other => panic!("unexpected action {:?}", other),
    }
    let docs = vec![doctor("d1", "Dr. Wang", vec![slot("s-100", "am", 5)])];
    let step = engine.advance(Event::Schedule(docs), 7, 3000);
    assert!(has_log(&step, "info", "schedule result: docs=1"));
    assert!(has_log(&step, "success", "found slot: Dr. Wang - am desc (left 5)"));
    match &step.action {
        Action::FetchDetail { unit_id, dep_id, schedule_id, member_id } => {
            assert_eq!(unit_id, "1");
            assert_eq!(dep_id, "2");
            assert_eq!(schedule_id, "s-100");
            assert_eq!(member_id, "3");
        }
        other => panic!("unexpected action {:?}", other),
    }
    let step = engine.advance(Event::Detail { detail: Some(detail()), now_ms: 10_000 }, 7, 3000);
    assert!(has_log(&step, "info", "selected time slot: 08:00-08:30"));
    assert!(has_log(&step, "warn", "fallback address: Shenzhen Road 1"));
    match &step.action {
        Action::Submit { params, use_proxy, wait_ms } => {
            assert_eq!(params.len(), 20);
            assert_eq!(param(params, "schedule_id"), "s-100");
            assert_eq!(param(params, "unit_id"), "1");
            assert_eq!(param(params, "dep_id"), "2");
            assert_eq!(param(params, "member_id"), "3");
            assert_eq!(param(params, "time_type"), "am");
            assert_eq!(param(params, "doctor_id"), "d1");
            assert_eq!(param(params, "his_doc_id"), "hd1");
            assert_eq!(param(params, "detlid"), "t1");
            assert_eq!(param(params, "addressId"), "77");
            assert_eq!(param(params, "address"), "Shenzhen Road 1");
            assert_eq!(param(params, "sch_data"), "blob");
            assert_eq!(param(params, "hisMemId"), "hm");
            assert!(*use_proxy);
            assert_eq!(*wait_ms, 0);
        }
        other => panic!("unexpected action {:?}", other),
    }
    assert_eq!(engine.last_submit_ms(), Some(10_000));
    let step = engine.advance(Event::Submitted(ok_result()), 7, 3000);
    assert!(has_log(&step, "success", "success: 1 / 2 / Dr. Wang"));
    assert_eq!(step.logs.len(), 2);
    assert_eq!(step.logs[1].level, "success");
    assert_eq!(step.logs[1].message, "grab success");
    match step.action {
        Action::Finish(result) => {
            assert!(result.success);
            assert_eq!(result.message, "success");
            let d = result.detail.expect("detail");
            assert_eq!(d.doctor_name, "Dr. Wang");
            assert_eq!(d.date, "2024-01-01");
            assert_eq!(d.time_slot, "08:00-08:30");
            assert_eq!(d.unit_name, "1");
            assert_eq!(d.dep_name, "2");
            assert_eq!(d.member_name, "3");
            assert_eq!(d.url.as_deref(), Some("https://www.91160.com/order/success.html"));
        }
        other => panic!("unexpected action {:?}", other),
    }
    assert_eq!(engine.phase(), Phase::Finished);
}

#[test]
fn expired_login_ends_the_run_at_once() {
    let mut c = config(&["2024-01-01", "2024-01-02"]);
    c.max_retries = 5;
    let mut engine = Engine::new(c);
    engine.step(Event::Start);
    let step = engine.step(Event::ScheduleFailed(AppError::LoginRequired("error_code=10022".into())));
    match step.action {
        Action::Finish(result) => {
            assert!(!result.success);
            assert_eq!(result.message, "登录已失效，请重新扫码");
            assert!(result.detail.is_none());
        }
        other => panic!("unexpected action {:?}", other),
    }
    assert!(step.logs.is_empty());
    assert_eq!(engine.phase(), Phase::Finished);
    assert_eq!(engine.attempt(), 1);
}

#[test]
fn other_schedule_errors_move_to_the_next_date() {
    let mut engine = Engine::new(config(&["2024-01-01", "2024-01-02"]));
    engine.step(Event::Start);
    let step = engine.step(Event::ScheduleFailed(AppError::ApiError("schedule query failed".into())));
    match &step.action {
        Action::QuerySchedule { date, jitter_ms, .. } => {
            assert_eq!(date, "2024-01-02");
            assert!(*jitter_ms < 40);
        }
        other => panic!("unexpected action {:?}", other),
    }
}

#[test]
fn throttled_submission_backs_off_and_continues() {
    let mut engine = Engine::new(config(&["2024-01-01"]));
    engine.step(Event::Start);
    let docs = vec![doctor("d1", "Dr. Wang", vec![slot("s-1", "am", 5), slot("s-2", "pm", 1)])];
    engine.step(Event::Schedule(docs));
    engine.step(Event::Detail { detail: Some(detail()), now_ms: 0 });
    let step = engine.step(Event::Submitted(failed_result("submit failed: 操作太频繁")));
    assert!(has_log(&step, "warn", "submit throttled, backoff"));
    match step.action {
        Action::Sleep { ms } => assert!((2500..=4200).contains(&ms), "backoff {}", ms),
        other => panic!("unexpected action {:?}", other),
    }
    assert_eq!(engine.phase(), Phase::BackingOff);
    let step = engine.step(Event::Slept);
    match &step.action {
        Action::FetchDetail { schedule_id, .. } => assert_eq!(schedule_id, "s-2"),
        other => panic!("unexpected action {:?}", other),
    }
}

#[test]
fn other_failures_continue_without_a_pause() {
    let mut engine = Engine::new(config(&["2024-01-01"]));
    engine.step(Event::Start);
    let docs = vec![doctor("d1", "Dr. Wang", vec![slot("s-1", "am", 5), slot("s-2", "pm", 1)])];
    engine.step(Event::Schedule(docs));
    engine.step(Event::Detail { detail: Some(detail()), now_ms: 0 });
    let step = engine.step(Event::Submitted(failed_result("")));
    assert!(has_log(&step, "error", "submit failed"));
    match &step.action {
        Action::FetchDetail { schedule_id, .. } => assert_eq!(schedule_id, "s-2"),
        other => panic!("unexpected action {:?}", other),
    }
    engine.step(Event::Detail { detail: Some(detail()), now_ms: 100 });
    let step = engine.step(Event::SubmitFailed("connection reset".into()));
    assert!(has_log(&step, "error", "submit error: connection reset"));
    match &step.action {
        Action::Sleep { ms } => assert_eq!(*ms, 500),
        other => panic!("unexpected action {:?}", other),
    }
    assert_eq!(engine.phase(), Phase::Resting);
}

#[test]
fn slots_without_places_or_identifier_are_never_taken() {
    let mut c = config(&["2024-01-01"]);
    c.max_retries = 1;
    let mut engine = Engine::new(c);
    engine.step(Event::Start);
    let docs = vec![
        doctor("d1", "A", vec![slot("s-1", "am", 0), slot("s-2", "pm", -3), slot("", "am", 9)]),
        doctor("d2", "B", vec![slot("s-3", "night", 4)]),
    ];
    let step = engine.step(Event::Schedule(docs));
    assert!(has_log(&step, "warn", "max retries reached (1)"));
    match step.action {
        Action::Finish(result) => {
            assert!(!result.success);
            assert_eq!(result.message, "max retries reached");
        }
        other => panic!("unexpected action {:?}", other),
    }
}

#[test]
fn filters_choose_the_doctor_and_the_time() {
    let mut c = config(&["2024-01-01"]);
    c.doctor_ids = strings(&["d2"]);
    c.time_types = strings(&["pm"]);
    c.preferred_hours = strings(&["10:00", "09:00-09:30"]);
    c.address_id = "5".into();
    c.address = "Own Street".into();
    c.unit_name = "Unit".into();
    c.dep_name = "Dep".into();
    c.member_name = "Member".into();
    let mut engine = Engine::new(c);
    let step = engine.step(Event::Start);
    assert!(has_log(&step, "info", "grab mode: precise"));
    assert!(has_log(&step, "info", "grab config: dates=2024-01-01 doctor_ids=d2 time_types=pm preferred=10:00,09:00-09:30"));
    let docs = vec![
        doctor("d1", "A", vec![slot("s-1", "pm", 5)]),
        doctor("d2", "B", vec![slot("s-2", "am", 5), slot("s-3", "pm", 2)]),
    ];
    let step = engine.step(Event::Schedule(docs));
    match &step.action {
        Action::FetchDetail { schedule_id, .. } => assert_eq!(schedule_id, "s-3"),
        other => panic!("unexpected action {:?}", other),
    }
    let step = engine.step(Event::Detail { detail: Some(detail()), now_ms: 5 });
    assert!(has_log(&step, "info", "selected time slot: 09:00-09:30"));
    match &step.action {
        Action::Submit { params, .. } => {
            assert_eq!(param(params, "detlid"), "t2");
            assert_eq!(param(params, "addressId"), "5");
            assert_eq!(param(params, "address"), "Own Street");
            assert_eq!(param(params, "doctor_id"), "d2");
        }
        other => panic!("unexpected action {:?}", other),
    }
    let step = engine.step(Event::Submitted(ok_result()));
    assert!(has_log(&step, "success", "success: Unit / Dep / B"));
    match step.action {
        Action::Finish(result) => {
            let d = result.detail.expect("detail");
            assert_eq!(d.unit_name, "Unit");
            assert_eq!(d.member_name, "Member");
            assert_eq!(d.time_slot, "09:00-09:30");
        }
        other => panic!("unexpected action {:?}", other),
    }
}

#[test]
fn incomplete_pages_are_passed_over() {
    let mut engine = Engine::new(config(&["2024-01-01"]));
    engine.step(Event::Start);
    let docs = vec![doctor(
        "d1",
        "A",
        vec![slot("s-1", "am", 1), slot("s-2", "am", 1), slot("s-3", "am", 1), slot("s-4", "am", 1)],
    )];
    engine.step(Event::Schedule(docs));
    let step = engine.step(Event::Detail { detail: None, now_ms: 0 });
    assert!(has_log(&step, "warn", "ticket detail unavailable"));
    let mut d = detail();
    d.level_code = String::new();
    let step = engine.step(Event::Detail { detail: Some(d), now_ms: 0 });
    assert!(has_log(&step, "warn", "ticket detail missing fields"));
    let mut d = detail();
    d.times = Vec::new();
    d.time_slots = Vec::new();
    let step = engine.step(Event::Detail { detail: Some(d), now_ms: 0 });
    assert!(step.logs.iter().all(|l| l.level != "warn"));
    match &step.action {
        Action::FetchDetail { schedule_id, .. } => assert_eq!(schedule_id, "s-4"),
        other => panic!("unexpected action {:?}", other),
    }
    let mut d = detail();
    d.addresses = vec![AddressOption { id: "0".into(), text: "请选择地址".into() }];
    let step = engine.step(Event::Detail { detail: Some(d), now_ms: 0 });
    assert!(has_log(&step, "error", "missing address info"));
    match &step.action {
        Action::Sleep { ms } => assert_eq!(*ms, 500),
        other => panic!("unexpected action {:?}", other),
    }
}

#[test]
fn empty_schedule_and_retries() {
    let mut c = config(&["2024-01-01"]);
    c.max_retries = 2;
    c.retry_interval_ms = 1200;
    let mut engine = Engine::new(c);
    engine.step(Event::Start);
    let step = engine.step(Event::Schedule(Vec::new()));
    assert!(has_log(&step, "warn", "no schedule on 2024-01-01"));
    match &step.action {
        Action::Sleep { ms } => assert_eq!(*ms, 1200),
        other => panic!("unexpected action {:?}", other),
    }
    let step = engine.step(Event::Slept);
    assert!(has_log(&step, "info", "attempt 2"));
    let step = engine.step(Event::Schedule(Vec::new()));
    match step.action {
        Action::Finish(result) => assert_eq!(result.message, "max retries reached"),
        other => panic!("unexpected action {:?}", other),
    }
}

#[test]
fn the_stop_signal_ends_the_run() {
    let mut engine = Engine::new(config(&["2024-01-01"]));
    engine.step(Event::Start);
    let step = engine.step(Event::Cancelled);
    match step.action {
        Action::Finish(result) => {
            assert!(!result.success);
            assert_eq!(result.message, "stopped");
            assert!(result.detail.is_none());
        }
        other => panic!("unexpected action {:?}", other),
    }
}

#[test]
fn a_start_time_is_awaited_first() {
    let mut c = config(&["2024-01-01"]);
    c.start_time = "08:00:00".into();
    c.use_server_time = true;
    let mut engine = Engine::new(c);
    let step = engine.step(Event::Start);
    match &step.action {
        Action::WaitForStart { start_time, use_server_time } => {
            assert_eq!(start_time, "08:00:00");
            assert!(*use_server_time);
        }
        other => panic!("unexpected action {:?}", other),
    }
    assert_eq!(engine.phase(), Phase::Arming);
    let step = engine.step(Event::Armed);
    assert!(has_log(&step, "info", "attempt 1"));
    assert_eq!(engine.phase(), Phase::Querying);
}

#[test]
fn an_event_out_of_turn_ends_the_run() {
    let mut engine = Engine::new(config(&["2024-01-01"]));
    let step = engine.step(Event::Slept);
    match step.action {
        Action::Finish(result) => assert_eq!(result.message, "unexpected event"),
        other => panic!("unexpected action {:?}", other),
    }
}

#[test]
fn submissions_are_spaced() {
    assert_eq!(submit_throttle_wait(None, 5_000), 0);
    assert_eq!(submit_throttle_wait(Some(5_000), 5_000), 1_800);
    assert_eq!(submit_throttle_wait(Some(5_000), 5_700), 1_100);
    assert_eq!(submit_throttle_wait(Some(5_000), 6_800), 0);
    assert_eq!(submit_throttle_wait(Some(5_000), 9_000), 0);
    assert_eq!(submit_throttle_wait(Some(6_000), 5_000), 1_800);
    assert_eq!(submit_throttle_wait(Some(u128::from(u64::MAX)), u64::MAX), 1_800);
    assert_eq!(submit_throttle_wait(Some(u128::from(u64::MAX) - 1_000), u64::MAX), 800);
    assert_eq!(submit_throttle_wait(Some(u128::MAX), u64::MAX), 1_800);

    let mut engine = Engine::new(config(&["2024-01-01"]));
    engine.step(Event::Start);
    let docs = vec![doctor("d1", "A", vec![slot("s-1", "am", 1), slot("s-2", "am", 1)])];
    engine.step(Event::Schedule(docs));
    engine.step(Event::Detail { detail: Some(detail()), now_ms: 1_000 });
    engine.step(Event::Submitted(failed_result("no luck")));
    let step = engine.step(Event::Detail { detail: Some(detail()), now_ms: 1_300 });
    assert!(has_log(&step, "info", "submit throttle: wait 1500ms"));
    match &step.action {
        Action::Submit { wait_ms, params, .. } => {
            assert_eq!(*wait_ms, 1_500);
            assert_eq!(param(params, "schedule_id"), "s-2");
        }
        other => panic!("unexpected action {:?}", other),
    }
    assert_eq!(engine.last_submit_ms(), Some(2_800));
}

#[test]
fn spacing_holds_across_runs() {
    let mut engine = Engine::with_last_submit(config(&["2024-01-01"]), Some(50_000));
    assert_eq!(engine.last_submit_ms(), Some(50_000));
    engine.step(Event::Start);
    engine.step(Event::Schedule(vec![doctor("d1", "A", vec![slot("s-1", "am", 1)])]));
    let step = engine.step(Event::Detail { detail: Some(detail()), now_ms: 50_600 });
    assert!(has_log(&step, "info", "submit throttle: wait 1200ms"));
    match &step.action {
        Action::Submit { wait_ms, .. } => assert_eq!(*wait_ms, 1_200),
        other => panic!("unexpected action {:?}", other),
    }
    assert_eq!(engine.last_submit_ms(), Some(51_800));

    let mut engine = Engine::with_last_submit(config(&["2024-01-01"]), Some(u128::from(u64::MAX)));
    engine.step(Event::Start);
    engine.step(Event::Schedule(vec![doctor("d1", "A", vec![slot("s-1", "am", 1)])]));
    let step = engine.step(Event::Detail { detail: Some(detail()), now_ms: u64::MAX });
    match &step.action {
        Action::Submit { wait_ms, .. } => assert_eq!(*wait_ms, 1_800),
        other => panic!("unexpected action {:?}", other),
    }
    assert_eq!(engine.last_submit_ms(), Some(u128::from(u64::MAX) + 1_800));
}

#[test]
fn address_precedence() {
    let mut c = config(&["2024-01-01"]);
    c.address_id = "11".into();
    c.address = " Config Road ".into();
    let mut d = detail();
    d.address_id = "22".into();
    d.address = "Detail Road".into();
    let r = resolve_address(&c, &d);
    assert_eq!((r.address_id.as_str(), r.address_text.as_str(), r.from_options), ("11", "Config Road", false));

    c.address = "请选择...".into();
    let r = resolve_address(&c, &d);
    assert_eq!((r.address_id.as_str(), r.address_text.as_str(), r.from_options), ("22", "Detail Road", false));

    c.address_id = String::new();
    c.address = String::new();
    d.address_id = String::new();
    d.address = String::new();
    d.addresses = vec![
        AddressOption { id: "0".into(), text: "请选择".into() },
        AddressOption { id: "31".into(), text: "城市地址".into() },
        AddressOption { id: "32".into(), text: " Option Road ".into() },
        AddressOption { id: "33".into(), text: "Later Road".into() },
    ];
    let r = resolve_address(&c, &d);
    assert_eq!((r.address_id.as_str(), r.address_text.as_str(), r.from_options), ("32", "Option Road", true));

    d.addresses = Vec::new();
    d.address_id = "44".into();
    let r = resolve_address(&c, &d);
    assert_eq!((r.address_id.as_str(), r.address_text.as_str(), r.from_options), ("44", "", false));
}

#[test]
fn address_normalization() {
    assert_eq!(normalize_address_id("  12 "), "12");
    assert_eq!(normalize_address_id("0"), "");
    assert_eq!(normalize_address_id(" -1 "), "");
    assert_eq!(normalize_address_id(""), "");
    assert_eq!(normalize_address_id("\u{3000}7\n"), "7");
    assert_eq!(normalize_address_text("  Some Road 5 "), "Some Road 5");
    assert_eq!(normalize_address_text("请选择地址"), "");
    assert_eq!(normalize_address_text("x 请填写 y"), "");
    assert_eq!(normalize_address_text("请输入"), "");
    assert_eq!(normalize_address_text("城市地址"), "");
    assert_eq!(normalize_address_text("   "), "");
}

#[test]
fn time_slot_choice() {
    let slots = vec![
        TimeSlot { name: "a".into(), value: "1".into() },
        TimeSlot { name: "b".into(), value: "2".into() },
        TimeSlot { name: "b".into(), value: "3".into() },
    ];
    assert_eq!(pick_time_slot(&slots, &strings(&["x", "b", "a"])).value, "2");
    assert_eq!(pick_time_slot(&slots, &strings(&["x"])).value, "1");
    assert_eq!(pick_time_slot(&slots, &[]).value, "1");
    let none = pick_time_slot(&[], &strings(&["a"]));
    assert_eq!((none.name.as_str(), none.value.as_str()), ("", ""));
}

#[test]
fn haste_messages() {
    assert!(is_too_fast_message("操作太频繁"));
    assert!(is_too_fast_message(" 您点击太快了 "));
    assert!(is_too_fast_message("请刷新后重试"));
    assert!(!is_too_fast_message("号源不足"));
    assert!(!is_too_fast_message("   "));
    assert!(!is_too_fast_message(""));
}

#[test]
fn random_pauses_stay_in_range() {
    for _ in 0..200 {
        let b = random_backoff_ms(2500, 4200);
        assert!((2500..=4200).contains(&b));
        assert!(random_jitter_ms() < 40);
    }
    assert_eq!(random_backoff_ms(0, 0), 0);
    assert_eq!(random_backoff_ms(7, 7), 7);
    assert_eq!(random_backoff_ms(9, 3), 9);
    let seen: std::collections::BTreeSet<u64> = (0..200).map(|_| random_backoff_ms(0, 1000)).collect();
    assert!(seen.len() > 1);
}
