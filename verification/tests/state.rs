use quickdoctor::export::{export_file_name, format_log_export};
use quickdoctor::headers::{default_headers, navigation_headers, wechat_headers};
use quickdoctor::json::{find_member, JsonValue};
use quickdoctor::proxy::route_for_submit;
use quickdoctor::errors::AppError;
use quickdoctor::state::{
    default_user_state, load_user_state, merge_user_state, normalize_bool, normalize_string_array,
    normalize_time_slots, normalize_user_state, prepare_state_save, set_member,
    to_user_state_struct,
};
use quickdoctor::types::LogEntry;

fn text(s: &str) -> JsonValue {
    JsonValue::Text(s.to_string())
}

fn object(fields: Vec<(&str, JsonValue)>) -> Vec<(String, JsonValue)> {
    fields.into_iter().map(|(k, v)| (k.to_string(), v)).collect()
}

fn texts(items: &[JsonValue]) -> Vec<String> {
    items
        .iter()
        .map(|v| match v {
            JsonValue::Text(s) => s.clone(),
            other => panic!("not a text: {:?}", other),
        })
        .collect()
}

fn text_at(map: &Vec<(String, JsonValue)>, key: &str) -> String {
    match find_member(map, key) {
        Some(JsonValue::Text(s)) => s.clone(),
        other => panic!("{} is {:?}", key, other),
    }
}

fn array_at(map: &Vec<(String, JsonValue)>, key: &str) -> Vec<String> {
    match find_member(map, key) {
        Some(JsonValue::Array(items)) => texts(items),
        other => panic!("{} is {:?}", key, other),
    }
}

#[test]
fn test_normalize_bool() {
    assert!(normalize_bool(Some(&JsonValue::Bool(true)), false));
    assert!(!normalize_bool(Some(&JsonValue::Bool(false)), true));
    assert!(normalize_bool(Some(&JsonValue::Text("true".into())), false));
    assert!(normalize_bool(Some(&JsonValue::Text("1".into())), false));
    assert!(!normalize_bool(Some(&JsonValue::Text("false".into())), true));
    assert!(normalize_bool(None, true));
}

#[test]
fn truth_values_of_other_shapes() {
    assert!(normalize_bool(Some(&text(" YES ")), false));
    assert!(normalize_bool(Some(&text("On")), false));
    assert!(!normalize_bool(Some(&text("0")), true));
    assert!(normalize_bool(Some(&text("  ")), true));
    assert!(!normalize_bool(Some(&text("")), false));
    assert!(normalize_bool(Some(&JsonValue::Int(-2)), false));
    assert!(!normalize_bool(Some(&JsonValue::Int(0)), true));
    assert!(normalize_bool(Some(&JsonValue::Float { written: "0.5".into(), nonzero: true }), false));
    assert!(!normalize_bool(Some(&JsonValue::Float { written: "0.0".into(), nonzero: false }), true));
    assert!(normalize_bool(Some(&JsonValue::Null), true));
    assert!(!normalize_bool(Some(&JsonValue::Array(Vec::new())), false));
    assert!(!normalize_bool(None, false));
}

#[test]
fn lists_of_texts() {
    let mixed = JsonValue::Array(vec![text(" a "), JsonValue::Int(3), text(""), text("  "), text("b")]);
    assert_eq!(texts(&normalize_string_array(Some(&mixed))), vec!["a", "b"]);
    assert_eq!(texts(&normalize_string_array(Some(&text(" one ")))), vec!["one"]);
    assert!(normalize_string_array(Some(&text("  "))).is_empty());
    assert!(normalize_string_array(Some(&JsonValue::Null)).is_empty());
    assert!(normalize_string_array(None).is_empty());
    assert_eq!(texts(&normalize_time_slots(Some(&mixed))), vec!["a", "b"]);
    assert_eq!(texts(&normalize_time_slots(Some(&JsonValue::Array(Vec::new())))), vec!["am", "pm"]);
    assert_eq!(texts(&normalize_time_slots(Some(&text("am")))), vec!["am", "pm"]);
    assert_eq!(texts(&normalize_time_slots(None)), vec!["am", "pm"]);
    assert!(normalize_time_slots(Some(&JsonValue::Array(vec![JsonValue::Int(1)]))).is_empty());
}

#[test]
fn members_are_set_in_place() {
    let mut map = object(vec![("a", text("1")), ("b", text("2")), ("a", text("3"))]);
    set_member(&mut map, "a", text("9"));
    set_member(&mut map, "c", JsonValue::Bool(true));
    assert_eq!(map.len(), 4);
    assert_eq!(text_at(&map, "a"), "9");
    assert_eq!(text_at(&map, "b"), "2");
    assert!(matches!(find_member(&map, "c"), Some(JsonValue::Bool(true))));
    assert!(matches!(&map[2].1, JsonValue::Text(s) if s == "3"));
}

#[test]
fn an_overlay_wins_over_the_base() {
    let merged = merge_user_state(
        object(vec![("a", text("1")), ("b", text("2"))]),
        object(vec![("b", text("x")), ("c", text("y")), ("b", text("z"))]),
    );
    assert_eq!(text_at(&merged, "a"), "1");
    assert_eq!(text_at(&merged, "b"), "z");
    assert_eq!(text_at(&merged, "c"), "y");
    assert_eq!(merged.len(), 3);
}

#[test]
fn the_default_state() {
    let state = default_user_state("2024-02-03");
    assert_eq!(state.len(), 9);
    assert_eq!(text_at(&state, "city_id"), "5");
    assert_eq!(text_at(&state, "target_date"), "2024-02-03");
    assert!(array_at(&state, "target_dates").is_empty());
    assert_eq!(array_at(&state, "time_slots"), vec!["am", "pm"]);
    assert!(matches!(find_member(&state, "unit_id"), Some(JsonValue::Null)));
    assert!(matches!(find_member(&state, "dep_id"), Some(JsonValue::Null)));
    assert!(matches!(find_member(&state, "doctor_id"), Some(JsonValue::Null)));
    assert!(matches!(find_member(&state, "member_id"), Some(JsonValue::Null)));
    assert!(matches!(find_member(&state, "proxy_submit_enabled"), Some(JsonValue::Bool(true))));
}

#[test]
fn a_state_is_brought_into_shape() {
    let state = normalize_user_state(
        object(vec![
            ("city_id", text("  ")),
            ("target_date", JsonValue::Int(5)),
            ("target_dates", text(" 2024-01-01 ")),
            ("time_slots", JsonValue::Array(vec![text(" pm ")])),
            ("proxy_submit_enabled", text("off")),
            ("unit_id", text(" 21 ")),
        ]),
        "2024-09-09",
    );
    assert_eq!(text_at(&state, "city_id"), "5");
    assert_eq!(text_at(&state, "target_date"), "2024-09-09");
    assert_eq!(array_at(&state, "target_dates"), vec!["2024-01-01"]);
    assert_eq!(array_at(&state, "time_slots"), vec!["pm"]);
    assert!(matches!(find_member(&state, "proxy_submit_enabled"), Some(JsonValue::Bool(false))));
    assert_eq!(text_at(&state, "unit_id"), " 21 ");
    let state = normalize_user_state(Vec::new(), "d");
    assert_eq!(state.len(), 5);
    assert_eq!(array_at(&state, "time_slots"), vec!["am", "pm"]);
    assert!(matches!(find_member(&state, "proxy_submit_enabled"), Some(JsonValue::Bool(true))));
}

#[test]
fn loading_and_saving() {
    let loaded = load_user_state(default_user_state("d0"), None, "d0");
    assert_eq!(loaded.len(), 9);
    let loaded = load_user_state(
        default_user_state("d0"),
        Some(object(vec![("city_id", text(" 7 ")), ("extra", JsonValue::Int(1))])),
        "d0",
    );
    assert_eq!(text_at(&loaded, "city_id"), "7");
    assert_eq!(text_at(&loaded, "target_date"), "d0");
    assert!(matches!(find_member(&loaded, "extra"), Some(JsonValue::Int(1))));
    match prepare_state_save(default_user_state("d0"), Vec::new(), Vec::new(), "d0") {
        Err(AppError::ConfigError(m)) => assert_eq!(m, "State is empty"),
        other => panic!("unexpected {:?}", other),
    }
    let saved = prepare_state_save(
        default_user_state("d0"),
        object(vec![("unit_id", text("u1")), ("dep_id", text("d1"))]),
        object(vec![("dep_id", text("d2")), ("target_dates", JsonValue::Array(vec![text("2024-01-01")]))]),
        "d0",
    )
    .unwrap();
    assert_eq!(text_at(&saved, "unit_id"), "u1");
    assert_eq!(text_at(&saved, "dep_id"), "d2");
    assert_eq!(array_at(&saved, "target_dates"), vec!["2024-01-01"]);
    assert_eq!(text_at(&saved, "city_id"), "5");
}

#[test]
fn a_state_is_read_out_of_an_object() {
    let state = to_user_state_struct(&object(vec![
        ("city_id", text("9")),
        ("unit_id", text("u")),
        ("dep_id", JsonValue::Null),
        ("target_date", text("2024-01-02")),
        ("target_dates", JsonValue::Array(vec![text("a"), JsonValue::Int(1), text(" b ")])),
        ("time_slots", JsonValue::Array(vec![text("pm")])),
        ("proxy_submit_enabled", text("no")),
    ]));
    assert_eq!(state.city_id, "9");
    assert_eq!(state.unit_id.as_deref(), Some("u"));
    assert!(state.dep_id.is_none());
    assert!(state.doctor_id.is_none());
    assert!(state.member_id.is_none());
    assert_eq!(state.target_date, "2024-01-02");
    assert_eq!(state.target_dates, vec!["a", " b "]);
    assert_eq!(state.time_slots, vec!["pm"]);
    assert!(!state.proxy_submit_enabled);
    let state = to_user_state_struct(&Vec::new());
    assert_eq!(state.city_id, "5");
    assert_eq!(state.target_date, "");
    assert!(state.target_dates.is_empty());
    assert_eq!(state.time_slots, vec!["am", "pm"]);
    assert!(state.proxy_submit_enabled);
}

#[test]
fn logs_are_written_out() {
    let entries = vec![
        LogEntry { time: "10:00:01".into(), level: "info".into(), message: "started".into() },
        LogEntry { time: "10:00:02".into(), level: "  ".into(), message: "no level".into() },
        LogEntry { time: "10:00:03".into(), level: " Warn".into(), message: "careful".into() },
    ];
    assert_eq!(
        format_log_export(&entries, "2024-01-01 10:00:05").unwrap(),
        "QuickDoctor Logs Export\nExportedAt: 2024-01-01 10:00:05\nTotal: 3\n\n[10:00:01] [INFO] started\n[10:00:02] [INFO] no level\n[10:00:03] [ WARN] careful\n"
    );
    assert_eq!(format_log_export(&Vec::new(), "now"), Err("log entries is empty".to_string()));
    assert_eq!(export_file_name("20240101_100005"), "quickdoctor_logs_20240101_100005.txt");
}

#[test]
fn header_lists() {
    let h = default_headers();
    assert_eq!(h.len(), 9);
    assert_eq!(h[0].0, "User-Agent");
    assert!(h[0].1.starts_with("Mozilla/5.0 (Windows NT 10.0; Win64; x64)"));
    assert_eq!(h[1], ("Accept".to_string(), "application/json, text/javascript, */*; q=0.01".to_string()));
    assert_eq!(h[6].1, "\"Not_A Brand\";v=\"8\", \"Chromium\";v=\"120\", \"Google Chrome\";v=\"120\"");
    assert_eq!(h[8], ("sec-ch-ua-platform".to_string(), "\"Windows\"".to_string()));
    let w = wechat_headers();
    assert_eq!(w.len(), 5);
    assert_eq!(w[1], ("Referer".to_string(), "https://open.weixin.qq.com/".to_string()));
    assert_eq!(w[4], ("Connection".to_string(), "keep-alive".to_string()));
    let n = navigation_headers("none");
    assert_eq!(n.len(), 6);
    assert_eq!(n[3], ("Sec-Fetch-Site".to_string(), "none".to_string()));
    assert_eq!(n[1], ("Sec-Fetch-Dest".to_string(), "document".to_string()));
}

#[test]
fn the_way_of_a_submission() {
    let route = route_for_submit(Ok("http://1.1.1.1:80".to_string()));
    assert_eq!(route.proxy_url.as_deref(), Some("http://1.1.1.1:80"));
    assert!(route.log.is_none());
    let route = route_for_submit(Err(AppError::ProxyError("no proxy available".into())));
    assert!(route.proxy_url.is_none());
    let log = route.log.expect("warning");
    assert_eq!(log.level, "warn");
    assert_eq!(log.message, "proxy unavailable, submitting directly: Proxy error: no proxy available");
}

#[test]
fn quicksort_sorts_in_place() {
    let mut numbers = vec![64, 34, 25, 12, 22, 11, 90, 5, 88, 42];
    quickdoctor::sort::quicksort(&mut numbers);
    assert_eq!(numbers, vec![5, 11, 12, 22, 25, 34, 42, 64, 88, 90]);
    let mut repeated = vec![3, -1, 3, i32::MIN, 0, i32::MAX, -1];
    quickdoctor::sort::quicksort(&mut repeated);
    assert_eq!(repeated, vec![i32::MIN, -1, -1, 0, 3, 3, i32::MAX]);
    let mut empty: Vec<i32> = Vec::new();
    quickdoctor::sort::quicksort(&mut empty);
    assert!(empty.is_empty());
    let mut parts = vec![9, 1, 8, 2, 5];
    let p = quickdoctor::sort::partition(&mut parts);
    assert_eq!(p, 2);
    assert_eq!(parts[p], 5);
    assert!(parts[..p].iter().all(|x| *x <= 5));
    assert!(parts[p + 1..].iter().all(|x| *x > 5));
}
