use quickdoctor::cookies::{
    access_hash_values, get_cookie_values, has_access_hash, normalize_cookie_records,
    unique_strings,
};
use quickdoctor::errors::AppError;
use quickdoctor::types::CookieRecord;

fn record(name: &str, value: &str, domain: &str, path: &str) -> CookieRecord {
    CookieRecord {
        name: name.to_string(),
        value: value.to_string(),
        domain: domain.to_string(),
        path: path.to_string(),
    }
}

#[test]
fn test_normalize_cookies() {
    let records = vec![
        CookieRecord {
            name: "test".into(),
            value: "value1".into(),
            domain: "".into(),
            path: "".into(),
        },
        CookieRecord {
            name: "test".into(),
            value: "value2".into(),
            domain: ".91160.com".into(),
            path: "/".into(),
        },
    ];

    let normalized = normalize_cookie_records(records);
    assert_eq!(normalized.len(), 1);
    assert_eq!(normalized[0].domain, ".91160.com");
}

#[test]
fn test_has_access_hash() {
    let records = vec![CookieRecord {
        name: "access_hash".into(),
        value: "abc123".into(),
        domain: ".91160.com".into(),
        path: "/".into(),
    }];
    assert!(has_access_hash(&records));
}

#[test]
fn normalize_keeps_the_last_record_of_a_key() {
    let normalized = normalize_cookie_records(vec![
        record("a", "1", ".91160.COM", "/"),
        record("b", "2", "", ""),
        record("a", "3", ".91160.com", "/"),
        record("", "ignored", "", ""),
    ]);
    assert_eq!(normalized.len(), 2);
    assert_eq!(normalized[0].name, "b");
    assert_eq!(normalized[0].domain, ".91160.com");
    assert_eq!(normalized[0].path, "/");
    assert_eq!(normalized[1].name, "a");
    assert_eq!(normalized[1].value, "3");
}

#[test]
fn normalize_is_idempotent_on_a_sample() {
    let once = normalize_cookie_records(vec![
        record("x", "1", "", "/p"),
        record("x", "2", "", "/p"),
        record("y", "3", "User.91160.com", ""),
        record("x", "4", ".91160.com", "/q"),
    ]);
    let copy: Vec<CookieRecord> = once.iter().map(|r| r.clone()).collect();
    let twice = normalize_cookie_records(copy);
    assert_eq!(once.len(), 3);
    assert_eq!(twice.len(), once.len());
    for (a, b) in once.iter().zip(twice.iter()) {
        assert_eq!(a.name, b.name);
        assert_eq!(a.value, b.value);
        assert_eq!(a.domain, b.domain);
        assert_eq!(a.path, b.path);
    }
}

#[test]
fn keys_differ_by_path_and_not_by_domain_case() {
    let normalized = normalize_cookie_records(vec![
        record("t", "1", "A.com", "/"),
        record("t", "2", "a.COM", "/"),
        record("t", "3", "a.com", "/other"),
    ]);
    assert_eq!(normalized.len(), 2);
    assert_eq!(normalized[0].value, "2");
    assert_eq!(normalized[0].domain, "a.COM");
    assert_eq!(normalized[1].value, "3");
}

#[test]
fn access_hash_needs_a_value() {
    assert!(!has_access_hash(&[]));
    assert!(!has_access_hash(&[record("access_hash", "", "", "")]));
    assert!(!has_access_hash(&[record("other", "v", "", "")]));
    assert!(has_access_hash(&[
        record("other", "v", "", ""),
        record("access_hash", "k", "", "")
    ]));
}

#[test]
fn cookie_values_are_filtered_by_name() {
    let records = vec![
        record("access_hash", "k1", "", ""),
        record("sid", "s", "", ""),
        record("access_hash", "", "", ""),
        record("access_hash", "k2", "", ""),
        record("access_hash", "k1", "", ""),
    ];
    assert_eq!(get_cookie_values(&records, "access_hash"), vec!["k1", "k2", "k1"]);
    assert_eq!(access_hash_values(&records), vec!["k1", "k2"]);
    assert!(get_cookie_values(&records, "none").is_empty());
}

#[test]
fn unique_strings_keeps_first_occurrences() {
    let values = vec!["b".to_string(), "a".to_string(), "b".to_string(), "c".to_string(), "a".to_string()];
    assert_eq!(unique_strings(values), vec!["b", "a", "c"]);
    assert!(unique_strings(Vec::new()).is_empty());
}

#[test]
fn older_files_are_promoted() {
    let records = quickdoctor::cookies::records_from_pairs(vec![
        ("a".to_string(), "1".to_string()),
        ("".to_string(), "dropped".to_string()),
        ("b".to_string(), "2".to_string()),
        ("a".to_string(), "3".to_string()),
    ]);
    assert_eq!(records.len(), 2);
    assert_eq!(records[0].name, "b");
    assert_eq!(records[1].name, "a");
    assert_eq!(records[1].value, "3");
    assert_eq!(records[1].domain, ".91160.com");
    assert_eq!(records[1].path, "/");
}

#[test]
fn an_empty_session_is_not_saved() {
    match quickdoctor::cookies::prepare_cookie_save(vec![record("", "v", "", "")]) {
        Err(quickdoctor::errors::AppError::ConfigError(m)) => assert_eq!(m, "No cookies to save"),
        other => panic!("unexpected {:?}", other),
    }
    let saved = quickdoctor::cookies::prepare_cookie_save(vec![record("a", "v", "", "")]).unwrap();
    assert_eq!(saved.len(), 1);
    assert_eq!(saved[0].domain, ".91160.com");
}

#[test]
fn records_make_jar_entries() {
    let entry = quickdoctor::cookies::jar_entry(&record("sid", "v1", ".91160.com", "/p")).unwrap();
    assert_eq!(entry.url, "https://91160.com");
    assert_eq!(entry.cookie, "sid=v1; Domain=.91160.com; Path=/p");
    let entry = quickdoctor::cookies::jar_entry(&record("sid", "v1", "..user.91160.com", "/")).unwrap();
    assert_eq!(entry.url, "https://user.91160.com");
    assert_eq!(entry.cookie, "sid=v1; Domain=..user.91160.com; Path=/");
    assert!(quickdoctor::cookies::jar_entry(&record("sid", "v", "", "/")).is_none());
    assert!(quickdoctor::cookies::jar_entry(&record("sid", "v", "...", "/")).is_none());
    assert!(quickdoctor::cookies::jar_entry(&record("sid", "v", "bad host", "/")).is_none());
    let entries = quickdoctor::cookies::jar_entries(&[
        record("a", "1", ".91160.com", "/"),
        record("b", "2", "", "/"),
        record("c", "3", "www.91160.com", "/"),
    ]);
    assert_eq!(entries.len(), 2);
    assert_eq!(entries[1].url, "https://www.91160.com");
}

#[test]
fn defaults() {
    assert!(quickdoctor::types::default_true());
    assert_eq!(quickdoctor::types::default_domain(), ".91160.com");
    assert_eq!(quickdoctor::types::default_path(), "/");
    assert_eq!(quickdoctor::types::default_city_id(), "5");
    assert_eq!(quickdoctor::types::default_time_slots(), vec!["am", "pm"]);
}

#[test]
fn errors_have_two_faces() {
    let cases = vec![
        (AppError::LoginRequired("x".into()), "Login required: x", "登录已失效，请重新扫码"),
        (AppError::HttpError("x".into()), "HTTP request failed: x", "网络请求失败: x"),
        (AppError::JsonError("x".into()), "JSON parse error: x", "数据解析失败: x"),
        (AppError::IoError("x".into()), "IO error: x", "文件操作失败: x"),
        (AppError::ConfigError("x".into()), "Configuration error: x", "配置错误: x"),
        (AppError::ParseError("x".into()), "Parse error: x", "解析错误: x"),
        (AppError::ApiError("x".into()), "API error: x", "API 错误: x"),
        (AppError::Timeout("x".into()), "Timeout: x", "超时: x"),
        (AppError::Cancelled, "Cancelled", "操作已取消"),
        (AppError::ProxyError("x".into()), "Proxy error: x", "代理错误: x"),
        (AppError::Other("x".into()), "x", "x"),
        (AppError::from_message("y"), "y", "y"),
    ];
    for (e, display, frontend) in cases {
        assert_eq!(e.to_display_string(), display);
        assert_eq!(e.to_frontend_string(), frontend);
    }
}
