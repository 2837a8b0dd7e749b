use quickdoctor::errors::AppError;
use quickdoctor::qr_login::{
    callback_url, check_qr_image, extract_qr_uuid, harvest_domains, judge_harvest, login_result,
    login_state, parse_cookie_header, parse_poll_body, qr_connect_url, qr_image_base64,
    qr_image_url, translate_qr_error, translate_qr_status, PollAction, PollFields, PollRequest,
    PollStep, QrPoller,
};
use quickdoctor::types::CookieRecord;

fn poller() -> QrPoller {
    QrPoller::start("uuid-1", "login_17", 300_000).expect("poller")
}

fn expect_retry(step: &PollStep, delay: u64, notice: Option<&str>) {
    match &step.action {
        PollAction::Retry { delay_ms } => assert_eq!(*delay_ms, delay),
        other => panic!("unexpected action {:?}", other),
    }
    assert_eq!(step.notice.as_deref(), notice);
}

#[test]
fn addresses_of_the_login() {
    assert_eq!(login_state(1_700_000_000), "login_1700000000");
    assert_eq!(login_state(-5), "login_-5");
    assert_eq!(
        qr_connect_url("login_1"),
        "https://open.weixin.qq.com/connect/qrconnect?appid=wxdfec0615563d691d&redirect_uri=http%3A%2F%2Fuser.91160.com%2Fsupplier-wechat.html&response_type=code&scope=snsapi_login&state=login_1#wechat_redirect"
    );
    assert_eq!(qr_image_url("abc"), "https://open.weixin.qq.com/connect/qrcode/abc");
    assert_eq!(callback_url("c0de", ""), "http://user.91160.com/supplier-wechat.html?code=c0de");
    assert_eq!(
        callback_url("c0de", "a b/ü~"),
        "http://user.91160.com/supplier-wechat.html?code=c0de&state=a%20b%2F%C3%BC~"
    );
}

#[test]
fn the_uuid_is_found_in_the_page() {
    let page = "<img class=\"qrcode\" src=\"/connect/qrcode/071Ab_-9xyz\"/>";
    assert_eq!(extract_qr_uuid(page).unwrap(), "071Ab_-9xyz");
    match extract_qr_uuid("<html>nothing</html>") {
        Err(AppError::ParseError(m)) => assert_eq!(m, "QR UUID not found"),
        other => panic!("unexpected {:?}", other),
    }
}

#[test]
fn qr_images_are_checked_by_their_first_bytes() {
    assert!(check_qr_image(&[0xFF, 0xD8, 0xFF, 0xE0, 0x00]).is_ok());
    assert!(check_qr_image(&[0x89, 0x50, 0x4E, 0x47]).is_ok());
    match check_qr_image(&[0xFF, 0xD8, 0xFF]) {
        Err(AppError::ParseError(m)) => assert_eq!(m, "QR image too small"),
        other => panic!("unexpected {:?}", other),
    }
    match check_qr_image(&[0x47, 0x49, 0x46, 0x38, 0x39]) {
        Err(AppError::ParseError(m)) => assert_eq!(m, "QR image invalid format"),
        other => panic!("unexpected {:?}", other),
    }
    match check_qr_image(&[0x89, 0x50, 0x4E, 0x48]) {
        Err(AppError::ParseError(m)) => assert_eq!(m, "QR image invalid format"),
        other => panic!("unexpected {:?}", other),
    }
    assert_eq!(qr_image_base64(&[0xFF, 0xD8, 0xFF, 0xE0]).unwrap(), "/9j/4A==");
    assert_eq!(qr_image_base64(&[0x89, 0x50, 0x4E, 0x47, 0x0D, 0x0A]).unwrap(), "iVBORw0K");
    assert!(qr_image_base64(&[1, 2]).is_err());
}

#[test]
fn poll_answers_are_read() {
    let f = parse_poll_body("window.wx_errcode=408;window.wx_code='';");
    assert_eq!((f.status.as_str(), f.code.as_str(), f.redirect_url.as_str()), ("408", "", ""));
    let f = parse_poll_body("window.wx_errcode = 405 ; window.wx_code = \"C0DE\";");
    assert_eq!((f.status.as_str(), f.code.as_str()), ("405", "C0DE"));
    let f = parse_poll_body("window.location.replace('http://user.91160.com/x?code=9&state=s')");
    assert_eq!(f.status, "0");
    assert_eq!(f.redirect_url, "http://user.91160.com/x?code=9&state=s");
    let f = parse_poll_body("nothing here");
    assert_eq!((f.status.as_str(), f.code.as_str(), f.redirect_url.as_str()), ("0", "", ""));
}

#[test]
fn a_poller_needs_a_uuid() {
    match QrPoller::start("", "s", 1) {
        Err(r) => {
            assert!(!r.success);
            assert_eq!(r.message, "uuid not initialized");
            assert!(r.cookie_path.is_none());
        }
        Ok(_) => panic!("a poller without a uuid"),
    }
}

#[test]
fn requests_carry_the_last_status() {
    let mut p = poller();
    match p.next_request(0, 1_700_000_000_123) {
        PollRequest::Send { url } => assert_eq!(
            url,
            "https://lp.open.weixin.qq.com/connect/l/qrconnect?uuid=uuid-1&last=404&_=1700000000123"
        ),
        other => panic!("unexpected {:?}", other),
    }
    p.on_body("window.wx_errcode=408;");
    match p.next_request(300_000, 5) {
        PollRequest::Send { url } => assert_eq!(
            url,
            "https://lp.open.weixin.qq.com/connect/l/qrconnect?uuid=uuid-1&last=408&_=5"
        ),
        other => panic!("unexpected {:?}", other),
    }
    match p.next_request(300_001, 5) {
        PollRequest::Expired(r) => assert_eq!(r.message, "qr expired"),
        other => panic!("unexpected {:?}", other),
    }
}

#[test]
fn the_user_is_told_of_a_status_once() {
    let mut p = poller();
    let step = p.on_body("window.wx_errcode=408;");
    expect_retry(&step, 1000, Some("waiting for scan"));
    let step = p.on_body("window.wx_errcode=408;");
    expect_retry(&step, 1000, None);
    let step = p.on_body("window.wx_errcode=201;");
    expect_retry(&step, 1000, Some("scanned, confirm on phone"));
    let step = p.on_body("window.wx_errcode=201;");
    expect_retry(&step, 1000, None);
    let step = p.on_body("window.wx_errcode=408;");
    expect_retry(&step, 1000, Some("waiting for scan"));
    let step = p.on_body("window.wx_errcode=500;");
    expect_retry(&step, 1000, None);
    assert_eq!(p.last_param, "408");
}

#[test]
fn a_code_that_is_never_ready_expires() {
    let mut p = poller();
    for i in 0..60 {
        let body = if i % 2 == 0 { "window.wx_errcode=404;" } else { "window.wx_errcode=402;" };
        let step = p.on_body(body);
        expect_retry(&step, 1000, None);
    }
    assert_eq!(p.not_ready, 60);
    assert_eq!(p.last_status, "404");
    assert_eq!(p.last_param, "402");
    let step = p.on_body("window.wx_errcode=404;");
    match step.action {
        PollAction::Finish(r) => {
            assert!(!r.success);
            assert_eq!(r.message, "qr expired");
        }
        other => panic!("unexpected {:?}", other),
    }
    let mut p = poller();
    for _ in 0..59 {
        p.on_body("window.wx_errcode=404;");
    }
    p.on_body("window.wx_errcode=408;");
    assert_eq!(p.not_ready, 0);
}

#[test]
fn a_confirmation_starts_the_exchange() {
    let mut p = poller();
    let step = p.on_body("window.wx_errcode=405;window.wx_code='C0DE';");
    assert_eq!(step.notice.as_deref(), Some("logging in"));
    match step.action {
        PollAction::Exchange { callback_url } => assert_eq!(
            callback_url,
            "http://user.91160.com/supplier-wechat.html?code=C0DE&state=login_17"
        ),
        other => panic!("unexpected {:?}", other),
    }
    assert_eq!(p.last_param, "405");
}

#[test]
fn a_redirect_implies_the_confirmation() {
    let mut p = poller();
    let step = p.on_body("window.location.replace('http://user.91160.com/back?state=st%20ate&x=1&code=Q9&code=later')");
    assert_eq!(step.notice.as_deref(), Some("logging in"));
    match step.action {
        PollAction::Exchange { callback_url } => assert_eq!(
            callback_url,
            "http://user.91160.com/supplier-wechat.html?code=Q9&state=st%20ate"
        ),
        other => panic!("unexpected {:?}", other),
    }
    assert_eq!(p.state, "st ate");
}

#[test]
fn a_confirmation_without_a_code_is_asked_again() {
    let mut p = poller();
    let step = p.on_body("window.wx_errcode=405;window.wx_code='';");
    expect_retry(&step, 1000, Some("confirmed but no code, retrying"));
    let step = p.on_body("window.wx_errcode=405;window.location='not an address'");
    expect_retry(&step, 1000, Some("confirmed but no code, retrying"));
    assert_eq!(p.state, "login_17");
    let fields = PollFields { status: "405".into(), code: String::new(), redirect_url: "x".into() };
    let step = p.on_fields(&fields, &Some(vec![("state".to_string(), "s2".to_string())]));
    expect_retry(&step, 1000, Some("confirmed but no code, retrying"));
    assert_eq!(p.state, "s2");
}

#[test]
fn failures_and_cancellation() {
    let p = poller();
    expect_retry(&p.on_failure(false), 2000, None);
    expect_retry(&p.on_failure(true), 1000, None);
    let r = p.on_cancel();
    assert!(!r.success);
    assert_eq!(r.message, "canceled");
}

fn names(records: &[CookieRecord]) -> Vec<(String, String, String, String)> {
    records.iter().map(|r| (r.name.clone(), r.value.clone(), r.domain.clone(), r.path.clone())).collect()
}

fn quad(a: &str, b: &str, c: &str, d: &str) -> (String, String, String, String) {
    (a.to_string(), b.to_string(), c.to_string(), d.to_string())
}

#[test]
fn cookie_headers_are_read() {
    let records = parse_cookie_header("access_hash=abc; sid = 1=2 ;empty=; =novalue; plain;  ", "www.91160.com");
    assert_eq!(
        names(&records),
        vec![quad("access_hash", "abc", ".www.91160.com", "/"), quad("sid", "1=2", ".www.91160.com", "/")]
    );
    let records = parse_cookie_header("a=b", "..91160.com");
    assert_eq!(names(&records), vec![quad("a", "b", ".91160.com", "/")]);
    assert!(parse_cookie_header("", "x").is_empty());
    assert_eq!(harvest_domains(), vec!["www.91160.com", "user.91160.com", ".91160.com"]);
}

#[test]
fn the_harvest_is_judged() {
    let r = judge_harvest(&Vec::new()).expect("failure");
    assert_eq!(r.message, "no cookies received");
    let r = judge_harvest(&parse_cookie_header("sid=1", "x")).expect("failure");
    assert_eq!(r.message, "missing access_hash");
    assert!(!r.success);
    assert!(judge_harvest(&parse_cookie_header("sid=1; access_hash=k", "x")).is_none());
}

#[test]
fn the_login_ends_with_the_store() {
    let r = login_result(Ok(Some("/cfg/cookies.json".to_string())));
    assert!(r.success);
    assert_eq!(r.message, "login ok");
    assert_eq!(r.cookie_path.as_deref(), Some("/cfg/cookies.json"));
    let r = login_result(Ok(None));
    assert!(r.success);
    assert!(r.cookie_path.is_none());
    let r = login_result(Err(AppError::ConfigError("No cookies to save".into())));
    assert!(!r.success);
    assert_eq!(r.message, "Configuration error: No cookies to save");
}

#[test]
fn notices_are_translated() {
    assert_eq!(translate_qr_status("waiting for scan"), "等待扫码...");
    assert_eq!(translate_qr_status("scanned, confirm on phone"), "已扫码，请在手机上确认");
    assert_eq!(translate_qr_status("logging in"), "正在登录...");
    assert_eq!(translate_qr_status("confirmed but no code, retrying"), "已确认但未获取到登录码，正在重试...");
    assert_eq!(translate_qr_status("other"), "other");
    assert_eq!(translate_qr_error("canceled"), "已取消");
    assert_eq!(translate_qr_error("qr expired"), "二维码已过期");
    assert_eq!(translate_qr_error("uuid not initialized"), "二维码未初始化");
    assert_eq!(translate_qr_error("no cookies received"), "未获取到有效 Cookie");
    assert_eq!(translate_qr_error("missing access_hash"), "登录未完成：缺少 access_hash");
    assert_eq!(translate_qr_error("boom"), "boom");
}
