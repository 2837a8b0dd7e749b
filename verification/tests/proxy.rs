use quickdoctor::errors::AppError;
use quickdoctor::proxy::{
    build_proxy_url, judge_probe, normalize_proxy_country, proxy_list_url, read_proxy_listing,
    resolve_proxy_protocols, ProxyPool, Rotation, RotationEvent, RotationPhase, RotationStep,
};

fn strings(items: &[&str]) -> Vec<String> {
    items.iter().map(|s| s.to_string()).collect()
}

#[test]
fn test_resolve_protocols() {
    assert!(resolve_proxy_protocols("https").unwrap().contains(&"https".to_string()));
    assert!(resolve_proxy_protocols("").unwrap().len() == 3);
    assert!(resolve_proxy_protocols("socks4").is_err());
}

#[test]
fn test_build_proxy_url() {
    assert_eq!(build_proxy_url("https", "1.2.3.4:8080"), "https://1.2.3.4:8080");
    assert_eq!(build_proxy_url("https", "http://1.2.3.4:8080"), "http://1.2.3.4:8080");
    assert!(build_proxy_url("https", "").is_empty());
}

#[test]
fn protocols_are_normalized() {
    assert_eq!(resolve_proxy_protocols(" HTTPS ").unwrap(), strings(&["https"]));
    assert_eq!(resolve_proxy_protocols("Socks5").unwrap(), strings(&["socks5"]));
    assert_eq!(resolve_proxy_protocols("http").unwrap(), strings(&["http"]));
    assert_eq!(resolve_proxy_protocols("ALL").unwrap(), strings(&["https", "http", "socks5"]));
    assert_eq!(resolve_proxy_protocols("  ").unwrap(), strings(&["https", "http", "socks5"]));
    match resolve_proxy_protocols("SOCKS4") {
        Err(AppError::ProxyError(m)) => assert_eq!(m, "socks4 is not supported"),
        other => panic!("unexpected {:?}", other),
    }
    match resolve_proxy_protocols(" FTP ") {
        Err(AppError::ProxyError(m)) => assert_eq!(m, "unsupported proxy protocol: ftp"),
        other => panic!("unexpected {:?}", other),
    }
}

#[test]
fn every_country_stands_for_cn() {
    assert_eq!(normalize_proxy_country("cn"), "CN");
    assert_eq!(normalize_proxy_country(" CN "), "CN");
    assert_eq!(normalize_proxy_country("us"), "CN");
    assert_eq!(normalize_proxy_country(""), "CN");
}

#[test]
fn proxy_urls() {
    assert_eq!(build_proxy_url("socks5", "  9.9.9.9:1080\n"), "socks5://9.9.9.9:1080");
    assert_eq!(build_proxy_url("http", "   "), "");
    assert_eq!(
        proxy_list_url("http", "us", 6),
        "https://proxy.scdn.io/api/get_proxy.php?protocol=http&count=6&country_code=CN"
    );
    assert_eq!(
        proxy_list_url("", "", -2),
        "https://proxy.scdn.io/api/get_proxy.php?protocol=https&count=6&country_code=CN"
    );
    assert_eq!(
        proxy_list_url("socks5", "CN", 12),
        "https://proxy.scdn.io/api/get_proxy.php?protocol=socks5&count=12&country_code=CN"
    );
}

#[test]
fn listings_are_read() {
    let hosts = strings(&[" 1.1.1.1:80 ", "", "2.2.2.2:81", "1.1.1.1:80", "  "]);
    assert_eq!(read_proxy_listing(true, "200 OK", 200, "ok", &hosts).unwrap(), strings(&["1.1.1.1:80", "2.2.2.2:81"]));
    match read_proxy_listing(false, "503 Service Unavailable", 200, "ok", &hosts) {
        Err(AppError::ProxyError(m)) => assert_eq!(m, "proxy api http 503 Service Unavailable"),
        other => panic!("unexpected {:?}", other),
    }
    match read_proxy_listing(true, "200 OK", 500, "quota used up", &hosts) {
        Err(AppError::ProxyError(m)) => assert_eq!(m, "quota used up"),
        other => panic!("unexpected {:?}", other),
    }
    match read_proxy_listing(true, "200 OK", 500, "", &hosts) {
        Err(AppError::ProxyError(m)) => assert_eq!(m, "proxy api error"),
        other => panic!("unexpected {:?}", other),
    }
    match read_proxy_listing(true, "200 OK", 200, "", &strings(&[" ", ""])) {
        Err(AppError::ProxyError(m)) => assert_eq!(m, "proxy list is empty"),
        other => panic!("unexpected {:?}", other),
    }
}

#[test]
fn probes_are_judged() {
    assert!(judge_probe(200, "200 OK").is_ok());
    assert!(judge_probe(302, "302 Found").is_ok());
    assert!(judge_probe(399, "399").is_ok());
    assert!(judge_probe(101, "101 Switching Protocols").is_ok());
    match judge_probe(404, "404 Not Found") {
        Err(AppError::ProxyError(m)) => assert_eq!(m, "proxy probe http 404 Not Found"),
        other => panic!("unexpected {:?}", other),
    }
    assert!(judge_probe(500, "500").is_err());
}

fn expect_fetch(step: &RotationStep, protocol: &str) {
    match step {
        RotationStep::Fetch { url } => assert_eq!(url, &proxy_list_url(protocol, "CN", 6)),
        other => panic!("unexpected step {:?}", other),
    }
}

fn expect_probe(step: &RotationStep, url: &str) {
    match step {
        RotationStep::Probe { proxy_url } => assert_eq!(proxy_url, url),
        other => panic!("unexpected step {:?}", other),
    }
}

#[test]
fn an_unsupported_protocol_fails_without_a_request() {
    let mut pool = ProxyPool::new();
    let (rotation, step) = Rotation::begin(&mut pool, "socks4", "CN");
    match step {
        RotationStep::Failed(AppError::ProxyError(m)) => assert_eq!(m, "socks4 is not supported"),
        other => panic!("unexpected step {:?}", other),
    }
    assert_eq!(rotation.phase, RotationPhase::Done);
}

#[test]
fn a_rotation_probes_until_a_proxy_answers() {
    let mut pool = ProxyPool::new();
    let (mut rotation, step) = Rotation::begin(&mut pool, "http", "cn");
    expect_fetch(&step, "http");
    let step = rotation.step(&mut pool, RotationEvent::Fetched(strings(&["  ", "1.1.1.1:80", "socks5://2.2.2.2:1", "3.3.3.3:3"])));
    expect_probe(&step, "http://1.1.1.1:80");
    assert_eq!(pool.pool, strings(&["socks5://2.2.2.2:1", "3.3.3.3:3"]));
    assert_eq!(pool.protocol, "http");
    assert_eq!(pool.country, "CN");
    let step = rotation.step(&mut pool, RotationEvent::ProbeFailed(AppError::HttpError("refused".into())));
    expect_probe(&step, "socks5://2.2.2.2:1");
    assert_eq!(pool.pool, strings(&["3.3.3.3:3"]));
    let step = rotation.step(&mut pool, RotationEvent::ProbeOk);
    match step {
        RotationStep::Found(url) => assert_eq!(url, "socks5://2.2.2.2:1"),
        other => panic!("unexpected step {:?}", other),
    }

    let (mut rotation, step) = Rotation::begin(&mut pool, "http", "CN");
    expect_probe(&step, "http://3.3.3.3:3");
    assert!(pool.pool.is_empty());
    let step = rotation.step(&mut pool, RotationEvent::ProbeFailed(AppError::ProxyError("proxy probe http 502".into())));
    match step {
        RotationStep::Failed(AppError::ProxyError(m)) => assert_eq!(m, "http: Proxy error: proxy probe http 502"),
        other => panic!("unexpected step {:?}", other),
    }
}

#[test]
fn another_protocol_fills_the_pool_anew() {
    let mut pool = ProxyPool { pool: strings(&["1.1.1.1:80"]), protocol: "http".into(), country: "CN".into() };
    let (_, step) = Rotation::begin(&mut pool, "https", "CN");
    expect_fetch(&step, "https");
    pool.clear();
    assert!(pool.pool.is_empty());
    assert_eq!(pool.protocol, "http");
    let (_, step) = Rotation::begin(&mut pool, "http", "CN");
    expect_fetch(&step, "http");
}

#[test]
fn the_listing_is_asked_three_times_for_each_protocol() {
    let mut pool = ProxyPool::new();
    let (mut rotation, step) = Rotation::begin(&mut pool, "all", "CN");
    expect_fetch(&step, "https");
    for _ in 0..2 {
        let step = rotation.step(&mut pool, RotationEvent::FetchFailed(AppError::HttpError("down".into())));
        match step {
            RotationStep::Pause { ms } => assert!((400..=900).contains(&ms)),
            other => panic!("unexpected step {:?}", other),
        }
        let step = rotation.step(&mut pool, RotationEvent::Paused);
        expect_fetch(&step, "https");
    }
    let step = rotation.step(&mut pool, RotationEvent::Fetched(Vec::new()));
    expect_fetch(&step, "http");
    let step = rotation.step(&mut pool, RotationEvent::Fetched(strings(&[" "])));
    expect_fetch(&step, "socks5");
    for _ in 0..2 {
        rotation.step(&mut pool, RotationEvent::FetchFailed(AppError::ProxyError("proxy api error".into())));
        rotation.step(&mut pool, RotationEvent::Paused);
    }
    let step = rotation.step(&mut pool, RotationEvent::FetchFailed(AppError::ProxyError("quota".into())));
    match step {
        RotationStep::Failed(AppError::ProxyError(m)) => assert_eq!(
            m,
            "https: Proxy error: proxy list is empty; http: no proxy available; socks5: Proxy error: quota"
        ),
        other => panic!("unexpected step {:?}", other),
    }
    assert_eq!(rotation.phase, RotationPhase::Done);
}

#[test]
fn an_event_out_of_turn_fails_the_rotation() {
    let mut pool = ProxyPool::new();
    let (mut rotation, _) = Rotation::begin(&mut pool, "http", "CN");
    let step = rotation.step(&mut pool, RotationEvent::ProbeOk);
    match step {
        RotationStep::Failed(AppError::ProxyError(m)) => assert_eq!(m, "unexpected event"),
        other => panic!("unexpected step {:?}", other),
    }
}
