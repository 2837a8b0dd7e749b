//! The headers that the requests carry, each list as pairs of name and value.

use vstd::prelude::*;
use vstd::string::StringExecFns;

verus! {

/// The browser that the client presents itself as.
pub open spec fn user_agent() -> Seq<char> {
    "Mozilla/5.0 (Windows NT 10.0; Win64; x64) AppleWebKit/537.36 (KHTML, like Gecko) Chrome/120.0.0.0 Safari/537.36"@
}

/// What a browser accepts when it loads a page.
pub open spec fn page_accept() -> Seq<char> {
    "text/html,application/xhtml+xml,application/xml;q=0.9,image/avif,image/webp,image/apng,*/*;q=0.8,application/signed-exchange;v=b3;q=0.7"@
}

/// The headers of every request to the site.
pub open spec fn default_header_list() -> Seq<(Seq<char>, Seq<char>)> {
    seq![
        ("User-Agent"@, user_agent()),
        ("Accept"@, "application/json, text/javascript, */*; q=0.01"@),
        ("Accept-Language"@, "zh-CN,zh;q=0.9,en;q=0.8"@),
        ("Sec-Fetch-Dest"@, "empty"@),
        ("Sec-Fetch-Mode"@, "cors"@),
        ("Sec-Fetch-Site"@, "same-origin"@),
        ("sec-ch-ua"@, "\"Not_A Brand\";v=\"8\", \"Chromium\";v=\"120\", \"Google Chrome\";v=\"120\""@),
        ("sec-ch-ua-mobile"@, "?0"@),
        ("sec-ch-ua-platform"@, "\"Windows\""@),
    ]
}

/// The headers of the requests to the login service.
pub open spec fn wechat_header_list() -> Seq<(Seq<char>, Seq<char>)> {
    seq![
        ("User-Agent"@, user_agent()),
        ("Referer"@, "https://open.weixin.qq.com/"@),
        ("Origin"@, "https://open.weixin.qq.com"@),
        ("Accept"@, "*/*"@),
        ("Connection"@, "keep-alive"@),
    ]
}

/// What overrides the default headers when a page is loaded as a browser
/// loads it; `site` says from where the browser comes.
pub open spec fn navigation_header_list(site: Seq<char>) -> Seq<(Seq<char>, Seq<char>)> {
    seq![
        ("Accept"@, page_accept()),
        ("Sec-Fetch-Dest"@, "document"@),
        ("Sec-Fetch-Mode"@, "navigate"@),
        ("Sec-Fetch-Site"@, site),
        ("Sec-Fetch-User"@, "?1"@),
        ("Upgrade-Insecure-Requests"@, "1"@),
    ]
}

/// One header.
fn header(name: &str, value: &str) -> (r: (String, String))
    ensures
        r.deep_view() == (name@, value@),
{
    (String::from_str(name), String::from_str(value))
}

/// The headers of every request to the site.
pub fn default_headers() -> (r: Vec<(String, String)>)
    ensures
        r.deep_view() == default_header_list(),
{
    let mut out: Vec<(String, String)> = Vec::new();
    out.push(
        header(
            "User-Agent",
            "Mozilla/5.0 (Windows NT 10.0; Win64; x64) AppleWebKit/537.36 (KHTML, like Gecko) Chrome/120.0.0.0 Safari/537.36",
        ),
    );
    out.push(header("Accept", "application/json, text/javascript, */*; q=0.01"));
    out.push(header("Accept-Language", "zh-CN,zh;q=0.9,en;q=0.8"));
    out.push(header("Sec-Fetch-Dest", "empty"));
    out.push(header("Sec-Fetch-Mode", "cors"));
    out.push(header("Sec-Fetch-Site", "same-origin"));
    out.push(
        header(
            "sec-ch-ua",
            "\"Not_A Brand\";v=\"8\", \"Chromium\";v=\"120\", \"Google Chrome\";v=\"120\"",
        ),
    );
    out.push(header("sec-ch-ua-mobile", "?0"));
    out.push(header("sec-ch-ua-platform", "\"Windows\""));
    assert(out.deep_view() =~= default_header_list());
    out
}

/// The headers of the requests to the login service.
pub fn wechat_headers() -> (r: Vec<(String, String)>)
    ensures
        r.deep_view() == wechat_header_list(),
{
    let mut out: Vec<(String, String)> = Vec::new();
    out.push(
        header(
            "User-Agent",
            "Mozilla/5.0 (Windows NT 10.0; Win64; x64) AppleWebKit/537.36 (KHTML, like Gecko) Chrome/120.0.0.0 Safari/537.36",
        ),
    );
    out.push(header("Referer", "https://open.weixin.qq.com/"));
    out.push(header("Origin", "https://open.weixin.qq.com"));
    out.push(header("Accept", "*/*"));
    out.push(header("Connection", "keep-alive"));
    assert(out.deep_view() =~= wechat_header_list());
    out
}

/// What overrides the default headers when a page is loaded as a browser
/// loads it: `none` as the site for a first visit, `same-origin` for a
/// visit from within the site.
pub fn navigation_headers(site: &str) -> (r: Vec<(String, String)>)
    ensures
        r.deep_view() == navigation_header_list(site@),
{
    let mut out: Vec<(String, String)> = Vec::new();
    out.push(
        header(
            "Accept",
            "text/html,application/xhtml+xml,application/xml;q=0.9,image/avif,image/webp,image/apng,*/*;q=0.8,application/signed-exchange;v=b3;q=0.7",
        ),
    );
    out.push(header("Sec-Fetch-Dest", "document"));
    out.push(header("Sec-Fetch-Mode", "navigate"));
    out.push(header("Sec-Fetch-Site", site));
    out.push(header("Sec-Fetch-User", "?1"));
    out.push(header("Upgrade-Insecure-Requests", "1"));
    assert(out.deep_view() =~= navigation_header_list(site@));
    out
}

} // verus!
