//! The calls into the crates that this library builds on.
//!
//! Each function here hands plain values to one outside function and takes
//! plain values back. Its contract is believed, not proved: it says what the
//! outside crate documents, or gives the result a name where that takes more
//! than a few lines to say.

use base64::Engine;
use rand::Rng;
use vstd::prelude::*;
use vstd::string::StringSliceAdditionalSpecFns;

verus! {

/// What capture group 1 holds in the leftmost match of the regular
/// expression `pattern` in `haystack`; `None` where the pattern is no valid
/// expression, does not match, or matches without that group.
pub uninterp spec fn regex_group_one(pattern: Seq<char>, haystack: Seq<char>) -> Option<Seq<char>>;

/// The pairs of name and value in the query of the address `input`, decoded
/// and in their order; `None` where `input` is no valid absolute address.
pub uninterp spec fn url_query_pairs(input: Seq<char>) -> Option<Seq<(Seq<char>, Seq<char>)>>;

/// The standard base64 encoding of `bytes`, with padding.
pub uninterp spec fn base64_standard(bytes: Seq<u8>) -> Seq<char>;

/// The moment that the RFC 2822 date `text` names, in milliseconds since the
/// start of 1970 in universal time; `None` where `text` is no such date.
pub uninterp spec fn rfc2822_millis(text: Seq<char>) -> Option<i64>;

/// For each element of the HTML document `html` that the CSS selector
/// `selector` matches, in the order in which the selection hands them out:
/// the text below it and the value of its attribute `attr`. `None` where
/// `selector` is no valid selector.
pub uninterp spec fn html_selection(html: Seq<char>, selector: Seq<char>, attr: Seq<char>) -> Option<
    Seq<(Seq<char>, Option<Seq<char>>)>,
>;

/// For each element of the HTML document `html` that the CSS selector
/// `outer` matches, in the order in which the selection hands them out: the
/// value of its attribute `outer_attr`, and of each element below it that
/// `inner` matches the text and the value of its attribute `inner_attr`.
/// `None` where one of the two is no valid selector.
pub uninterp spec fn html_nested_selection(
    html: Seq<char>,
    outer: Seq<char>,
    outer_attr: Seq<char>,
    inner: Seq<char>,
    inner_attr: Seq<char>,
) -> Option<Seq<(Option<Seq<char>>, Seq<(Seq<char>, Option<Seq<char>>)>)>>;

/// A byte that percent-encoding leaves as it is: a letter or digit of ASCII,
/// or one of `-`, `.`, `_`, `~`.
pub open spec fn is_unreserved(b: u8) -> bool {
    (0x30 <= b <= 0x39) || (0x41 <= b <= 0x5a) || (0x61 <= b <= 0x7a) || b == 0x2d || b == 0x2e
        || b == 0x5f || b == 0x7e
}

/// The hexadecimal digit of a number below sixteen, in upper case.
pub open spec fn hex_digit(d: u8) -> char {
    if d < 10 {
        (0x30 + d) as char
    } else {
        (0x41 + d - 10) as char
    }
}

/// The percent-encoding of a byte string: an unreserved byte stands for
/// itself, any other becomes `%` and its two hexadecimal digits.
pub open spec fn percent_encoded(bytes: Seq<u8>) -> Seq<char>
    decreases bytes.len(),
{
    if bytes.len() == 0 {
        Seq::empty()
    } else if is_unreserved(bytes.last()) {
        percent_encoded(bytes.drop_last()).push(bytes.last() as char)
    } else {
        percent_encoded(bytes.drop_last()) + seq![
            '%',
            hex_digit(bytes.last() / 16),
            hex_digit(bytes.last() % 16),
        ]
    }
}

/// An element that a selector found: the text below it, and the value of
/// the attribute that was asked for.
#[derive(Debug)]
pub struct ScrapedElement {
    pub text: String,
    pub attr: Option<String>,
}

impl DeepView for ScrapedElement {
    type V = (Seq<char>, Option<Seq<char>>);

    open spec fn deep_view(&self) -> (Seq<char>, Option<Seq<char>>) {
        (self.text@, self.attr.deep_view())
    }
}

/// An element that a selector found, with the elements that a second
/// selector found below it.
#[derive(Debug)]
pub struct ScrapedGroup {
    pub attr: Option<String>,
    pub items: Vec<ScrapedElement>,
}

impl DeepView for ScrapedGroup {
    type V = (Option<Seq<char>>, Seq<(Seq<char>, Option<Seq<char>>)>);

    open spec fn deep_view(&self) -> (Option<Seq<char>>, Seq<(Seq<char>, Option<Seq<char>>)>) {
        (self.attr.deep_view(), self.items.deep_view())
    }
}

/// `Regex::new` of the crate regex, then `Regex::captures` and
/// `Captures::get(1)`: the text of the first capture group in the leftmost
/// match, copied. The contract names that text and claims nothing else.
#[verifier::external_body]
pub(crate) fn first_capture(pattern: &str, haystack: &str) -> (r: Option<String>)
    ensures
        r.deep_view() == regex_group_one(pattern@, haystack@),
{
    let re = regex::Regex::new(pattern).ok()?;
    let caps = re.captures(haystack)?;
    caps.get(1).map(|m| m.as_str().to_string())
}

/// `Url::parse` of the crate url, then `Url::query_pairs`: the decoded pairs
/// of the query, copied. The contract names them and claims nothing else.
#[verifier::external_body]
pub(crate) fn query_pairs(input: &str) -> (r: Option<Vec<(String, String)>>)
    ensures
        r.deep_view() == url_query_pairs(input@),
{
    let url = url::Url::parse(input).ok()?;
    Some(url.query_pairs().map(|(k, v)| (k.into_owned(), v.into_owned())).collect())
}

/// `urlencoding::encode`: every byte of the UTF-8 form of `s` except the
/// unreserved ones is replaced by `%` and two upper-case hexadecimal digits.
#[verifier::external_body]
pub(crate) fn percent_encode(s: &str) -> (r: String)
    ensures
        r@ == percent_encoded(s.spec_bytes()),
{
    urlencoding::encode(s).into_owned()
}

/// `Engine::encode` of the crate base64 with the engine `STANDARD`. The call
/// panics where the length of the result does not fit `usize`, which the
/// precondition excludes. The contract names the result.
#[verifier::external_body]
pub(crate) fn base64_encode(bytes: &[u8]) -> (r: String)
    requires
        (bytes@.len() / 3) * 4 + 4 <= usize::MAX,
    ensures
        r@ == base64_standard(bytes@),
{
    base64::engine::general_purpose::STANDARD.encode(bytes)
}

/// `DateTime::parse_from_rfc2822` of the crate chrono, then
/// `DateTime::timestamp_millis`. The contract names the result.
#[verifier::external_body]
pub(crate) fn parse_rfc2822_millis(text: &str) -> (r: Option<i64>)
    ensures
        r == rfc2822_millis(text@),
{
    chrono::DateTime::parse_from_rfc2822(text).ok().map(|d| d.timestamp_millis())
}

/// `Selector::parse`, `Html::parse_document` and `Html::select` of the crate
/// scraper: of each element found, the text (`ElementRef::text`) and one
/// attribute (`ElementRef::attr`), copied. The contract names the result.
#[verifier::external_body]
pub(crate) fn select_elements(html: &str, selector: &str, attr: &str) -> (r: Option<
    Vec<ScrapedElement>,
>)
    ensures
        r.deep_view() == html_selection(html@, selector@, attr@),
{
    let sel = scraper::Selector::parse(selector).ok()?;
    let doc = scraper::Html::parse_document(html);
    Some(
        doc.select(&sel).map(
            |e| ScrapedElement { text: e.text().collect(), attr: e.attr(attr).map(String::from) },
        ).collect(),
    )
}

/// `Selector::parse`, `Html::parse_document`, `Html::select` and
/// `ElementRef::select` of the crate scraper: of each element that `outer`
/// finds one attribute, and of each element that `inner` finds below it the
/// text and one attribute, copied. The contract names the result.
#[verifier::external_body]
pub(crate) fn select_groups(
    html: &str,
    outer: &str,
    outer_attr: &str,
    inner: &str,
    inner_attr: &str,
) -> (r: Option<Vec<ScrapedGroup>>)
    ensures
        r.deep_view() == html_nested_selection(html@, outer@, outer_attr@, inner@, inner_attr@),
{
    let outer_sel = scraper::Selector::parse(outer).ok()?;
    let inner_sel = scraper::Selector::parse(inner).ok()?;
    let doc = scraper::Html::parse_document(html);
    let element = |e: scraper::ElementRef| ScrapedElement {
        text: e.text().collect(),
        attr: e.attr(inner_attr).map(String::from),
    };
    let group = |g: scraper::ElementRef| ScrapedGroup {
        attr: g.attr(outer_attr).map(String::from),
        items: g.select(&inner_sel).map(element).collect(),
    };
    Some(doc.select(&outer_sel).map(group).collect())
}

/// `Rng::gen_range` of the crate rand on the thread's generator, over
/// `min..=max`: some number of that range. The call panics on an empty
/// range, which the precondition excludes.
#[verifier::external_body]
pub(crate) fn random_in_range(min: u64, max: u64) -> (r: u64)
    requires
        min <= max,
    ensures
        min <= r <= max,
{
    rand::thread_rng().gen_range(min..=max)
}

} // verus!
