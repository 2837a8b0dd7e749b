//! The submission of an order: the form that the site expects, and the
//! reading of its answer.

use vstd::prelude::*;
use vstd::string::StringExecFns;
use crate::adapters::{first_capture, regex_group_one};
use crate::text::{
    byte_prefix, byte_prefix_of, contains, contains_seq, find_pair, lowercase_of, pair_value,
    to_lowercase, trim, trimmed,
};
use crate::types::{SubmitOrderResult, SubmitOrderResultView};

verus! {

/// The value of the field `name`, empty where the fields hold none.
pub open spec fn field_or_empty(params: Seq<(Seq<char>, Seq<char>)>, name: Seq<char>) -> Seq<char> {
    match pair_value(params, name) {
        Some(v) => v,
        None => Seq::empty(),
    }
}

/// The patient's identifier at the hospital: the field `hisMemId`, else `his_mem_id`.
pub open spec fn his_mem_id_of(params: Seq<(Seq<char>, Seq<char>)>) -> Seq<char> {
    match pair_value(params, "hisMemId"@) {
        Some(v) => v,
        None => field_or_empty(params, "his_mem_id"@),
    }
}

/// The form of a submission as the site expects it: its fields by their
/// names on the site, each taken from the caller's field of that meaning.
pub open spec fn order_form_of(p: Seq<(Seq<char>, Seq<char>)>) -> Seq<(Seq<char>, Seq<char>)> {
    seq![
        ("sch_data"@, field_or_empty(p, "sch_data"@)),
        ("mid"@, field_or_empty(p, "member_id"@)),
        ("addressId"@, field_or_empty(p, "addressId"@)),
        ("address"@, field_or_empty(p, "address"@)),
        ("hisMemId"@, his_mem_id_of(p)),
        ("disease_input"@, field_or_empty(p, "disease_input"@)),
        ("order_no"@, field_or_empty(p, "order_no"@)),
        ("disease_content"@, field_or_empty(p, "disease_content"@)),
        ("accept"@, "1"@),
        ("unit_id"@, field_or_empty(p, "unit_id"@)),
        ("schedule_id"@, field_or_empty(p, "schedule_id"@)),
        ("dep_id"@, field_or_empty(p, "dep_id"@)),
        ("his_dep_id"@, field_or_empty(p, "his_dep_id"@)),
        ("sch_date"@, field_or_empty(p, "sch_date"@)),
        ("time_type"@, field_or_empty(p, "time_type"@)),
        ("doctor_id"@, field_or_empty(p, "doctor_id"@)),
        ("his_doc_id"@, field_or_empty(p, "his_doc_id"@)),
        ("detlid"@, field_or_empty(p, "detlid"@)),
        ("detlid_realtime"@, field_or_empty(p, "detlid_realtime"@)),
        ("level_code"@, field_or_empty(p, "level_code"@)),
        ("is_hot"@, field_or_empty(p, "is_hot"@)),
    ]
}

/// One field of the form, taken from the caller's field `from`.
fn form_field(params: &Vec<(String, String)>, name: &str, from: &str) -> (r: (String, String))
    ensures
        r.deep_view() == (name@, field_or_empty(params.deep_view(), from@)),
{
    let value = match find_pair(params, from) {
        Some(v) => v,
        None => String::new(),
    };
    (String::from_str(name), value)
}

/// Builds the form of a submission from the caller's fields.
pub fn build_order_form(params: &Vec<(String, String)>) -> (r: Vec<(String, String)>)
    ensures
        r.deep_view() == order_form_of(params.deep_view()),
{
    let mut out: Vec<(String, String)> = Vec::new();
    out.push(form_field(params, "sch_data", "sch_data"));
    out.push(form_field(params, "mid", "member_id"));
    out.push(form_field(params, "addressId", "addressId"));
    out.push(form_field(params, "address", "address"));
    let his_mem_id = match find_pair(params, "hisMemId") {
        Some(v) => v,
        None => match find_pair(params, "his_mem_id") {
            Some(v) => v,
            None => String::new(),
        },
    };
    out.push((String::from_str("hisMemId"), his_mem_id));
    out.push(form_field(params, "disease_input", "disease_input"));
    out.push(form_field(params, "order_no", "order_no"));
    out.push(form_field(params, "disease_content", "disease_content"));
    out.push((String::from_str("accept"), String::from_str("1")));
    out.push(form_field(params, "unit_id", "unit_id"));
    out.push(form_field(params, "schedule_id", "schedule_id"));
    out.push(form_field(params, "dep_id", "dep_id"));
    out.push(form_field(params, "his_dep_id", "his_dep_id"));
    out.push(form_field(params, "sch_date", "sch_date"));
    out.push(form_field(params, "time_type", "time_type"));
    out.push(form_field(params, "doctor_id", "doctor_id"));
    out.push(form_field(params, "his_doc_id", "his_doc_id"));
    out.push(form_field(params, "detlid", "detlid"));
    out.push(form_field(params, "detlid_realtime", "detlid_realtime"));
    out.push(form_field(params, "level_code", "level_code"));
    out.push(form_field(params, "is_hot", "is_hot"));
    assert(out.deep_view() =~= order_form_of(params.deep_view()));
    out
}

/// The address of the booking page of a slot, which a submission names as its referer.
pub open spec fn ticket_url_of(unit_id: Seq<char>, dep_id: Seq<char>, schedule_id: Seq<char>) -> Seq<
    char,
> {
    "https://www.91160.com/guahao/ystep1/uid-"@ + unit_id + "/depid-"@ + dep_id + "/schid-"@
        + schedule_id + ".html"@
}

/// The address of the booking page of a slot.
pub fn ticket_url(unit_id: &str, dep_id: &str, schedule_id: &str) -> (r: String)
    ensures
        r@ == ticket_url_of(unit_id@, dep_id@, schedule_id@),
{
    let mut out = String::from_str("https://www.91160.com/guahao/ystep1/uid-");
    out.append(unit_id);
    out.append("/depid-");
    out.append(dep_id);
    out.append("/schid-");
    out.append(schedule_id);
    out.append(".html");
    out
}

/// The referer of a submission: the booking page of the slot that the form names.
pub fn submit_referer(form: &Vec<(String, String)>) -> (r: String)
    ensures
        r@ == ticket_url_of(
            field_or_empty(form.deep_view(), "unit_id"@),
            field_or_empty(form.deep_view(), "dep_id"@),
            field_or_empty(form.deep_view(), "schedule_id"@),
        ),
{
    let unit_id = match find_pair(form, "unit_id") {
        Some(v) => v,
        None => String::new(),
    };
    let dep_id = match find_pair(form, "dep_id") {
        Some(v) => v,
        None => String::new(),
    };
    let schedule_id = match find_pair(form, "schedule_id") {
        Some(v) => v,
        None => String::new(),
    };
    ticket_url(unit_id.as_str(), dep_id.as_str(), schedule_id.as_str())
}

/// Whether the address at which a submission ended says that it succeeded.
pub open spec fn success_url(url: Seq<char>) -> bool {
    contains_seq(lowercase_of(url), "success"@)
}

/// Whether the address at which a submission ended says that it succeeded.
pub fn is_success_url(url: &str) -> (r: bool)
    ensures
        r == success_url(url@),
{
    let lower = to_lowercase(url);
    contains(lower.as_str(), "success")
}

/// The message that one expression finds in the body: what its first group
/// holds, trimmed, unless that is empty.
pub open spec fn message_by(pattern: Seq<char>, body: Seq<char>) -> Option<Seq<char>> {
    match regex_group_one(pattern, body) {
        Some(m) => if trimmed(m).len() > 0 {
            Some(trimmed(m))
        } else {
            None
        },
        None => None,
    }
}

/// The expressions that find the reason of a failure, in the order in which they are tried.
pub open spec fn message_patterns() -> Seq<Seq<char>> {
    seq![
        "<div class=\"error\"[^>]*>([^<]+)</div>"@,
        "<span class=\"error\"[^>]*>([^<]+)</span>"@,
        "alert\\(['\"]([^'\"]+)['\"]\\)"@,
        "\"msg\"\\s*:\\s*\"([^\"]+)\""@,
        "\"message\"\\s*:\\s*\"([^\"]+)\""@,
    ]
}

/// The message that the first of `patterns` to find one finds in the body.
pub open spec fn first_message(patterns: Seq<Seq<char>>, body: Seq<char>) -> Seq<char>
    decreases patterns.len(),
{
    if patterns.len() == 0 {
        Seq::empty()
    } else {
        match message_by(patterns[0], body) {
            Some(m) => m,
            None => first_message(patterns.drop_first(), body),
        }
    }
}

/// The reason that the site gives for a failed submission; empty where the body holds none.
pub open spec fn submit_message_of(body: Seq<char>) -> Seq<char> {
    first_message(message_patterns(), body)
}

/// The message that one expression finds in the body.
fn find_message(pattern: &str, body: &str) -> (r: Option<String>)
    ensures
        r.deep_view() == message_by(pattern@, body@),
{
    match first_capture(pattern, body) {
        Some(m) => {
            let t = trim(m.as_str());
            if t.as_str().is_empty() {
                None
            } else {
                Some(t)
            }
        },
        None => None,
    }
}

/// Finds the reason that the site gives for a failed submission: an error
/// box of the page, an alert of its script, or the message of a JSON answer.
pub fn extract_submit_message(body: &str) -> (r: String)
    ensures
        r@ == submit_message_of(body@),
{
    let ghost ps = message_patterns();
    proof {
        reveal_with_fuel(first_message, 6);
        assert(ps.drop_first() =~= seq![ps[1], ps[2], ps[3], ps[4]]);
        assert(ps.drop_first().drop_first() =~= seq![ps[2], ps[3], ps[4]]);
        assert(ps.drop_first().drop_first().drop_first() =~= seq![ps[3], ps[4]]);
        assert(ps.drop_first().drop_first().drop_first().drop_first() =~= seq![ps[4]]);
        assert(ps.drop_first().drop_first().drop_first().drop_first().drop_first()
            =~= Seq::<Seq<char>>::empty());
    }
    match find_message("<div class=\"error\"[^>]*>([^<]+)</div>", body) {
        Some(m) => {
            return m;
        },
        None => {},
    }
    match find_message("<span class=\"error\"[^>]*>([^<]+)</span>", body) {
        Some(m) => {
            return m;
        },
        None => {},
    }
    match find_message("alert\\(['\"]([^'\"]+)['\"]\\)", body) {
        Some(m) => {
            return m;
        },
        None => {},
    }
    match find_message("\"msg\"\\s*:\\s*\"([^\"]+)\"", body) {
        Some(m) => {
            return m;
        },
        None => {},
    }
    match find_message("\"message\"\\s*:\\s*\"([^\"]+)\"", body) {
        Some(m) => {
            return m;
        },
        None => {},
    }
    String::new()
}

/// How much of a body is quoted where no reason is found in it, in bytes.
pub const BODY_SNIPPET_BYTES: usize = 200;

/// What the answer to a submission means, and what the client keeps as its last error.
#[derive(Debug)]
pub struct SubmitReading {
    pub result: SubmitOrderResult,
    pub last_error: Option<String>,
}

pub struct SubmitReadingView {
    pub result: SubmitOrderResultView,
    pub last_error: Option<Seq<char>>,
}

impl View for SubmitReading {
    type V = SubmitReadingView;

    open spec fn view(&self) -> SubmitReadingView {
        SubmitReadingView { result: self.result@, last_error: self.last_error.deep_view() }
    }
}

/// The message of a failure for which the body gives no reason: the status
/// and the beginning of the body.
pub open spec fn raw_failure(status: Seq<char>, body: Seq<char>) -> Seq<char> {
    "submit failed code="@ + status + ", resp="@ + byte_prefix_of(body, BODY_SNIPPET_BYTES as int)
}

/// What the answer to a submission means. An answer that ended at an address
/// with `success` in it is a success. Any other is a failure, with the
/// reason that the body gives, or, where it gives none, with the status and
/// the beginning of the body.
pub open spec fn submit_reading_of(final_url: Seq<char>, status: Seq<char>, body: Seq<char>) -> SubmitReadingView {
    if success_url(final_url) {
        SubmitReadingView {
            result: SubmitOrderResultView {
                success: true,
                status: true,
                message: "OK"@,
                url: Some(final_url),
            },
            last_error: None,
        }
    } else if submit_message_of(body).len() > 0 {
        SubmitReadingView {
            result: SubmitOrderResultView {
                success: false,
                status: false,
                message: "submit failed: "@ + submit_message_of(body),
                url: None,
            },
            last_error: Some(submit_message_of(body)),
        }
    } else {
        SubmitReadingView {
            result: SubmitOrderResultView {
                success: false,
                status: false,
                message: raw_failure(status, body),
                url: None,
            },
            last_error: Some(raw_failure(status, body)),
        }
    }
}

/// Reads the answer to a submission: the address at which it ended, the
/// text of its status, and its body.
pub fn interpret_submit_response(final_url: &str, status: &str, body: &str) -> (r: SubmitReading)
    ensures
        r@ == submit_reading_of(final_url@, status@, body@),
{
    if is_success_url(final_url) {
        return SubmitReading {
            result: SubmitOrderResult {
                success: true,
                status: true,
                message: String::from_str("OK"),
                url: Some(String::from_str(final_url)),
            },
            last_error: None,
        };
    }
    let reason = extract_submit_message(body);
    if !reason.as_str().is_empty() {
        let mut message = String::from_str("submit failed: ");
        message.append(reason.as_str());
        return SubmitReading {
            result: SubmitOrderResult { success: false, status: false, message, url: None },
            last_error: Some(reason),
        };
    }
    let mut message = String::from_str("submit failed code=");
    message.append(status);
    message.append(", resp=");
    message.append(byte_prefix(body, BODY_SNIPPET_BYTES));
    let kept = message.clone();
    SubmitReading {
        result: SubmitOrderResult { success: false, status: false, message, url: None },
        last_error: Some(kept),
    }
}

} // verus!
