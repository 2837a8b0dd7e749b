//! Decoding of the schedule service's answers.
//!
//! One answer lists doctors under `data.doc` and, under `data.sch`, the slots
//! of each doctor by time of day. The slots of one time of day come either as
//! an array or as an object whose values are the slots: both are read alike.

use vstd::prelude::*;
use vstd::string::StringExecFns;
use crate::errors::{AppError, AppErrorView};
use crate::json::{JsonValue, lookup, member_values, find_member};
use crate::text::{decimal_of, decimal, str_eq};
use crate::types::{DoctorSchedule, DoctorScheduleView, ScheduleSlot, ScheduleSlotView};

verus! {

/// An identifier: a string as it stands, an integer in decimal, anything else empty.
pub open spec fn id_text_of(v: Option<JsonValue>) -> Seq<char> {
    match v {
        Some(JsonValue::Text(s)) => s@,
        Some(JsonValue::Int(n)) => decimal_of(n as int),
        _ => Seq::empty(),
    }
}

/// The characters of a string value; empty for anything else.
pub open spec fn text_of(v: Option<JsonValue>) -> Seq<char> {
    match v {
        Some(JsonValue::Text(s)) => s@,
        _ => Seq::empty(),
    }
}

/// The number of an integer value; zero for anything else.
pub open spec fn int_of(v: Option<JsonValue>) -> i64 {
    match v {
        Some(JsonValue::Int(n)) => n,
        _ => 0,
    }
}

/// The slot that one entry of the answer describes.
pub open spec fn slot_of(v: JsonValue) -> ScheduleSlotView {
    ScheduleSlotView {
        schedule_id: id_text_of(v.member("schedule_id"@)),
        time_type: text_of(v.member("time_type"@)),
        time_type_desc: text_of(v.member("time_type_desc"@)),
        left_num: int_of(v.member("left_num"@)) as i32,
        sch_date: text_of(v.member("sch_date"@)),
    }
}

/// The slot of an entry, where the entry names a schedule.
pub open spec fn slot_entry(v: JsonValue) -> Option<ScheduleSlotView> {
    if slot_of(v).schedule_id.len() > 0 {
        Some(slot_of(v))
    } else {
        None
    }
}

/// The slots of the entries that name a schedule, in the order of the entries.
pub open spec fn slots_from(entries: Seq<JsonValue>) -> Seq<ScheduleSlotView> {
    entries.filter_map(|v: JsonValue| slot_entry(v))
}

/// The entries of one time of day: the elements of an array, the values of
/// an object, nothing for any other value.
pub open spec fn slot_entries(group: JsonValue) -> Seq<JsonValue> {
    match group {
        JsonValue::Array(items) => items@,
        JsonValue::Object(fields) => member_values(fields@),
        _ => Seq::empty(),
    }
}

/// The slots that a doctor's schedule holds under one time of day.
pub open spec fn period_slots(schedule: Seq<(String, JsonValue)>, period: Seq<char>) -> Seq<
    ScheduleSlotView,
> {
    match lookup(schedule, period) {
        Some(group) => slots_from(slot_entries(group)),
        None => Seq::empty(),
    }
}

/// The slots of a doctor: those of the morning, then those of the afternoon.
pub open spec fn doctor_slots(raw: JsonValue) -> Seq<ScheduleSlotView> {
    match raw {
        JsonValue::Object(fields) => period_slots(fields@, "am"@) + period_slots(fields@, "pm"@),
        _ => Seq::empty(),
    }
}

/// The sum of the remaining places of `slots`, wrapping at the bounds of `i32`.
pub open spec fn total_left(slots: Seq<ScheduleSlotView>) -> i32
    decreases slots.len(),
{
    if slots.len() == 0 {
        0
    } else {
        total_left(slots.drop_last()).wrapping_add(slots.last().left_num)
    }
}

/// The doctor that one entry of `data.doc` describes, with the slots that
/// `schedules` holds under the doctor's identifier. `None` where the entry
/// names no doctor, or the doctor has no slot.
pub open spec fn doctor_of(doc: JsonValue, schedules: Seq<(String, JsonValue)>) -> Option<
    DoctorScheduleView,
> {
    let id = id_text_of(doc.member("doctor_id"@));
    if id.len() == 0 {
        None
    } else {
        match lookup(schedules, id) {
            None => None,
            Some(raw) => {
                let slots = doctor_slots(raw);
                if slots.len() == 0 {
                    None
                } else {
                    Some(
                        DoctorScheduleView {
                            doctor_id: id,
                            doctor_name: text_of(doc.member("doctor_name"@)),
                            reg_fee: text_of(doc.member("reg_fee"@)),
                            total_left_num: total_left(slots),
                            his_doc_id: text_of(doc.member("his_doc_id"@)),
                            his_dep_id: text_of(doc.member("his_dep_id"@)),
                            schedules: slots,
                            schedule_id: slots[0].schedule_id,
                            time_type_desc: slots[0].time_type_desc,
                        },
                    )
                }
            },
        }
    }
}

/// The doctors of an answer that have at least one slot, in the order of `docs`.
pub open spec fn doctors_from(docs: Seq<JsonValue>, schedules: Seq<(String, JsonValue)>) -> Seq<
    DoctorScheduleView,
> {
    docs.filter_map(|d: JsonValue| doctor_of(d, schedules))
}

/// The entries of `data.doc`; none where the answer has no such array.
pub open spec fn doc_list_of(payload: JsonValue) -> Seq<JsonValue> {
    match payload.member("data"@) {
        Some(data) => match data.member("doc"@) {
            Some(JsonValue::Array(items)) => items@,
            _ => Seq::empty(),
        },
        None => Seq::empty(),
    }
}

/// The members of `data.sch`; none where the answer has no such object.
pub open spec fn schedule_map_of(payload: JsonValue) -> Seq<(String, JsonValue)> {
    match payload.member("data"@) {
        Some(data) => match data.member("sch"@) {
            Some(JsonValue::Object(fields)) => fields@,
            _ => Seq::empty(),
        },
        None => Seq::empty(),
    }
}

/// The doctors that a successful answer yields.
pub open spec fn payload_doctors(payload: JsonValue) -> Seq<DoctorScheduleView> {
    doctors_from(doc_list_of(payload), schedule_map_of(payload))
}

/// An identifier: a string as it stands, an integer in decimal, anything else empty.
pub fn id_text(v: Option<&JsonValue>) -> (r: String)
    ensures
        r@ == id_text_of(
            match v {
                Some(x) => Some(*x),
                None => None,
            },
        ),
{
    match v {
        Some(JsonValue::Text(s)) => s.clone(),
        Some(JsonValue::Int(n)) => decimal(*n),
        _ => String::new(),
    }
}

/// The characters of a string value; empty for anything else.
pub fn text_or_empty(v: Option<&JsonValue>) -> (r: String)
    ensures
        r@ == text_of(
            match v {
                Some(x) => Some(*x),
                None => None,
            },
        ),
{
    match v {
        Some(JsonValue::Text(s)) => s.clone(),
        _ => String::new(),
    }
}

/// The number of an integer value; zero for anything else.
pub fn int_or_zero(v: Option<&JsonValue>) -> (r: i64)
    ensures
        r == int_of(
            match v {
                Some(x) => Some(*x),
                None => None,
            },
        ),
{
    match v {
        Some(JsonValue::Int(n)) => *n,
        _ => 0,
    }
}

/// Reads one entry as a slot.
pub fn parse_slot(entry: &JsonValue) -> (r: ScheduleSlot)
    ensures
        r@ == slot_of(*entry),
{
    let left = int_or_zero(entry.get("left_num"));
    ScheduleSlot {
        schedule_id: id_text(entry.get("schedule_id")),
        time_type: text_or_empty(entry.get("time_type")),
        time_type_desc: text_or_empty(entry.get("time_type_desc")),
        left_num: #[verifier::truncate] (left as i32),
        sch_date: text_or_empty(entry.get("sch_date")),
    }
}

/// Appends to `out` the slot of `entry`, where the entry names a schedule.
fn push_slot(out: &mut Vec<ScheduleSlot>, entry: &JsonValue)
    ensures
        final(out).deep_view() == old(out).deep_view() + (match slot_entry(*entry) {
            Some(s) => seq![s],
            None => Seq::empty(),
        }),
{
    let slot = parse_slot(entry);
    if !slot.schedule_id.as_str().is_empty() {
        let ghost before = out.deep_view();
        out.push(slot);
        assert(out.deep_view() =~= before + seq![slot@]);
    } else {
        assert(out.deep_view() =~= out.deep_view() + Seq::<ScheduleSlotView>::empty());
    }
}

/// Appends to `out` the slots of one time of day.
fn push_group_slots(out: &mut Vec<ScheduleSlot>, group: &JsonValue)
    ensures
        final(out).deep_view() == old(out).deep_view() + slots_from(slot_entries(*group)),
{
    let ghost base = out.deep_view();
    let ghost f = |v: JsonValue| slot_entry(v);
    match group {
        JsonValue::Array(items) => {
            let mut i: usize = 0;
            assert(out.deep_view() =~= base + items@.take(0).filter_map(f));
            while i < items.len()
                invariant
                    i <= items.len(),
                    f == |v: JsonValue| slot_entry(v),
                    out.deep_view() == base + items@.take(i as int).filter_map(f),
                decreases items.len() - i,
            {
                proof {
                    items@.lemma_filter_map_take_succ(f, i as int);
                }
                push_slot(out, &items[i]);
                i += 1;
            }
            assert(items@.take(i as int) =~= items@);
        },
        JsonValue::Object(fields) => {
            let ghost vals = member_values(fields@);
            let mut i: usize = 0;
            assert(out.deep_view() =~= base + vals.take(0).filter_map(f));
            while i < fields.len()
                invariant
                    i <= fields.len(),
                    vals == member_values(fields@),
                    f == |v: JsonValue| slot_entry(v),
                    out.deep_view() == base + vals.take(i as int).filter_map(f),
                decreases fields.len() - i,
            {
                proof {
                    vals.lemma_filter_map_take_succ(f, i as int);
                }
                push_slot(out, &fields[i].1);
                i += 1;
            }
            assert(vals.take(i as int) =~= vals);
        },
        _ => {
            assert(Seq::<JsonValue>::empty().filter_map(f) =~= Seq::empty());
            assert(out.deep_view() =~= base + Seq::<ScheduleSlotView>::empty());
        },
    }
}

/// The sum of the remaining places of `slots`, wrapping at the bounds of `i32`.
pub fn sum_left(slots: &Vec<ScheduleSlot>) -> (r: i32)
    ensures
        r == total_left(slots.deep_view()),
{
    let mut total: i32 = 0;
    let mut i: usize = 0;
    assert(slots.deep_view().take(0) =~= Seq::empty());
    while i < slots.len()
        invariant
            i <= slots.len(),
            total == total_left(slots.deep_view().take(i as int)),
        decreases slots.len() - i,
    {
        proof {
            let next = slots.deep_view().take(i as int + 1);
            assert(next.drop_last() =~= slots.deep_view().take(i as int));
            assert(next.last() == slots[i as int]@);
        }
        total = total.wrapping_add(slots[i].left_num);
        i += 1;
    }
    assert(slots.deep_view().take(i as int) =~= slots.deep_view());
    total
}

/// Reads one entry of `data.doc` as a doctor, with the slots that
/// `schedules` holds under the doctor's identifier.
pub fn parse_doctor(doc: &JsonValue, schedules: &Vec<(String, JsonValue)>) -> (r: Option<
    DoctorSchedule,
>)
    ensures
        r.deep_view() == doctor_of(*doc, schedules@),
{
    let doctor_id = id_text(doc.get("doctor_id"));
    if doctor_id.as_str().is_empty() {
        return None;
    }
    let raw = match find_member(schedules, doctor_id.as_str()) {
        Some(raw) => raw,
        None => {
            return None;
        },
    };
    let mut slots: Vec<ScheduleSlot> = Vec::new();
    assert(slots.deep_view() =~= Seq::empty());
    match raw {
        JsonValue::Object(fields) => {
            match find_member(fields, "am") {
                Some(group) => {
                    push_group_slots(&mut slots, group);
                },
                None => {},
            }
            assert(slots.deep_view() =~= period_slots(fields@, "am"@));
            match find_member(fields, "pm") {
                Some(group) => {
                    push_group_slots(&mut slots, group);
                },
                None => {},
            }
            assert(slots.deep_view() =~= doctor_slots(*raw));
        },
        _ => {},
    }
    if slots.len() == 0 {
        return None;
    }
    let total = sum_left(&slots);
    let schedule_id = slots[0].schedule_id.clone();
    let time_type_desc = slots[0].time_type_desc.clone();
    Some(
        DoctorSchedule {
            doctor_id,
            doctor_name: text_or_empty(doc.get("doctor_name")),
            reg_fee: text_or_empty(doc.get("reg_fee")),
            total_left_num: total,
            his_doc_id: text_or_empty(doc.get("his_doc_id")),
            his_dep_id: text_or_empty(doc.get("his_dep_id")),
            schedules: slots,
            schedule_id,
            time_type_desc,
        },
    )
}

/// The doctors of an answer that have at least one slot, in the order of `docs`.
pub fn parse_doctors(docs: &Vec<JsonValue>, schedules: &Vec<(String, JsonValue)>) -> (r: Vec<
    DoctorSchedule,
>)
    ensures
        r.deep_view() == doctors_from(docs@, schedules@),
{
    let ghost f = |d: JsonValue| doctor_of(d, schedules@);
    let mut out: Vec<DoctorSchedule> = Vec::new();
    let mut i: usize = 0;
    assert(out.deep_view() =~= docs@.take(0).filter_map(f));
    while i < docs.len()
        invariant
            i <= docs.len(),
            f == |d: JsonValue| doctor_of(d, schedules@),
            out.deep_view() == docs@.take(i as int).filter_map(f),
        decreases docs.len() - i,
    {
        proof {
            docs@.lemma_filter_map_take_succ(f, i as int);
        }
        let ghost before = out.deep_view();
        match parse_doctor(&docs[i], schedules) {
            Some(doctor) => {
                out.push(doctor);
                assert(out.deep_view() =~= before + seq![doctor@]);
            },
            None => {
                assert(out.deep_view() =~= before + Seq::<DoctorScheduleView>::empty());
            },
        }
        i += 1;
    }
    assert(docs@.take(i as int) =~= docs@);
    out
}

/// The doctors that a successful answer yields: `data.doc` read against `data.sch`.
pub fn parse_schedule_payload(payload: &JsonValue) -> (r: Vec<DoctorSchedule>)
    ensures
        r.deep_view() == payload_doctors(*payload),
{
    let no_docs: Vec<JsonValue> = Vec::new();
    let no_schedules: Vec<(String, JsonValue)> = Vec::new();
    let data = payload.get("data");
    let docs = match data {
        Some(d) => match d.get("doc") {
            Some(JsonValue::Array(items)) => items,
            _ => &no_docs,
        },
        None => &no_docs,
    };
    let schedules = match data {
        Some(d) => match d.get("sch") {
            Some(JsonValue::Object(fields)) => fields,
            _ => &no_schedules,
        },
        None => &no_schedules,
    };
    assert(docs@ =~= doc_list_of(*payload));
    assert(schedules@ =~= schedule_map_of(*payload));
    parse_doctors(docs, schedules)
}

/// An array and an object that hold the same entries in the same order yield
/// the same slots.
pub proof fn lemma_array_and_object_agree(items: Vec<JsonValue>, fields: Vec<(String, JsonValue)>)
    requires
        items@ == member_values(fields@),
    ensures
        slots_from(slot_entries(JsonValue::Array(items))) == slots_from(
            slot_entries(JsonValue::Object(fields)),
        ),
{
}

/// What one answer of the schedule service means for the query.
#[derive(Debug)]
pub enum TokenOutcome {
    /// The answer lists a doctor with a place left: the query ends with its doctors.
    Doctors(Vec<DoctorSchedule>),
    /// The call succeeded and yields no doctor with a place left: the next
    /// token is tried, and without doctors from a later one the query ends
    /// with no schedule, which is a success.
    NoSchedule,
    /// The service says that the login has expired: the query ends at once.
    LoginExpired,
    /// The answer is an error or never came: the next token is tried, and the message is kept.
    Rejected(String),
}

pub enum TokenOutcomeView {
    Doctors(Seq<DoctorScheduleView>),
    NoSchedule,
    LoginExpired,
    Rejected(Seq<char>),
}

impl View for TokenOutcome {
    type V = TokenOutcomeView;

    open spec fn view(&self) -> TokenOutcomeView {
        match *self {
            TokenOutcome::Doctors(d) => TokenOutcomeView::Doctors(d.deep_view()),
            TokenOutcome::NoSchedule => TokenOutcomeView::NoSchedule,
            TokenOutcome::LoginExpired => TokenOutcomeView::LoginExpired,
            TokenOutcome::Rejected(m) => TokenOutcomeView::Rejected(m@),
        }
    }
}

/// The error code that the service sends when the login has expired.
pub open spec fn login_expired_code() -> Seq<char> {
    "10022"@
}

/// The first member that the answer has among the four that may carry an error's text.
pub open spec fn error_text_member(payload: JsonValue) -> Option<JsonValue> {
    if payload.member("error_msg"@) is Some {
        payload.member("error_msg"@)
    } else if payload.member("error_desc"@) is Some {
        payload.member("error_desc"@)
    } else if payload.member("msg"@) is Some {
        payload.member("msg"@)
    } else {
        payload.member("message"@)
    }
}

/// The member that carries an error's code: `error_code`, else `result_code`.
pub open spec fn error_code_member(payload: JsonValue) -> Option<JsonValue> {
    if payload.member("error_code"@) is Some {
        payload.member("error_code"@)
    } else {
        payload.member("result_code"@)
    }
}

/// The message that is kept of an answer that the service rejected.
pub open spec fn api_error_message(payload: JsonValue) -> Seq<char> {
    "schedule api error: code="@ + text_of(error_code_member(payload)) + " msg="@ + text_of(
        error_text_member(payload),
    )
}

/// Whether a doctor has a slot with a place left.
pub open spec fn has_place(doc: DoctorScheduleView) -> bool {
    exists|j: int| 0 <= j < doc.schedules.len() && (#[trigger] doc.schedules[j]).left_num > 0
}

/// Whether one of the doctors has a slot with a place left.
pub open spec fn any_place(docs: Seq<DoctorScheduleView>) -> bool {
    exists|i: int| 0 <= i < docs.len() && has_place(#[trigger] docs[i])
}

/// What a decoded answer means: a successful answer counts as the result
/// of the query where one of its doctors has a place left.
pub open spec fn payload_outcome(payload: JsonValue) -> TokenOutcomeView {
    if text_of(payload.member("result_code"@)) == "1"@ {
        if any_place(payload_doctors(payload)) {
            TokenOutcomeView::Doctors(payload_doctors(payload))
        } else {
            TokenOutcomeView::NoSchedule
        }
    } else if payload.member("error_code"@) matches Some(JsonValue::Text(code)) && code@
        == login_expired_code() {
        TokenOutcomeView::LoginExpired
    } else {
        TokenOutcomeView::Rejected(api_error_message(payload))
    }
}

/// Whether a doctor has a slot with a place left.
pub fn doctor_has_place(doc: &DoctorSchedule) -> (r: bool)
    ensures
        r == has_place(doc@),
{
    let ghost slots = doc@.schedules;
    let mut j: usize = 0;
    while j < doc.schedules.len()
        invariant
            j <= doc.schedules.len(),
            slots == doc.schedules.deep_view(),
            slots == doc@.schedules,
            forall|k: int| 0 <= k < j ==> (#[trigger] slots[k]).left_num <= 0,
        decreases doc.schedules.len() - j,
    {
        assert(slots[j as int] == doc.schedules[j as int]@);
        if doc.schedules[j].left_num > 0 {
            return true;
        }
        j += 1;
    }
    false
}

/// Whether one of the doctors has a slot with a place left.
pub fn any_doctor_has_place(docs: &Vec<DoctorSchedule>) -> (r: bool)
    ensures
        r == any_place(docs.deep_view()),
{
    let ghost view = docs.deep_view();
    let mut i: usize = 0;
    while i < docs.len()
        invariant
            i <= docs.len(),
            view == docs.deep_view(),
            forall|k: int| 0 <= k < i ==> !has_place(#[trigger] view[k]),
        decreases docs.len() - i,
    {
        assert(view[i as int] == docs[i as int]@);
        if doctor_has_place(&docs[i]) {
            return true;
        }
        i += 1;
    }
    false
}

/// The message that is kept of an answer that the service rejected.
fn describe_api_error(payload: &JsonValue) -> (r: String)
    ensures
        r@ == api_error_message(*payload),
{
    let text_member = match payload.get("error_msg") {
        Some(v) => Some(v),
        None => match payload.get("error_desc") {
            Some(v) => Some(v),
            None => match payload.get("msg") {
                Some(v) => Some(v),
                None => payload.get("message"),
            },
        },
    };
    let code_member = match payload.get("error_code") {
        Some(v) => Some(v),
        None => payload.get("result_code"),
    };
    let code = text_or_empty(code_member);
    let text = text_or_empty(text_member);
    let mut out = String::from_str("schedule api error: code=");
    out.append(code.as_str());
    out.append(" msg=");
    out.append(text.as_str());
    out
}

/// Decides what a decoded answer means for the query.
pub fn classify_schedule_payload(payload: &JsonValue) -> (r: TokenOutcome)
    ensures
        r@ == payload_outcome(*payload),
{
    let result_code = text_or_empty(payload.get("result_code"));
    if str_eq(result_code.as_str(), "1") {
        let doctors = parse_schedule_payload(payload);
        if any_doctor_has_place(&doctors) {
            TokenOutcome::Doctors(doctors)
        } else {
            TokenOutcome::NoSchedule
        }
    } else {
        let expired = match payload.get("error_code") {
            Some(JsonValue::Text(code)) => str_eq(code.as_str(), "10022"),
            _ => false,
        };
        if expired {
            TokenOutcome::LoginExpired
        } else {
            TokenOutcome::Rejected(describe_api_error(payload))
        }
    }
}

/// What came back for one access token.
#[derive(Debug)]
pub enum TokenResponse {
    /// The request did not get through; `error` says why.
    RequestFailed { error: String },
    /// The service answered with a status that is no success; `status` is its text.
    HttpFailure { code: i32, status: String },
    /// The body was no JSON document; `error` says why.
    DecodeFailed { code: i32, error: String },
    /// The decoded body.
    Payload { code: i32, payload: JsonValue },
}

/// What a response means for the query.
pub open spec fn response_outcome(response: TokenResponse) -> TokenOutcomeView {
    match response {
        TokenResponse::RequestFailed { error } => TokenOutcomeView::Rejected(
            "schedule request failed: "@ + error@,
        ),
        TokenResponse::HttpFailure { code, status } => TokenOutcomeView::Rejected(
            "schedule http "@ + status@,
        ),
        TokenResponse::DecodeFailed { code, error } => TokenOutcomeView::Rejected(
            "schedule decode failed: "@ + error@,
        ),
        TokenResponse::Payload { code, payload } => payload_outcome(payload),
    }
}

/// The status code that came with a response, where one came.
pub open spec fn response_status(response: TokenResponse) -> Option<i32> {
    match response {
        TokenResponse::RequestFailed { error } => None,
        TokenResponse::HttpFailure { code, status } => Some(code),
        TokenResponse::DecodeFailed { code, error } => Some(code),
        TokenResponse::Payload { code, payload } => Some(code),
    }
}

/// Decides what a response means for the query.
pub fn classify_response(response: &TokenResponse) -> (r: TokenOutcome)
    ensures
        r@ == response_outcome(*response),
{
    match response {
        TokenResponse::RequestFailed { error } => {
            let mut m = String::from_str("schedule request failed: ");
            m.append(error.as_str());
            TokenOutcome::Rejected(m)
        },
        TokenResponse::HttpFailure { code, status } => {
            let mut m = String::from_str("schedule http ");
            m.append(status.as_str());
            TokenOutcome::Rejected(m)
        },
        TokenResponse::DecodeFailed { code, error } => {
            let mut m = String::from_str("schedule decode failed: ");
            m.append(error.as_str());
            TokenOutcome::Rejected(m)
        },
        TokenResponse::Payload { code, payload } => classify_schedule_payload(payload),
    }
}

/// The address of the schedule of one department on one date, asked with one access token.
pub open spec fn schedule_url_of(
    unit_id: Seq<char>,
    dep_id: Seq<char>,
    date: Seq<char>,
    key: Seq<char>,
) -> Seq<char> {
    "https://gate.91160.com/guahao/v1/pc/sch/dep?unit_id="@ + unit_id + "&dep_id="@ + dep_id
        + "&date="@ + date + "&p=0&user_key="@ + key
}

/// The page that a schedule request names as its referer.
pub open spec fn schedule_referer_of(unit_id: Seq<char>, dep_id: Seq<char>) -> Seq<char> {
    "https://www.91160.com/guahao/ystep1/uid-"@ + unit_id + "/depid-"@ + dep_id + ".html"@
}

/// The address of the schedule of one department on one date, asked with one access token.
pub fn schedule_url(unit_id: &str, dep_id: &str, date: &str, key: &str) -> (r: String)
    ensures
        r@ == schedule_url_of(unit_id@, dep_id@, date@, key@),
{
    let mut out = String::from_str("https://gate.91160.com/guahao/v1/pc/sch/dep?unit_id=");
    out.append(unit_id);
    out.append("&dep_id=");
    out.append(dep_id);
    out.append("&date=");
    out.append(date);
    out.append("&p=0&user_key=");
    out.append(key);
    out
}

/// The page that a schedule request names as its referer.
pub fn schedule_referer(unit_id: &str, dep_id: &str) -> (r: String)
    ensures
        r@ == schedule_referer_of(unit_id@, dep_id@),
{
    let mut out = String::from_str("https://www.91160.com/guahao/ystep1/uid-");
    out.append(unit_id);
    out.append("/depid-");
    out.append(dep_id);
    out.append(".html");
    out
}

/// A schedule query in progress: the access tokens of the session are tried
/// one after another, `next` being the one whose answer is awaited, and
/// `answered` saying whether a call has succeeded so far.
#[derive(Debug)]
pub struct ScheduleQuery {
    pub unit_id: String,
    pub dep_id: String,
    pub date: String,
    pub keys: Vec<String>,
    pub next: usize,
    pub answered: bool,
    pub last_error: String,
    pub last_status_code: i32,
}

pub struct ScheduleQueryView {
    pub unit_id: Seq<char>,
    pub dep_id: Seq<char>,
    pub date: Seq<char>,
    pub keys: Seq<Seq<char>>,
    pub next: int,
    pub answered: bool,
    pub last_error: Seq<char>,
    pub last_status_code: i32,
}

impl View for ScheduleQuery {
    type V = ScheduleQueryView;

    open spec fn view(&self) -> ScheduleQueryView {
        ScheduleQueryView {
            unit_id: self.unit_id@,
            dep_id: self.dep_id@,
            date: self.date@,
            keys: self.keys.deep_view(),
            next: self.next as int,
            answered: self.answered,
            last_error: self.last_error@,
            last_status_code: self.last_status_code,
        }
    }
}

/// What the caller does next: send a request, or take the query's result.
#[derive(Debug)]
pub enum ScheduleStep {
    Request { url: String, referer: String },
    Found(Vec<DoctorSchedule>),
    Failed(AppError),
}

pub enum ScheduleStepView {
    Request { url: Seq<char>, referer: Seq<char> },
    Found(Seq<DoctorScheduleView>),
    Failed(AppErrorView),
}

impl View for ScheduleStep {
    type V = ScheduleStepView;

    open spec fn view(&self) -> ScheduleStepView {
        match *self {
            ScheduleStep::Request { url, referer } => ScheduleStepView::Request {
                url: url@,
                referer: referer@,
            },
            ScheduleStep::Found(d) => ScheduleStepView::Found(d.deep_view()),
            ScheduleStep::Failed(e) => ScheduleStepView::Failed(e@),
        }
    }
}

/// The message that the query keeps when the service says that the login has expired.
pub open spec fn login_expired_note() -> Seq<char> {
    "login expired or insufficient permissions (error_code=10022)"@
}

impl ScheduleQueryView {
    /// The query as it starts: no token tried, nothing recorded.
    pub open spec fn fresh(
        unit_id: Seq<char>,
        dep_id: Seq<char>,
        date: Seq<char>,
        keys: Seq<Seq<char>>,
    ) -> ScheduleQueryView {
        ScheduleQueryView {
            unit_id,
            dep_id,
            date,
            keys,
            next: 0,
            answered: false,
            last_error: Seq::empty(),
            last_status_code: 0,
        }
    }

    /// The query after a call has succeeded without a doctor with a place left.
    pub open spec fn with_answer(self) -> ScheduleQueryView {
        ScheduleQueryView { answered: true, ..self }
    }

    /// The query with another message recorded.
    pub open spec fn with_error(self, message: Seq<char>) -> ScheduleQueryView {
        ScheduleQueryView { last_error: message, ..self }
    }

    /// The query after the token that was awaited has been given up.
    pub open spec fn past_token(self) -> ScheduleQueryView {
        ScheduleQueryView {
            next: if self.next < self.keys.len() {
                self.next + 1
            } else {
                self.next
            },
            ..self
        }
    }

    /// The query with the status code of a response recorded, where one came.
    pub open spec fn with_status(self, status: Option<i32>) -> ScheduleQueryView {
        match status {
            Some(code) => ScheduleQueryView { last_status_code: code, ..self },
            None => self,
        }
    }

    /// The message of a query that has no token left to try.
    pub open spec fn final_error(self) -> Seq<char> {
        if self.last_error.len() == 0 {
            "schedule query failed"@
        } else {
            self.last_error
        }
    }

    /// The query turns to the token that `next` names: a request for it.
    /// Where every token has been tried, the query ends: with no schedule,
    /// which is a success, where a call has succeeded; with the failure that
    /// was recorded last where none has.
    pub open spec fn settle(self) -> (ScheduleQueryView, ScheduleStepView) {
        if self.next < self.keys.len() {
            (
                self,
                ScheduleStepView::Request {
                    url: schedule_url_of(self.unit_id, self.dep_id, self.date, self.keys[self.next]),
                    referer: schedule_referer_of(self.unit_id, self.dep_id),
                },
            )
        } else if self.answered {
            (self.with_error(Seq::empty()), ScheduleStepView::Found(Seq::empty()))
        } else {
            (
                self.with_error(self.final_error()),
                ScheduleStepView::Failed(AppErrorView::ApiError(self.final_error())),
            )
        }
    }

    /// The query takes the outcome of the awaited token. Doctors and an
    /// expired login end it at once; anything else moves it to the next token.
    pub open spec fn respond(self, outcome: TokenOutcomeView, status: Option<i32>) -> (
        ScheduleQueryView,
        ScheduleStepView,
    ) {
        let q = self.with_status(status);
        match outcome {
            TokenOutcomeView::Doctors(d) => (
                q.with_error(Seq::empty()),
                ScheduleStepView::Found(d),
            ),
            TokenOutcomeView::NoSchedule => q.with_answer().past_token().settle(),
            TokenOutcomeView::LoginExpired => (
                q.with_error(login_expired_note()),
                ScheduleStepView::Failed(AppErrorView::LoginRequired("error_code=10022"@)),
            ),
            TokenOutcomeView::Rejected(m) => q.with_error(m).past_token().settle(),
        }
    }
}

impl ScheduleQuery {
    /// Starts a query for one department on one date. An empty `date` stands
    /// for `today`. `keys` are the access tokens of the session: without any
    /// the query fails at once, since nobody is logged in.
    pub fn begin(unit_id: &str, dep_id: &str, date: &str, today: &str, keys: Vec<String>) -> (r: (
        ScheduleQuery,
        ScheduleStep,
    ))
        ensures
            ({
                let day = if date@.len() == 0 {
                    today@
                } else {
                    date@
                };
                let fresh = ScheduleQueryView::fresh(unit_id@, dep_id@, day, keys.deep_view());
                if keys.len() == 0 {
                    &&& r.0@ == fresh.with_error("missing access_hash"@)
                    &&& r.1@ == ScheduleStepView::Failed(
                        AppErrorView::LoginRequired("missing access_hash"@),
                    )
                } else {
                    (r.0@, r.1@) == fresh.settle()
                }
            }),
    {
        let day = if date.is_empty() {
            today
        } else {
            date
        };
        let mut query = ScheduleQuery {
            unit_id: String::from_str(unit_id),
            dep_id: String::from_str(dep_id),
            date: String::from_str(day),
            keys,
            next: 0,
            answered: false,
            last_error: String::new(),
            last_status_code: 0,
        };
        if query.keys.len() == 0 {
            query.last_error = String::from_str("missing access_hash");
            let step = ScheduleStep::Failed(
                AppError::LoginRequired(String::from_str("missing access_hash")),
            );
            (query, step)
        } else {
            let step = query.settle();
            (query, step)
        }
    }

    /// Turns to the token that `next` names.
    fn settle(&mut self) -> (step: ScheduleStep)
        ensures
            (final(self)@, step@) == old(self)@.settle(),
    {
        if self.next < self.keys.len() {
            let url = schedule_url(
                self.unit_id.as_str(),
                self.dep_id.as_str(),
                self.date.as_str(),
                self.keys[self.next].as_str(),
            );
            let referer = schedule_referer(self.unit_id.as_str(), self.dep_id.as_str());
            ScheduleStep::Request { url, referer }
        } else if self.answered {
            self.last_error = String::new();
            let none: Vec<DoctorSchedule> = Vec::new();
            assert(none.deep_view() =~= Seq::empty());
            ScheduleStep::Found(none)
        } else {
            if self.last_error.as_str().is_empty() {
                self.last_error = String::from_str("schedule query failed");
            }
            ScheduleStep::Failed(AppError::ApiError(self.last_error.clone()))
        }
    }

    /// Takes the response to the request that was last handed out, and says
    /// what to do next.
    pub fn on_response(&mut self, response: TokenResponse) -> (step: ScheduleStep)
        ensures
            (final(self)@, step@) == old(self)@.respond(
                response_outcome(response),
                response_status(response),
            ),
    {
        match &response {
            TokenResponse::RequestFailed { error } => {},
            TokenResponse::HttpFailure { code, status } => {
                self.last_status_code = *code;
            },
            TokenResponse::DecodeFailed { code, error } => {
                self.last_status_code = *code;
            },
            TokenResponse::Payload { code, payload } => {
                self.last_status_code = *code;
            },
        }
        match classify_response(&response) {
            TokenOutcome::Doctors(doctors) => {
                self.last_error = String::new();
                ScheduleStep::Found(doctors)
            },
            TokenOutcome::NoSchedule => {
                self.answered = true;
                if self.next < self.keys.len() {
                    self.next = self.next + 1;
                }
                self.settle()
            },
            TokenOutcome::LoginExpired => {
                self.last_error = String::from_str(
                    "login expired or insufficient permissions (error_code=10022)",
                );
                ScheduleStep::Failed(AppError::LoginRequired(String::from_str("error_code=10022")))
            },
            TokenOutcome::Rejected(message) => {
                self.last_error = message;
                if self.next < self.keys.len() {
                    self.next = self.next + 1;
                }
                self.settle()
            },
        }
    }
}

/// An outcome that leaves the query open: the next token is tried.
pub open spec fn inconclusive(outcome: TokenOutcomeView) -> bool {
    outcome is NoSchedule || outcome is Rejected
}

/// The query takes `outcomes` one after another, for as long as it asks for
/// another request.
pub open spec fn feed(q: ScheduleQueryView, outcomes: Seq<TokenOutcomeView>) -> (
    ScheduleQueryView,
    ScheduleStepView,
)
    decreases outcomes.len(),
{
    if outcomes.len() == 0 {
        q.settle()
    } else {
        let after = q.respond(outcomes[0], None);
        if after.1 is Request {
            feed(after.0, outcomes.drop_first())
        } else {
            after
        }
    }
}

/// The first conclusive answer decides the query, whatever later tokens
/// would have answered: the doctors of the first answer that has a doctor
/// with a place left are returned, and an expired login is an
/// authentication error.
pub proof fn lemma_first_conclusive_answer_decides(
    q: ScheduleQueryView,
    outcomes: Seq<TokenOutcomeView>,
    k: int,
)
    requires
        0 <= q.next,
        0 <= k < outcomes.len(),
        q.next + k < q.keys.len(),
        forall|j: int| 0 <= j < k ==> inconclusive(#[trigger] outcomes[j]),
        !inconclusive(outcomes[k]),
    ensures
        feed(q, outcomes).1 == (match outcomes[k] {
            TokenOutcomeView::Doctors(d) => ScheduleStepView::Found(d),
            _ => ScheduleStepView::Failed(AppErrorView::LoginRequired("error_code=10022"@)),
        }),
    decreases k,
{
    if k > 0 {
        let after = q.respond(outcomes[0], None);
        assert(inconclusive(outcomes[0]));
        assert(after.1 is Request);
        let rest = outcomes.drop_first();
        assert forall|j: int| 0 <= j < k - 1 implies inconclusive(#[trigger] rest[j]) by {
            assert(rest[j] == outcomes[j + 1]);
        }
        assert(rest[k - 1] == outcomes[k]);
        lemma_first_conclusive_answer_decides(after.0, rest, k - 1);
    }
}

/// One of the outcomes is that of a call that succeeded without a doctor
/// with a place left.
pub open spec fn some_call_succeeded(outcomes: Seq<TokenOutcomeView>) -> bool {
    exists|j: int| 0 <= j < outcomes.len() && (#[trigger] outcomes[j]) is NoSchedule
}

/// No doctors on a successful call is no schedule that day, not an error:
/// where every token was tried, none gave doctors with a place left or
/// reported an expired login, and at least one call succeeded, the query
/// ends with an empty list and no error recorded.
pub proof fn lemma_no_doctors_is_an_empty_success(
    q: ScheduleQueryView,
    outcomes: Seq<TokenOutcomeView>,
)
    requires
        0 <= q.next <= q.keys.len(),
        outcomes.len() == q.keys.len() - q.next,
        forall|j: int| 0 <= j < outcomes.len() ==> inconclusive(#[trigger] outcomes[j]),
        q.answered || some_call_succeeded(outcomes),
    ensures
        feed(q, outcomes).1 == ScheduleStepView::Found(Seq::empty()),
        feed(q, outcomes).0.last_error == Seq::<char>::empty(),
    decreases outcomes.len(),
{
    if outcomes.len() > 0 {
        let after = q.respond(outcomes[0], None);
        assert(inconclusive(outcomes[0]));
        let rest = outcomes.drop_first();
        assert forall|j: int| 0 <= j < rest.len() implies inconclusive(#[trigger] rest[j]) by {
            assert(rest[j] == outcomes[j + 1]);
        }
        if !after.0.answered {
            let j = choose|j: int| 0 <= j < outcomes.len() && (#[trigger] outcomes[j]) is NoSchedule;
            assert(j > 0);
            assert(rest[j - 1] == outcomes[j]);
        }
        if after.1 is Request {
            lemma_no_doctors_is_an_empty_success(after.0, rest);
        }
    }
}

/// Where every token was tried and no call succeeded, the query fails with
/// an error of the service, never with an authentication error.
pub proof fn lemma_exhausted_query_fails(q: ScheduleQueryView, outcomes: Seq<TokenOutcomeView>)
    requires
        0 <= q.next <= q.keys.len(),
        outcomes.len() == q.keys.len() - q.next,
        forall|j: int| 0 <= j < outcomes.len() ==> (#[trigger] outcomes[j]) is Rejected,
        !q.answered,
    ensures
        feed(q, outcomes).1 is Failed,
        feed(q, outcomes).1->Failed_0 is ApiError,
        feed(q, outcomes).1->Failed_0->ApiError_0.len() > 0,
    decreases outcomes.len(),
{
    reveal_strlit("schedule query failed");
    if outcomes.len() > 0 {
        let after = q.respond(outcomes[0], None);
        assert(outcomes[0] is Rejected);
        let rest = outcomes.drop_first();
        assert forall|j: int| 0 <= j < rest.len() implies (#[trigger] rest[j]) is Rejected by {
            assert(rest[j] == outcomes[j + 1]);
        }
        if after.1 is Request {
            lemma_exhausted_query_fails(after.0, rest);
        }
    }
}

} // verus!
