//! The acquisition engine as a state machine.
//!
//! The engine performs no work of its own. It is handed what happened (an
//! event) and says what to do next (an action) and what to write to the log.
//! Whoever runs it sends the requests, sleeps, watches for the stop signal,
//! and hands back what came of each action.

use vstd::prelude::*;
use vstd::string::StringExecFns;
use crate::errors::{AppError, AppErrorView};
use crate::grabber::{
    is_too_fast_message, issue_time, pick_time_slot, picked_slot, random_backoff_ms,
    random_jitter_ms, resolve_address, resolved_address, submit_throttle_wait, throttle_wait_of,
    too_fast,
    usable_address, validation_error, ResolvedAddress, ResolvedAddressView,
    DATE_QUERY_JITTER_MAX_MS, DEFAULT_RETRY_INTERVAL_MS, SUBMIT_BACKOFF_MAX_MS,
    SUBMIT_BACKOFF_MIN_MS,
};
use crate::text::{
    contains_string, decimal, decimal_of, decimal_u64, digits_of, join, joined, str_eq,
};
use crate::types::{
    DoctorSchedule, DoctorScheduleView, GrabConfig, GrabConfigView, GrabResult, GrabResultView,
    GrabSuccess, GrabSuccessView, ScheduleSlot, ScheduleSlotView, SubmitOrderResult,
    SubmitOrderResultView, TicketDetail, TicketDetailView, TimeSlot, TimeSlotView,
};

verus! {

/// One message for the log, with its level: `info`, `warn`, `error` or `success`.
#[derive(Debug)]
pub struct LogLine {
    pub level: String,
    pub message: String,
}

pub struct LogLineView {
    pub level: Seq<char>,
    pub message: Seq<char>,
}

impl View for LogLine {
    type V = LogLineView;

    open spec fn view(&self) -> LogLineView {
        LogLineView { level: self.level@, message: self.message@ }
    }
}

impl DeepView for LogLine {
    type V = LogLineView;

    open spec fn deep_view(&self) -> LogLineView {
        self@
    }
}

/// A message of level `info`.
pub open spec fn info_line(message: Seq<char>) -> LogLineView {
    LogLineView { level: "info"@, message }
}

/// A message of level `warn`.
pub open spec fn warn_line(message: Seq<char>) -> LogLineView {
    LogLineView { level: "warn"@, message }
}

/// A message of level `error`.
pub open spec fn error_line(message: Seq<char>) -> LogLineView {
    LogLineView { level: "error"@, message }
}

/// A message of level `success`.
pub open spec fn success_line(message: Seq<char>) -> LogLineView {
    LogLineView { level: "success"@, message }
}

/// Whether the job wants this doctor: it names no doctors, or names this one.
pub open spec fn doctor_wanted(c: GrabConfigView, doc: DoctorScheduleView) -> bool {
    c.doctor_ids.len() == 0 || c.doctor_ids.contains(doc.doctor_id)
}

/// Whether the job wants this time of day: one of those it names, or, where
/// it names none, morning or afternoon.
pub open spec fn time_wanted(c: GrabConfigView, slot: ScheduleSlotView) -> bool {
    if c.time_types.len() == 0 {
        slot.time_type == "am"@ || slot.time_type == "pm"@
    } else {
        c.time_types.contains(slot.time_type)
    }
}

/// Whether a slot can be booked: it names a schedule and has places left.
pub open spec fn bookable(slot: ScheduleSlotView) -> bool {
    slot.left_num > 0 && slot.schedule_id.len() > 0
}

/// Whether the engine may take this slot of this doctor.
pub open spec fn eligible(c: GrabConfigView, doc: DoctorScheduleView, slot: ScheduleSlotView) -> bool {
    doctor_wanted(c, doc) && time_wanted(c, slot) && bookable(slot)
}

/// The first eligible slot at or after slot `s` of doctor `d`, doctors and
/// slots taken in the order of the answer.
pub open spec fn next_candidate(c: GrabConfigView, docs: Seq<DoctorScheduleView>, d: int, s: int) -> Option<
    (int, int),
>
    decreases docs.len() - d, (if 0 <= d < docs.len() {
        docs[d].schedules.len() - s
    } else {
        0
    }),
{
    if d < 0 || s < 0 || d >= docs.len() {
        None
    } else if s >= docs[d].schedules.len() {
        next_candidate(c, docs, d + 1, 0)
    } else if eligible(c, docs[d], docs[d].schedules[s]) {
        Some((d, s))
    } else {
        next_candidate(c, docs, d, s + 1)
    }
}

/// Whether the engine may take this slot of this doctor.
pub fn slot_is_eligible(config: &GrabConfig, doc: &DoctorSchedule, slot: &ScheduleSlot) -> (r: bool)
    ensures
        r == eligible(config@, doc@, slot@),
{
    if config.doctor_ids.len() > 0 && !contains_string(&config.doctor_ids, doc.doctor_id.as_str()) {
        return false;
    }
    let time_ok = if config.time_types.len() == 0 {
        str_eq(slot.time_type.as_str(), "am") || str_eq(slot.time_type.as_str(), "pm")
    } else {
        contains_string(&config.time_types, slot.time_type.as_str())
    };
    time_ok && slot.left_num > 0 && !slot.schedule_id.as_str().is_empty()
}

/// The first eligible slot at or after slot `s` of doctor `d`.
pub fn find_candidate(config: &GrabConfig, docs: &Vec<DoctorSchedule>, d: usize, s: usize) -> (r:
    Option<(usize, usize)>)
    ensures
        match r {
            Some((i, j)) => {
                &&& next_candidate(config@, docs.deep_view(), d as int, s as int) == Some(
                    (i as int, j as int),
                )
                &&& i < docs.len()
                &&& j < docs[i as int].schedules.len()
                &&& eligible(config@, docs[i as int]@, docs[i as int].schedules[j as int]@)
            },
            None => next_candidate(config@, docs.deep_view(), d as int, s as int) is None,
        },
{
    let ghost view = docs.deep_view();
    let mut i = d;
    let mut j = s;
    while i < docs.len()
        invariant
            view == docs.deep_view(),
            next_candidate(config@, view, d as int, s as int) == next_candidate(
                config@,
                view,
                i as int,
                j as int,
            ),
        decreases docs.len() - i, (if i < docs.len() {
            docs[i as int].schedules.len() - j
        } else {
            0
        }),
    {
        assert(view[i as int] == docs[i as int]@);
        assert(view[i as int].schedules.len() == docs[i as int].schedules.len());
        if j >= docs[i].schedules.len() {
            i += 1;
            j = 0;
        } else {
            assert(view[i as int].schedules[j as int] == docs[i as int].schedules[j as int]@);
            if slot_is_eligible(config, &docs[i], &docs[i].schedules[j]) {
                return Some((i, j));
            }
            j += 1;
        }
    }
    None
}

/// The fields of a submission, each with its name.
pub open spec fn submit_params_of(
    c: GrabConfigView,
    doc: DoctorScheduleView,
    slot: ScheduleSlotView,
    time: TimeSlotView,
    address: ResolvedAddressView,
    d: TicketDetailView,
) -> Seq<(Seq<char>, Seq<char>)> {
    seq![
        ("unit_id"@, c.unit_id),
        ("dep_id"@, c.dep_id),
        ("schedule_id"@, slot.schedule_id),
        ("time_type"@, slot.time_type),
        ("doctor_id"@, doc.doctor_id),
        ("his_doc_id"@, doc.his_doc_id),
        ("his_dep_id"@, doc.his_dep_id),
        ("detlid"@, time.value),
        ("member_id"@, c.member_id),
        ("addressId"@, address.address_id),
        ("address"@, address.address_text),
        ("sch_data"@, d.sch_data),
        ("level_code"@, d.level_code),
        ("detlid_realtime"@, d.detlid_realtime),
        ("sch_date"@, d.sch_date),
        ("hisMemId"@, d.his_mem_id),
        ("order_no"@, d.order_no),
        ("disease_input"@, d.disease_input),
        ("disease_content"@, d.disease_content),
        ("is_hot"@, d.is_hot),
    ]
}

/// One field of a submission.
fn param(name: &str, value: &String) -> (r: (String, String))
    ensures
        r.deep_view() == (name@, value@),
{
    (String::from_str(name), value.clone())
}

/// The fields of a submission, each with its name.
pub fn build_submit_params(
    config: &GrabConfig,
    doc: &DoctorSchedule,
    slot: &ScheduleSlot,
    time: &TimeSlot,
    address: &ResolvedAddress,
    detail: &TicketDetail,
) -> (r: Vec<(String, String)>)
    ensures
        r.deep_view() == submit_params_of(config@, doc@, slot@, time@, address@, detail@),
{
    let mut out: Vec<(String, String)> = Vec::new();
    out.push(param("unit_id", &config.unit_id));
    out.push(param("dep_id", &config.dep_id));
    out.push(param("schedule_id", &slot.schedule_id));
    out.push(param("time_type", &slot.time_type));
    out.push(param("doctor_id", &doc.doctor_id));
    out.push(param("his_doc_id", &doc.his_doc_id));
    out.push(param("his_dep_id", &doc.his_dep_id));
    out.push(param("detlid", &time.value));
    out.push(param("member_id", &config.member_id));
    out.push(param("addressId", &address.address_id));
    out.push(param("address", &address.address_text));
    out.push(param("sch_data", &detail.sch_data));
    out.push(param("level_code", &detail.level_code));
    out.push(param("detlid_realtime", &detail.detlid_realtime));
    out.push(param("sch_date", &detail.sch_date));
    out.push(param("hisMemId", &detail.his_mem_id));
    out.push(param("order_no", &detail.order_no));
    out.push(param("disease_input", &detail.disease_input));
    out.push(param("disease_content", &detail.disease_content));
    out.push(param("is_hot", &detail.is_hot));
    assert(out.deep_view() =~= submit_params_of(
        config@,
        doc@,
        slot@,
        time@,
        address@,
        detail@,
    ));
    out
}

/// Where a run stands: what the engine waits for.
#[derive(Debug, Clone, Copy, PartialEq, Eq, Structural)]
pub enum Phase {
    /// Nothing has happened yet: the engine waits for `Start`.
    Created,
    /// The start time is awaited: the engine waits for `Armed`.
    Arming,
    /// The schedule of a date was asked for.
    Querying,
    /// The booking page of a slot was asked for.
    Detailing,
    /// A submission is under way.
    Submitting,
    /// The site said that submissions come too fast: the engine pauses.
    BackingOff,
    /// An attempt found nothing: the engine pauses before the next.
    Resting,
    /// The run is over.
    Finished,
}

/// What the runner does next.
#[derive(Debug)]
pub enum Action {
    /// Wait until the start time of the job, then hand in `Armed`.
    WaitForStart { start_time: String, use_server_time: bool },
    /// Pause for `jitter_ms`, ask for the schedule of `date`, and hand in what came.
    QuerySchedule { unit_id: String, dep_id: String, date: String, jitter_ms: u64 },
    /// Fetch the booking page of a slot, and hand in what it holds.
    FetchDetail { unit_id: String, dep_id: String, schedule_id: String, member_id: String },
    /// Pause for `wait_ms`, submit `params`, and hand in the site's answer.
    Submit { params: Vec<(String, String)>, use_proxy: bool, wait_ms: u64 },
    /// Pause for `ms`, then hand in `Slept`.
    Sleep { ms: u64 },
    /// The run is over: this is its result.
    Finish(GrabResult),
}

pub enum ActionView {
    WaitForStart { start_time: Seq<char>, use_server_time: bool },
    QuerySchedule { unit_id: Seq<char>, dep_id: Seq<char>, date: Seq<char>, jitter_ms: u64 },
    FetchDetail {
        unit_id: Seq<char>,
        dep_id: Seq<char>,
        schedule_id: Seq<char>,
        member_id: Seq<char>,
    },
    Submit { params: Seq<(Seq<char>, Seq<char>)>, use_proxy: bool, wait_ms: u64 },
    Sleep { ms: u64 },
    Finish(GrabResultView),
}

impl View for Action {
    type V = ActionView;

    open spec fn view(&self) -> ActionView {
        match *self {
            Action::WaitForStart { start_time, use_server_time } => ActionView::WaitForStart {
                start_time: start_time@,
                use_server_time,
            },
            Action::QuerySchedule { unit_id, dep_id, date, jitter_ms } => ActionView::QuerySchedule {
                unit_id: unit_id@,
                dep_id: dep_id@,
                date: date@,
                jitter_ms,
            },
            Action::FetchDetail { unit_id, dep_id, schedule_id, member_id } => ActionView::FetchDetail {
                unit_id: unit_id@,
                dep_id: dep_id@,
                schedule_id: schedule_id@,
                member_id: member_id@,
            },
            Action::Submit { params, use_proxy, wait_ms } => ActionView::Submit {
                params: params.deep_view(),
                use_proxy,
                wait_ms,
            },
            Action::Sleep { ms } => ActionView::Sleep { ms },
            Action::Finish(result) => ActionView::Finish(result@),
        }
    }
}

/// What the engine answers to an event: lines for the log, then the next action.
#[derive(Debug)]
pub struct Step {
    pub logs: Vec<LogLine>,
    pub action: Action,
}

pub struct StepView {
    pub logs: Seq<LogLineView>,
    pub action: ActionView,
}

impl View for Step {
    type V = StepView;

    open spec fn view(&self) -> StepView {
        StepView { logs: self.logs.deep_view(), action: self.action@ }
    }
}

/// What happened since the last action.
#[derive(Debug)]
pub enum Event {
    /// The run begins.
    Start,
    /// The start time has come.
    Armed,
    /// The schedule of the date that was asked for.
    Schedule(Vec<DoctorSchedule>),
    /// The schedule could not be had.
    ScheduleFailed(AppError),
    /// The booking page that was asked for, or `None` where it could not be
    /// had, and the runner's clock in milliseconds.
    Detail { detail: Option<TicketDetail>, now_ms: u64 },
    /// The site's answer to the submission.
    Submitted(SubmitOrderResult),
    /// The submission did not get through; the text says why.
    SubmitFailed(String),
    /// The pause is over.
    Slept,
    /// The stop signal was given.
    Cancelled,
}

pub enum EventView {
    Start,
    Armed,
    Schedule(Seq<DoctorScheduleView>),
    ScheduleFailed(AppErrorView),
    Detail { detail: Option<TicketDetailView>, now_ms: u64 },
    Submitted(SubmitOrderResultView),
    SubmitFailed(Seq<char>),
    Slept,
    Cancelled,
}

impl View for Event {
    type V = EventView;

    open spec fn view(&self) -> EventView {
        match *self {
            Event::Start => EventView::Start,
            Event::Armed => EventView::Armed,
            Event::Schedule(docs) => EventView::Schedule(docs.deep_view()),
            Event::ScheduleFailed(e) => EventView::ScheduleFailed(e@),
            Event::Detail { detail, now_ms } => EventView::Detail {
                detail: detail.deep_view(),
                now_ms,
            },
            Event::Submitted(r) => EventView::Submitted(r@),
            Event::SubmitFailed(e) => EventView::SubmitFailed(e@),
            Event::Slept => EventView::Slept,
            Event::Cancelled => EventView::Cancelled,
        }
    }
}

/// The engine of one run.
#[derive(Debug)]
pub struct Engine {
    config: GrabConfig,
    phase: Phase,
    attempt: u64,
    date_index: usize,
    docs: Vec<DoctorSchedule>,
    doc_index: usize,
    slot_index: usize,
    chosen_time: String,
    last_submit_ms: Option<u128>,
}

/// The engine as contracts see it: the job, the phase, the number of the
/// attempt, the date in hand, its schedule, the slot in hand, the time that
/// was chosen for it, and the moment of the last submission.
pub struct EngineView {
    pub config: GrabConfigView,
    pub phase: Phase,
    pub attempt: int,
    pub date_index: int,
    pub docs: Seq<DoctorScheduleView>,
    pub doc_index: int,
    pub slot_index: int,
    pub chosen_time: Seq<char>,
    pub last_submit_ms: Option<u128>,
}

impl View for Engine {
    type V = EngineView;

    closed spec fn view(&self) -> EngineView {
        EngineView {
            config: self.config@,
            phase: self.phase,
            attempt: self.attempt as int,
            date_index: self.date_index as int,
            docs: self.docs.deep_view(),
            doc_index: self.doc_index as int,
            slot_index: self.slot_index as int,
            chosen_time: self.chosen_time@,
            last_submit_ms: self.last_submit_ms,
        }
    }
}

/// A name for the log and the result: the identifier where no name is given.
pub open spec fn name_or_id(name: Seq<char>, id: Seq<char>) -> Seq<char> {
    if name.len() == 0 {
        id
    } else {
        name
    }
}

impl EngineView {
    /// The engine of a run that has not begun, in a process whose last
    /// submission, if there was one, went out at `last_submit_ms`.
    pub open spec fn created_after(config: GrabConfigView, last_submit_ms: Option<u128>) -> EngineView {
        EngineView {
            config,
            phase: Phase::Created,
            attempt: 0,
            date_index: 0,
            docs: Seq::empty(),
            doc_index: 0,
            slot_index: 0,
            chosen_time: Seq::empty(),
            last_submit_ms,
        }
    }

    /// The engine of a run that has not begun, in a process that has not submitted yet.
    pub open spec fn created(config: GrabConfigView) -> EngineView {
        Self::created_after(config, None)
    }

    /// The slot in hand exists.
    pub open spec fn has_slot(self) -> bool {
        0 <= self.doc_index < self.docs.len() && 0 <= self.slot_index
            < self.docs[self.doc_index].schedules.len()
    }

    /// The doctor of the slot in hand.
    pub open spec fn doctor(self) -> DoctorScheduleView {
        self.docs[self.doc_index]
    }

    /// The slot in hand.
    pub open spec fn slot(self) -> ScheduleSlotView {
        self.docs[self.doc_index].schedules[self.slot_index]
    }

    /// The date in hand.
    pub open spec fn date(self) -> Seq<char> {
        self.config.target_dates[self.date_index]
    }

    /// The counters are in range.
    pub open spec fn bounded(self) -> bool {
        &&& 0 <= self.attempt <= u64::MAX
        &&& 0 <= self.date_index <= self.config.target_dates.len()
        &&& 0 <= self.doc_index
        &&& 0 <= self.slot_index
    }

    /// What holds of every engine: the counters are in range, a date is in
    /// hand while its schedule is asked for, and while a slot's page is
    /// fetched, the slot is submitted or the engine backs off, the slot in
    /// hand is an eligible one.
    pub open spec fn wf(self) -> bool {
        &&& self.bounded()
        &&& (self.phase is Querying ==> self.date_index < self.config.target_dates.len())
        &&& (self.phase is Detailing || self.phase is Submitting || self.phase is BackingOff ==> {
            &&& self.date_index < self.config.target_dates.len()
            &&& self.has_slot()
            &&& eligible(self.config, self.doctor(), self.slot())
        })
    }

    /// The run ends with this result.
    pub open spec fn stop(
        self,
        logs: Seq<LogLineView>,
        success: bool,
        message: Seq<char>,
        detail: Option<GrabSuccessView>,
    ) -> (EngineView, StepView) {
        (
            EngineView { phase: Phase::Finished, ..self },
            StepView {
                logs,
                action: ActionView::Finish(GrabResultView { success, message, detail }),
            },
        )
    }

    /// The pause between two attempts.
    pub open spec fn retry_interval(self) -> u64 {
        if self.config.retry_interval_ms == 0 {
            DEFAULT_RETRY_INTERVAL_MS
        } else {
            self.config.retry_interval_ms
        }
    }

    /// An attempt has gone through every date: the run ends where the job's
    /// bound on attempts is reached, else the engine pauses.
    pub open spec fn end_attempt(self, logs: Seq<LogLineView>) -> (EngineView, StepView) {
        if self.config.max_retries > 0 && self.attempt >= self.config.max_retries {
            self.stop(
                logs.push(
                    warn_line(
                        "max retries reached ("@ + decimal_of(self.config.max_retries as int)
                            + ")"@,
                    ),
                ),
                false,
                "max retries reached"@,
                None,
            )
        } else {
            (
                EngineView { phase: Phase::Resting, ..self },
                StepView { logs, action: ActionView::Sleep { ms: self.retry_interval() } },
            )
        }
    }

    /// The engine turns to the date in hand: its schedule is asked for, or,
    /// where the dates are used up, the attempt ends.
    pub open spec fn next_date(self, logs: Seq<LogLineView>, jitter_ms: u64) -> (
        EngineView,
        StepView,
    ) {
        if 0 <= self.date_index < self.config.target_dates.len() {
            (
                EngineView { phase: Phase::Querying, ..self },
                StepView {
                    logs: logs.push(info_line("schedule query: "@ + self.date())),
                    action: ActionView::QuerySchedule {
                        unit_id: self.config.unit_id,
                        dep_id: self.config.dep_id,
                        date: self.date(),
                        jitter_ms,
                    },
                },
            )
        } else {
            self.end_attempt(logs)
        }
    }

    /// The number of the attempt after this one.
    pub open spec fn next_attempt(self) -> int {
        if self.attempt < u64::MAX {
            self.attempt + 1
        } else {
            self.attempt
        }
    }

    /// A new attempt begins with the first date.
    pub open spec fn begin_attempt(self, logs: Seq<LogLineView>, jitter_ms: u64) -> (
        EngineView,
        StepView,
    ) {
        EngineView { attempt: self.next_attempt(), date_index: 0, ..self }.next_date(
            logs.push(info_line("attempt "@ + digits_of(self.next_attempt() as nat))),
            jitter_ms,
        )
    }

    /// The line that announces a slot.
    pub open spec fn found_line(doc: DoctorScheduleView, slot: ScheduleSlotView) -> LogLineView {
        success_line(
            "found slot: "@ + doc.doctor_name + " - "@ + slot.time_type_desc + " (left "@
                + decimal_of(slot.left_num as int) + ")"@,
        )
    }

    /// The engine looks for an eligible slot of the date in hand, from the
    /// slot in hand on: the page of the first is fetched; without one the
    /// engine turns to the next date.
    pub open spec fn seek(self, logs: Seq<LogLineView>, jitter_ms: u64) -> (EngineView, StepView) {
        match next_candidate(self.config, self.docs, self.doc_index, self.slot_index) {
            Some((d, s)) => (
                EngineView { phase: Phase::Detailing, doc_index: d, slot_index: s, ..self },
                StepView {
                    logs: logs.push(Self::found_line(self.docs[d], self.docs[d].schedules[s])),
                    action: ActionView::FetchDetail {
                        unit_id: self.config.unit_id,
                        dep_id: self.config.dep_id,
                        schedule_id: self.docs[d].schedules[s].schedule_id,
                        member_id: self.config.member_id,
                    },
                },
            ),
            None => EngineView { date_index: self.date_index + 1, ..self }.next_date(
                logs,
                jitter_ms,
            ),
        }
    }

    /// The engine with the slot after the one in hand.
    pub open spec fn past_slot(self) -> EngineView {
        EngineView { slot_index: self.slot_index + 1, ..self }
    }

    /// The lines with which a run announces itself.
    pub open spec fn opening_lines(self) -> Seq<LogLineView> {
        let c = self.config;
        let head = seq![
            info_line("grab engine started"@),
            info_line(
                "grab config: dates="@ + joined(c.target_dates, ","@) + " doctor_ids="@ + joined(
                    c.doctor_ids,
                    ","@,
                ) + " time_types="@ + joined(c.time_types, ","@) + " preferred="@ + joined(
                    c.preferred_hours,
                    ","@,
                ),
            ),
            info_line(
                if c.doctor_ids.len() > 0 || c.preferred_hours.len() > 0 || c.time_types.len() > 0 {
                    "grab mode: precise"@
                } else {
                    "grab mode: fuzzy"@
                },
            ),
        ];
        if c.time_types.len() == 0 {
            head.push(info_line("time_types 未设置，默认 am/pm"@))
        } else {
            head
        }
    }

    /// The run begins: a job that lacks something is refused at once; one
    /// with a start time waits for it; any other starts its first attempt.
    pub open spec fn on_start(self, jitter_ms: u64) -> (EngineView, StepView) {
        match validation_error(self.config) {
            Some(m) => self.stop(seq![error_line(m)], false, m, None),
            None => if self.config.start_time.len() > 0 {
                (
                    EngineView { phase: Phase::Arming, ..self },
                    StepView {
                        logs: self.opening_lines(),
                        action: ActionView::WaitForStart {
                            start_time: self.config.start_time,
                            use_server_time: self.config.use_server_time,
                        },
                    },
                )
            } else {
                self.begin_attempt(self.opening_lines(), jitter_ms)
            },
        }
    }

    /// The schedule of the date in hand has come: without doctors the engine
    /// turns to the next date, else it looks for a slot.
    pub open spec fn on_schedule(self, docs: Seq<DoctorScheduleView>, jitter_ms: u64) -> (
        EngineView,
        StepView,
    ) {
        if docs.len() == 0 {
            EngineView { date_index: self.date_index + 1, ..self }.next_date(
                seq![warn_line("no schedule on "@ + self.date())],
                jitter_ms,
            )
        } else {
            EngineView { docs, doc_index: 0, slot_index: 0, ..self }.seek(
                seq![info_line("schedule result: docs="@ + digits_of(docs.len()))],
                jitter_ms,
            )
        }
    }

    /// The schedule could not be had: a missing or expired login ends the
    /// run at once; after any other error the engine turns to the next date.
    pub open spec fn on_schedule_failed(self, error: AppErrorView, jitter_ms: u64) -> (
        EngineView,
        StepView,
    ) {
        if error is LoginRequired {
            self.stop(Seq::empty(), false, error.frontend(), None)
        } else {
            EngineView { date_index: self.date_index + 1, ..self }.next_date(
                Seq::empty(),
                jitter_ms,
            )
        }
    }

    /// The times that the booking page offers.
    pub open spec fn offered_times(d: TicketDetailView) -> Seq<TimeSlotView> {
        if d.times.len() == 0 {
            d.time_slots
        } else {
            d.times
        }
    }

    /// The lines on the time and the address that were chosen for a submission.
    pub open spec fn choice_lines(time: TimeSlotView, address: ResolvedAddressView) -> Seq<
        LogLineView,
    > {
        let first = seq![info_line("selected time slot: "@ + time.name)];
        if address.from_options {
            first.push(warn_line("fallback address: "@ + address.address_text))
        } else {
            first
        }
    }

    /// The booking page of the slot in hand has come. The slot is given up
    /// where the page could not be had, offers no time, lacks one of the
    /// tokens of a submission, or yields no address. Else the slot is
    /// submitted, after the wait that keeps submissions apart.
    pub open spec fn on_detail(self, detail: Option<TicketDetailView>, now_ms: u64, jitter_ms: u64) -> (
        EngineView,
        StepView,
    ) {
        match detail {
            None => self.past_slot().seek(seq![warn_line("ticket detail unavailable"@)], jitter_ms),
            Some(d) => {
                let times = Self::offered_times(d);
                if times.len() == 0 {
                    self.past_slot().seek(Seq::empty(), jitter_ms)
                } else if d.sch_data.len() == 0 || d.detlid_realtime.len() == 0
                    || d.level_code.len() == 0 {
                    self.past_slot().seek(
                        seq![warn_line("ticket detail missing fields"@)],
                        jitter_ms,
                    )
                } else {
                    let time = picked_slot(times, self.config.preferred_hours);
                    let address = resolved_address(self.config, d);
                    let lines = Self::choice_lines(time, address);
                    if !usable_address(address.address_id, address.address_text) {
                        self.past_slot().seek(
                            lines.push(error_line("missing address info"@)),
                            jitter_ms,
                        )
                    } else {
                        let wait = throttle_wait_of(self.last_submit_ms, now_ms);
                        (
                            EngineView {
                                phase: Phase::Submitting,
                                chosen_time: time.name,
                                last_submit_ms: Some(
                                    issue_time(self.last_submit_ms, now_ms) as u128,
                                ),
                                ..self
                            },
                            StepView {
                                logs: if wait > 0 {
                                    lines.push(
                                        info_line(
                                            "submit throttle: wait "@ + digits_of(wait as nat)
                                                + "ms"@,
                                        ),
                                    )
                                } else {
                                    lines
                                },
                                action: ActionView::Submit {
                                    params: submit_params_of(
                                        self.config,
                                        self.doctor(),
                                        self.slot(),
                                        time,
                                        address,
                                        d,
                                    ),
                                    use_proxy: self.config.use_proxy_submit,
                                    wait_ms: wait,
                                },
                            },
                        )
                    }
                }
            },
        }
    }

    /// What a successful run reports.
    pub open spec fn success_detail(self, url: Option<Seq<char>>) -> GrabSuccessView {
        GrabSuccessView {
            unit_name: name_or_id(self.config.unit_name, self.config.unit_id),
            dep_name: name_or_id(self.config.dep_name, self.config.dep_id),
            doctor_name: self.doctor().doctor_name,
            date: self.date(),
            time_slot: self.chosen_time,
            member_name: name_or_id(self.config.member_name, self.config.member_id),
            url,
        }
    }

    /// The site has answered the submission. Success ends the run. Where the
    /// site says that submissions come too fast, the engine pauses for
    /// `backoff_ms` and then goes on; after any other answer it goes on with
    /// the next slot at once.
    pub open spec fn on_submitted(self, result: SubmitOrderResultView, backoff_ms: u64, jitter_ms: u64) -> (
        EngineView,
        StepView,
    ) {
        if result.success || result.status {
            let detail = self.success_detail(result.url);
            self.stop(
                seq![
                    success_line(
                        "success: "@ + detail.unit_name + " / "@ + detail.dep_name + " / "@
                            + detail.doctor_name,
                    ),
                    success_line("grab success"@),
                ],
                true,
                "success"@,
                Some(detail),
            )
        } else {
            let message = if result.message.len() == 0 {
                "submit failed"@
            } else {
                result.message
            };
            if too_fast(message) {
                (
                    EngineView { phase: Phase::BackingOff, ..self },
                    StepView {
                        logs: seq![warn_line("submit throttled, backoff"@)],
                        action: ActionView::Sleep { ms: backoff_ms },
                    },
                )
            } else {
                self.past_slot().seek(seq![error_line(message)], jitter_ms)
            }
        }
    }

    /// What the engine answers to an event. The stop signal ends the run in
    /// every phase; an event that the phase does not await ends it too.
    pub open spec fn advance(self, event: EventView, jitter_ms: u64, backoff_ms: u64) -> (
        EngineView,
        StepView,
    ) {
        match (self.phase, event) {
            (_, EventView::Cancelled) => self.stop(Seq::empty(), false, "stopped"@, None),
            (Phase::Created, EventView::Start) => self.on_start(jitter_ms),
            (Phase::Arming, EventView::Armed) => self.begin_attempt(Seq::empty(), jitter_ms),
            (Phase::Querying, EventView::Schedule(docs)) => self.on_schedule(docs, jitter_ms),
            (Phase::Querying, EventView::ScheduleFailed(e)) => self.on_schedule_failed(
                e,
                jitter_ms,
            ),
            (Phase::Detailing, EventView::Detail { detail, now_ms }) => self.on_detail(
                detail,
                now_ms,
                jitter_ms,
            ),
            (Phase::Submitting, EventView::Submitted(result)) => self.on_submitted(
                result,
                backoff_ms,
                jitter_ms,
            ),
            (Phase::Submitting, EventView::SubmitFailed(e)) => self.past_slot().seek(
                seq![error_line("submit error: "@ + e)],
                jitter_ms,
            ),
            (Phase::BackingOff, EventView::Slept) => self.past_slot().seek(Seq::empty(), jitter_ms),
            (Phase::Resting, EventView::Slept) => self.begin_attempt(Seq::empty(), jitter_ms),
            _ => self.stop(Seq::empty(), false, "unexpected event"@, None),
        }
    }
}

/// Appends a line to the log.
fn push_line(logs: &mut Vec<LogLine>, level: &str, message: String)
    ensures
        final(logs).deep_view() == old(logs).deep_view().push(
            LogLineView { level: level@, message: message@ },
        ),
{
    let ghost before = logs.deep_view();
    let line = LogLine { level: String::from_str(level), message };
    logs.push(line);
    assert(logs.deep_view() =~= before.push(line@));
}

/// A name for the log and the result: the identifier where no name is given.
fn pick_name(name: &String, id: &String) -> (r: String)
    ensures
        r@ == name_or_id(name@, id@),
{
    if name.as_str().is_empty() {
        id.clone()
    } else {
        name.clone()
    }
}

impl Engine {
    /// The engine of a run that has not begun.
    pub fn new(config: GrabConfig) -> (r: Engine)
        ensures
            r@ == EngineView::created(config@),
            r@.wf(),
    {
        Engine::with_last_submit(config, None)
    }

    /// The engine of a run in a process whose last submission, if there was
    /// one, went out at `last_submit_ms` on the runner's clock: the first
    /// submission of this run keeps its distance from that one.
    pub fn with_last_submit(config: GrabConfig, last_submit_ms: Option<u128>) -> (r: Engine)
        ensures
            r@ == EngineView::created_after(config@, last_submit_ms),
            r@.wf(),
    {
        let r = Engine {
            config,
            phase: Phase::Created,
            attempt: 0,
            date_index: 0,
            docs: Vec::new(),
            doc_index: 0,
            slot_index: 0,
            chosen_time: String::new(),
            last_submit_ms,
        };
        assert(r.docs.deep_view() =~= Seq::empty());
        r
    }

    /// What the engine waits for.
    pub fn phase(&self) -> (r: Phase)
        ensures
            r == self@.phase,
    {
        self.phase
    }

    /// The number of the attempt under way; 0 before the first.
    pub fn attempt(&self) -> (r: u64)
        ensures
            r == self@.attempt,
    {
        self.attempt
    }

    /// The job of this run.
    pub fn config(&self) -> (r: &GrabConfig)
        ensures
            r@ == self@.config,
    {
        &self.config
    }

    /// The moment for which the last submission was set, in milliseconds of the runner's clock.
    pub fn last_submit_ms(&self) -> (r: Option<u128>)
        ensures
            r == self@.last_submit_ms,
    {
        self.last_submit_ms
    }

    fn stop(
        &mut self,
        logs: Vec<LogLine>,
        success: bool,
        message: String,
        detail: Option<GrabSuccess>,
    ) -> (step: Step)
        requires
            old(self)@.bounded(),
        ensures
            final(self)@.wf(),
            (final(self)@, step@) == old(self)@.stop(
                logs.deep_view(),
                success,
                message@,
                detail.deep_view(),
            ),
    {
        self.phase = Phase::Finished;
        Step { logs, action: Action::Finish(GrabResult { success, message, detail }) }
    }

    fn end_attempt(&mut self, logs: Vec<LogLine>) -> (step: Step)
        requires
            old(self)@.bounded(),
        ensures
            final(self)@.wf(),
            (final(self)@, step@) == old(self)@.end_attempt(logs.deep_view()),
    {
        let mut logs = logs;
        if self.config.max_retries > 0 && self.attempt >= self.config.max_retries as u64 {
            let mut m = String::from_str("max retries reached (");
            m.append(decimal(self.config.max_retries as i64).as_str());
            m.append(")");
            push_line(&mut logs, "warn", m);
            self.stop(logs, false, String::from_str("max retries reached"), None)
        } else {
            self.phase = Phase::Resting;
            let ms = if self.config.retry_interval_ms == 0 {
                DEFAULT_RETRY_INTERVAL_MS
            } else {
                self.config.retry_interval_ms
            };
            Step { logs, action: Action::Sleep { ms } }
        }
    }

    fn next_date(&mut self, logs: Vec<LogLine>, jitter_ms: u64) -> (step: Step)
        requires
            old(self)@.bounded(),
        ensures
            final(self)@.wf(),
            (final(self)@, step@) == old(self)@.next_date(logs.deep_view(), jitter_ms),
    {
        let mut logs = logs;
        if self.date_index < self.config.target_dates.len() {
            let date = self.config.target_dates[self.date_index].clone();
            assert(date@ == self@.date());
            let mut m = String::from_str("schedule query: ");
            m.append(date.as_str());
            push_line(&mut logs, "info", m);
            self.phase = Phase::Querying;
            Step {
                logs,
                action: Action::QuerySchedule {
                    unit_id: self.config.unit_id.clone(),
                    dep_id: self.config.dep_id.clone(),
                    date,
                    jitter_ms,
                },
            }
        } else {
            self.end_attempt(logs)
        }
    }

    fn begin_attempt(&mut self, logs: Vec<LogLine>, jitter_ms: u64) -> (step: Step)
        requires
            old(self)@.bounded(),
        ensures
            final(self)@.wf(),
            (final(self)@, step@) == old(self)@.begin_attempt(logs.deep_view(), jitter_ms),
    {
        let mut logs = logs;
        if self.attempt < u64::MAX {
            self.attempt = self.attempt + 1;
        }
        self.date_index = 0;
        let mut m = String::from_str("attempt ");
        m.append(decimal_u64(self.attempt).as_str());
        push_line(&mut logs, "info", m);
        self.next_date(logs, jitter_ms)
    }

    fn seek(&mut self, logs: Vec<LogLine>, jitter_ms: u64) -> (step: Step)
        requires
            old(self)@.bounded(),
            old(self)@.date_index < old(self)@.config.target_dates.len(),
        ensures
            final(self)@.wf(),
            (final(self)@, step@) == old(self)@.seek(logs.deep_view(), jitter_ms),
    {
        let mut logs = logs;
        match find_candidate(&self.config, &self.docs, self.doc_index, self.slot_index) {
            Some((d, s)) => {
                let doc = &self.docs[d];
                let slot = &doc.schedules[s];
                assert(self@.docs[d as int] == doc@);
                assert(self@.docs[d as int].schedules[s as int] == slot@);
                let mut m = String::from_str("found slot: ");
                m.append(doc.doctor_name.as_str());
                m.append(" - ");
                m.append(slot.time_type_desc.as_str());
                m.append(" (left ");
                m.append(decimal(slot.left_num as i64).as_str());
                m.append(")");
                push_line(&mut logs, "success", m);
                let action = Action::FetchDetail {
                    unit_id: self.config.unit_id.clone(),
                    dep_id: self.config.dep_id.clone(),
                    schedule_id: slot.schedule_id.clone(),
                    member_id: self.config.member_id.clone(),
                };
                self.doc_index = d;
                self.slot_index = s;
                self.phase = Phase::Detailing;
                Step { logs, action }
            },
            None => {
                assert(self.config.target_dates.deep_view().len() == self.config.target_dates.len());
            self.date_index = self.date_index + 1;
                self.next_date(logs, jitter_ms)
            },
        }
    }

    fn past_slot(&mut self)
        requires
            old(self)@.wf(),
            old(self)@.has_slot(),
        ensures
            final(self)@ == old(self)@.past_slot(),
            final(self)@.bounded(),
    {
        assert(self@.docs[self.doc_index as int] == self.docs[self.doc_index as int]@);
        assert(self.docs[self.doc_index as int]@.schedules.len()
            == self.docs[self.doc_index as int].schedules.len());
        self.slot_index = self.slot_index + 1;
    }

    fn opening_lines(&self) -> (logs: Vec<LogLine>)
        ensures
            logs.deep_view() == self@.opening_lines(),
    {
        let c = &self.config;
        let mut logs: Vec<LogLine> = Vec::new();
        assert(logs.deep_view() =~= Seq::empty());
        push_line(&mut logs, "info", String::from_str("grab engine started"));
        let mut m = String::from_str("grab config: dates=");
        m.append(join(&c.target_dates, ",").as_str());
        m.append(" doctor_ids=");
        m.append(join(&c.doctor_ids, ",").as_str());
        m.append(" time_types=");
        m.append(join(&c.time_types, ",").as_str());
        m.append(" preferred=");
        m.append(join(&c.preferred_hours, ",").as_str());
        push_line(&mut logs, "info", m);
        let precise = c.doctor_ids.len() > 0 || c.preferred_hours.len() > 0 || c.time_types.len()
            > 0;
        if precise {
            push_line(&mut logs, "info", String::from_str("grab mode: precise"));
        } else {
            push_line(&mut logs, "info", String::from_str("grab mode: fuzzy"));
        }
        assert(logs.deep_view() =~= seq![
            logs.deep_view()[0],
            logs.deep_view()[1],
            logs.deep_view()[2],
        ]);
        if c.time_types.len() == 0 {
            push_line(&mut logs, "info", String::from_str("time_types 未设置，默认 am/pm"));
        }
        logs
    }

    fn on_start(&mut self, jitter_ms: u64) -> (step: Step)
        requires
            old(self)@.bounded(),
        ensures
            final(self)@.wf(),
            (final(self)@, step@) == old(self)@.on_start(jitter_ms),
    {
        match self.config.validate() {
            Err(m) => {
                let mut logs: Vec<LogLine> = Vec::new();
                assert(logs.deep_view() =~= Seq::empty());
                push_line(&mut logs, "error", m.clone());
                assert(logs.deep_view() =~= seq![error_line(m@)]);
                self.stop(logs, false, m, None)
            },
            Ok(_) => {
                let logs = self.opening_lines();
                if !self.config.start_time.as_str().is_empty() {
                    self.phase = Phase::Arming;
                    Step {
                        logs,
                        action: Action::WaitForStart {
                            start_time: self.config.start_time.clone(),
                            use_server_time: self.config.use_server_time,
                        },
                    }
                } else {
                    self.begin_attempt(logs, jitter_ms)
                }
            },
        }
    }

    fn on_schedule(&mut self, docs: Vec<DoctorSchedule>, jitter_ms: u64) -> (step: Step)
        requires
            old(self)@.wf(),
            old(self)@.phase is Querying,
        ensures
            final(self)@.wf(),
            (final(self)@, step@) == old(self)@.on_schedule(docs.deep_view(), jitter_ms),
    {
        let mut logs: Vec<LogLine> = Vec::new();
        assert(logs.deep_view() =~= Seq::empty());
        if docs.len() == 0 {
            let mut m = String::from_str("no schedule on ");
            m.append(self.config.target_dates[self.date_index].as_str());
            push_line(&mut logs, "warn", m);
            assert(logs.deep_view() =~= seq![warn_line("no schedule on "@ + self@.date())]);
            assert(self.config.target_dates.deep_view().len() == self.config.target_dates.len());
            self.date_index = self.date_index + 1;
            self.next_date(logs, jitter_ms)
        } else {
            let mut m = String::from_str("schedule result: docs=");
            m.append(decimal_u64(docs.len() as u64).as_str());
            push_line(&mut logs, "info", m);
            assert(logs.deep_view() =~= seq![
                info_line("schedule result: docs="@ + digits_of(docs.len() as nat)),
            ]);
            self.docs = docs;
            self.doc_index = 0;
            self.slot_index = 0;
            self.seek(logs, jitter_ms)
        }
    }

    fn on_schedule_failed(&mut self, error: AppError, jitter_ms: u64) -> (step: Step)
        requires
            old(self)@.wf(),
            old(self)@.phase is Querying,
        ensures
            final(self)@.wf(),
            (final(self)@, step@) == old(self)@.on_schedule_failed(error@, jitter_ms),
    {
        let logs: Vec<LogLine> = Vec::new();
        assert(logs.deep_view() =~= Seq::empty());
        match &error {
            AppError::LoginRequired(_) => {
                let message = error.to_frontend_string();
                self.stop(logs, false, message, None)
            },
            _ => {
                assert(self.config.target_dates.deep_view().len() == self.config.target_dates.len());
            self.date_index = self.date_index + 1;
                self.next_date(logs, jitter_ms)
            },
        }
    }

    fn on_detail(&mut self, detail: Option<TicketDetail>, now_ms: u64, jitter_ms: u64) -> (step:
        Step)
        requires
            old(self)@.wf(),
            old(self)@.phase is Detailing,
        ensures
            final(self)@.wf(),
            (final(self)@, step@) == old(self)@.on_detail(detail.deep_view(), now_ms, jitter_ms),
    {
        let mut logs: Vec<LogLine> = Vec::new();
        assert(logs.deep_view() =~= Seq::empty());
        let d = match detail {
            None => {
                push_line(&mut logs, "warn", String::from_str("ticket detail unavailable"));
                assert(logs.deep_view() =~= seq![warn_line("ticket detail unavailable"@)]);
                self.past_slot();
                return self.seek(logs, jitter_ms);
            },
            Some(d) => d,
        };
        let times = if d.times.len() == 0 {
            &d.time_slots
        } else {
            &d.times
        };
        assert(times.deep_view() == EngineView::offered_times(d@));
        if times.len() == 0 {
            self.past_slot();
            return self.seek(logs, jitter_ms);
        }
        if d.sch_data.as_str().is_empty() || d.detlid_realtime.as_str().is_empty()
            || d.level_code.as_str().is_empty() {
            push_line(&mut logs, "warn", String::from_str("ticket detail missing fields"));
            assert(logs.deep_view() =~= seq![warn_line("ticket detail missing fields"@)]);
            self.past_slot();
            return self.seek(logs, jitter_ms);
        }
        let offered = times.as_slice();
        let preferred = self.config.preferred_hours.as_slice();
        assert(offered.deep_view() =~= times.deep_view());
        assert(preferred.deep_view() =~= self.config.preferred_hours.deep_view());
        let time = pick_time_slot(offered, preferred);
        let mut m = String::from_str("selected time slot: ");
        m.append(time.name.as_str());
        push_line(&mut logs, "info", m);
        let address = resolve_address(&self.config, &d);
        if address.from_options {
            let mut m = String::from_str("fallback address: ");
            m.append(address.address_text.as_str());
            push_line(&mut logs, "warn", m);
        }
        assert(logs.deep_view() =~= EngineView::choice_lines(time@, address@));
        if address.address_id.as_str().is_empty() || address.address_text.as_str().is_empty() {
            push_line(&mut logs, "error", String::from_str("missing address info"));
            self.past_slot();
            return self.seek(logs, jitter_ms);
        }
        let doc = &self.docs[self.doc_index];
        let slot = &doc.schedules[self.slot_index];
        assert(self@.doctor() == doc@);
        assert(self@.slot() == slot@);
        let params = build_submit_params(&self.config, doc, slot, &time, &address, &d);
        let wait = submit_throttle_wait(self.last_submit_ms, now_ms);
        if wait > 0 {
            let mut m = String::from_str("submit throttle: wait ");
            m.append(decimal_u64(wait).as_str());
            m.append("ms");
            push_line(&mut logs, "info", m);
        }
        self.last_submit_ms = Some(now_ms as u128 + wait as u128);
        self.chosen_time = time.name;
        self.phase = Phase::Submitting;
        Step {
            logs,
            action: Action::Submit { params, use_proxy: self.config.use_proxy_submit, wait_ms: wait },
        }
    }

    fn on_submitted(&mut self, result: SubmitOrderResult, backoff_ms: u64, jitter_ms: u64) -> (step:
        Step)
        requires
            old(self)@.wf(),
            old(self)@.phase is Submitting,
        ensures
            final(self)@.wf(),
            (final(self)@, step@) == old(self)@.on_submitted(result@, backoff_ms, jitter_ms),
    {
        let mut logs: Vec<LogLine> = Vec::new();
        assert(logs.deep_view() =~= Seq::empty());
        if result.success || result.status {
            let doc = &self.docs[self.doc_index];
            assert(self@.doctor() == doc@);
            let detail = GrabSuccess {
                unit_name: pick_name(&self.config.unit_name, &self.config.unit_id),
                dep_name: pick_name(&self.config.dep_name, &self.config.dep_id),
                doctor_name: doc.doctor_name.clone(),
                date: self.config.target_dates[self.date_index].clone(),
                time_slot: self.chosen_time.clone(),
                member_name: pick_name(&self.config.member_name, &self.config.member_id),
                url: result.url,
            };
            assert(detail@ == self@.success_detail(result@.url));
            let mut m = String::from_str("success: ");
            m.append(detail.unit_name.as_str());
            m.append(" / ");
            m.append(detail.dep_name.as_str());
            m.append(" / ");
            m.append(detail.doctor_name.as_str());
            push_line(&mut logs, "success", m);
            push_line(&mut logs, "success", String::from_str("grab success"));
            assert(logs.deep_view() =~= seq![
                success_line(
                    "success: "@ + detail@.unit_name + " / "@ + detail@.dep_name + " / "@
                        + detail@.doctor_name,
                ),
                success_line("grab success"@),
            ]);
            self.stop(logs, true, String::from_str("success"), Some(detail))
        } else {
            let message = if result.message.as_str().is_empty() {
                String::from_str("submit failed")
            } else {
                result.message
            };
            if is_too_fast_message(message.as_str()) {
                push_line(&mut logs, "warn", String::from_str("submit throttled, backoff"));
                assert(logs.deep_view() =~= seq![warn_line("submit throttled, backoff"@)]);
                self.phase = Phase::BackingOff;
                Step { logs, action: Action::Sleep { ms: backoff_ms } }
            } else {
                push_line(&mut logs, "error", message);
                assert(logs.deep_view() =~= seq![error_line(message@)]);
                self.past_slot();
                self.seek(logs, jitter_ms)
            }
        }
    }

    /// Answers an event, with the pause before a schedule request and the
    /// pause after a refusal for haste given by the caller.
    pub fn advance(&mut self, event: Event, jitter_ms: u64, backoff_ms: u64) -> (step: Step)
        requires
            old(self)@.wf(),
        ensures
            final(self)@.wf(),
            (final(self)@, step@) == old(self)@.advance(event@, jitter_ms, backoff_ms),
    {
        let logs: Vec<LogLine> = Vec::new();
        assert(logs.deep_view() =~= Seq::empty());
        match event {
            Event::Cancelled => self.stop(logs, false, String::from_str("stopped"), None),
            Event::Start => match self.phase {
                Phase::Created => self.on_start(jitter_ms),
                _ => self.stop(logs, false, String::from_str("unexpected event"), None),
            },
            Event::Armed => match self.phase {
                Phase::Arming => self.begin_attempt(logs, jitter_ms),
                _ => self.stop(logs, false, String::from_str("unexpected event"), None),
            },
            Event::Schedule(docs) => match self.phase {
                Phase::Querying => self.on_schedule(docs, jitter_ms),
                _ => self.stop(logs, false, String::from_str("unexpected event"), None),
            },
            Event::ScheduleFailed(e) => match self.phase {
                Phase::Querying => self.on_schedule_failed(e, jitter_ms),
                _ => self.stop(logs, false, String::from_str("unexpected event"), None),
            },
            Event::Detail { detail, now_ms } => match self.phase {
                Phase::Detailing => self.on_detail(detail, now_ms, jitter_ms),
                _ => self.stop(logs, false, String::from_str("unexpected event"), None),
            },
            Event::Submitted(result) => match self.phase {
                Phase::Submitting => self.on_submitted(result, backoff_ms, jitter_ms),
                _ => self.stop(logs, false, String::from_str("unexpected event"), None),
            },
            Event::SubmitFailed(e) => match self.phase {
                Phase::Submitting => {
                    let mut logs = logs;
                    let mut m = String::from_str("submit error: ");
                    m.append(e.as_str());
                    push_line(&mut logs, "error", m);
                    assert(logs.deep_view() =~= seq![error_line("submit error: "@ + e@)]);
                    self.past_slot();
                    self.seek(logs, jitter_ms)
                },
                _ => self.stop(logs, false, String::from_str("unexpected event"), None),
            },
            Event::Slept => match self.phase {
                Phase::BackingOff => {
                    self.past_slot();
                    self.seek(logs, jitter_ms)
                },
                Phase::Resting => self.begin_attempt(logs, jitter_ms),
                _ => self.stop(logs, false, String::from_str("unexpected event"), None),
            },
        }
    }

    /// Answers an event. The pause before a schedule request is drawn below
    /// the longest one, the pause after a refusal for haste between the
    /// shortest and the longest one.
    pub fn step(&mut self, event: Event) -> (step: Step)
        requires
            old(self)@.wf(),
        ensures
            final(self)@.wf(),
            exists|jitter_ms: u64, backoff_ms: u64|
                jitter_ms < DATE_QUERY_JITTER_MAX_MS && SUBMIT_BACKOFF_MIN_MS <= backoff_ms
                    <= SUBMIT_BACKOFF_MAX_MS && (final(self)@, step@) == #[trigger] old(self)@.advance(
                    event@,
                    jitter_ms,
                    backoff_ms,
                ),
    {
        let jitter_ms = random_jitter_ms();
        let backoff_ms = random_backoff_ms(SUBMIT_BACKOFF_MIN_MS, SUBMIT_BACKOFF_MAX_MS);
        self.advance(event, jitter_ms, backoff_ms)
    }
}

/// The slot that the search finds is an eligible one, at or after the place
/// where the search began.
pub proof fn lemma_candidate_is_eligible(
    c: GrabConfigView,
    docs: Seq<DoctorScheduleView>,
    d: int,
    s: int,
)
    ensures
        next_candidate(c, docs, d, s) matches Some((i, j)) ==> {
            &&& 0 <= i < docs.len()
            &&& 0 <= j < docs[i].schedules.len()
            &&& eligible(c, docs[i], docs[i].schedules[j])
            &&& (i > d || (i == d && j >= s))
        },
    decreases docs.len() - d, (if 0 <= d < docs.len() {
        docs[d].schedules.len() - s
    } else {
        0
    }),
{
    if d < 0 || s < 0 || d >= docs.len() {
    } else if s >= docs[d].schedules.len() {
        lemma_candidate_is_eligible(c, docs, d + 1, 0);
    } else if eligible(c, docs[d], docs[d].schedules[s]) {
    } else {
        lemma_candidate_is_eligible(c, docs, d, s + 1);
    }
}

/// The search passes over no eligible slot: every slot between the place
/// where it began and the slot that it finds is not eligible, and where it
/// finds none, no slot from that place on is.
pub proof fn lemma_candidate_is_first(
    c: GrabConfigView,
    docs: Seq<DoctorScheduleView>,
    d: int,
    s: int,
    i: int,
    j: int,
)
    requires
        0 <= d,
        0 <= s,
        0 <= i < docs.len(),
        0 <= j < docs[i].schedules.len(),
        i > d || (i == d && j >= s),
        eligible(c, docs[i], docs[i].schedules[j]),
    ensures
        next_candidate(c, docs, d, s) matches Some((a, b)) && (a < i || (a == i && b <= j)),
    decreases docs.len() - d, (if 0 <= d < docs.len() {
        docs[d].schedules.len() - s
    } else {
        0
    }),
{
    if s >= docs[d].schedules.len() {
        lemma_candidate_is_first(c, docs, d + 1, 0, i, j);
    } else if eligible(c, docs[d], docs[d].schedules[s]) {
    } else {
        lemma_candidate_is_first(c, docs, d, s + 1, i, j);
    }
}

/// Whatever happens, the engine stays well formed.
pub proof fn lemma_engine_stays_well_formed(
    e: EngineView,
    event: EventView,
    jitter_ms: u64,
    backoff_ms: u64,
)
    requires
        e.wf(),
    ensures
        e.advance(event, jitter_ms, backoff_ms).0.wf(),
{
    lemma_candidate_is_eligible(e.config, e.docs, e.doc_index, e.slot_index);
    lemma_candidate_is_eligible(e.config, e.docs, e.doc_index, e.slot_index + 1);
    if let EventView::Schedule(docs) = event {
        lemma_candidate_is_eligible(e.config, docs, 0, 0);
    }
}

/// Only eligible slots are taken: whenever the engine asks for a booking page
/// or submits, the slot in question is wanted by the job, names a schedule
/// and has places left. A slot without places, or without an identifier, is
/// never asked for and never submitted.
pub proof fn lemma_only_eligible_slots_are_taken(
    e: EngineView,
    event: EventView,
    jitter_ms: u64,
    backoff_ms: u64,
)
    requires
        e.wf(),
    ensures
        ({
            let after = e.advance(event, jitter_ms, backoff_ms);
            &&& after.1.action matches ActionView::FetchDetail { schedule_id, .. } ==> {
                &&& after.0.has_slot()
                &&& eligible(after.0.config, after.0.doctor(), after.0.slot())
                &&& after.0.slot().left_num > 0
                &&& schedule_id == after.0.slot().schedule_id
                &&& schedule_id.len() > 0
            }
            &&& after.1.action matches ActionView::Submit { params, .. } ==> {
                &&& after.0.has_slot()
                &&& eligible(after.0.config, after.0.doctor(), after.0.slot())
                &&& after.0.slot().left_num > 0
                &&& params[2] == ("schedule_id"@, after.0.slot().schedule_id)
                &&& after.0.slot().schedule_id.len() > 0
            }
        }),
{
    lemma_engine_stays_well_formed(e, event, jitter_ms, backoff_ms);
    lemma_candidate_is_eligible(e.config, e.docs, e.doc_index, e.slot_index);
    lemma_candidate_is_eligible(e.config, e.docs, e.doc_index, e.slot_index + 1);
    if let EventView::Schedule(docs) = event {
        lemma_candidate_is_eligible(e.config, docs, 0, 0);
    }
}

/// Submissions keep their distance. Where the engine decides to submit at
/// `now_ms`, the submission is set for `now_ms` and the wait, and the engine
/// keeps that moment. After an earlier submission, and with a clock that has
/// not gone back behind it, the wait is what is left of the least interval,
/// so that the two are at least the interval apart; without an earlier
/// submission there is no wait.
pub proof fn lemma_submissions_keep_their_distance(
    e: EngineView,
    detail: Option<TicketDetailView>,
    now_ms: u64,
    jitter_ms: u64,
    backoff_ms: u64,
)
    requires
        e.wf(),
        e.phase is Detailing,
    ensures
        ({
            let after = e.advance(EventView::Detail { detail, now_ms }, jitter_ms, backoff_ms);
            after.1.action matches ActionView::Submit { wait_ms, .. } ==> {
                &&& after.0.last_submit_ms == Some((now_ms + wait_ms) as u128)
                &&& wait_ms <= crate::grabber::SUBMIT_MIN_INTERVAL_MS
                &&& e.last_submit_ms matches Some(last) ==> now_ms >= last ==> {
                    &&& now_ms + wait_ms >= last + crate::grabber::SUBMIT_MIN_INTERVAL_MS
                    &&& wait_ms == (if now_ms - last < crate::grabber::SUBMIT_MIN_INTERVAL_MS {
                        crate::grabber::SUBMIT_MIN_INTERVAL_MS - (now_ms - last)
                    } else {
                        0
                    })
                }
                &&& e.last_submit_ms is None ==> wait_ms == 0
            }
        }),
{
}

/// A missing or expired login ends the run at once: the answer to such a
/// failure of the schedule query is the end of the run, with the message
/// that asks for a new login, and no pause is taken before it.
pub proof fn lemma_expired_login_ends_the_run(
    e: EngineView,
    reason: Seq<char>,
    jitter_ms: u64,
    backoff_ms: u64,
)
    requires
        e.phase is Querying,
    ensures
        e.advance(
            EventView::ScheduleFailed(AppErrorView::LoginRequired(reason)),
            jitter_ms,
            backoff_ms,
        ) == (
            EngineView { phase: Phase::Finished, ..e },
            StepView {
                logs: Seq::empty(),
                action: ActionView::Finish(
                    GrabResultView {
                        success: false,
                        message: "登录已失效，请重新扫码"@,
                        detail: None,
                    },
                ),
            },
        ),
{
}

/// Haste is answered by a pause, not by giving up: where the site says that
/// submissions come too fast, the engine warns, pauses for the time that it
/// was given, and then goes on with the slot after the one in hand.
pub proof fn lemma_haste_is_answered_by_a_pause(
    e: EngineView,
    result: SubmitOrderResultView,
    jitter_ms: u64,
    backoff_ms: u64,
)
    requires
        e.phase is Submitting,
        !result.success,
        !result.status,
        too_fast(result.message),
    ensures
        ({
            let after = e.advance(EventView::Submitted(result), jitter_ms, backoff_ms);
            &&& after.0 == EngineView { phase: Phase::BackingOff, ..e }
            &&& after.1.logs == seq![warn_line("submit throttled, backoff"@)]
            &&& after.1.action == ActionView::Sleep { ms: backoff_ms }
            &&& after.0.advance(EventView::Slept, jitter_ms, backoff_ms) == e.past_slot().seek(
                Seq::empty(),
                jitter_ms,
            )
        }),
{
    let message = if result.message.len() == 0 {
        "submit failed"@
    } else {
        result.message
    };
    assert(message == result.message) by {
        if result.message.len() == 0 {
            assert(crate::text::trimmed(result.message).len() == 0) by {
                reveal_with_fuel(crate::text::trim_start_of, 2);
                reveal_with_fuel(crate::text::trim_end_of, 2);
            }
        }
    }
}

/// The stop signal ends the run in every phase, with the result `stopped`.
pub proof fn lemma_stop_signal_ends_the_run(e: EngineView, jitter_ms: u64, backoff_ms: u64)
    ensures
        e.advance(EventView::Cancelled, jitter_ms, backoff_ms) == (
            EngineView { phase: Phase::Finished, ..e },
            StepView {
                logs: Seq::empty(),
                action: ActionView::Finish(
                    GrabResultView { success: false, message: "stopped"@, detail: None },
                ),
            },
        ),
{
}

/// A job that lacks a unit, a department, a member or dates is refused
/// before anything is asked of the site: the first answer of the engine is
/// the end of the run, with what the job lacks as its message.
pub proof fn lemma_incomplete_job_is_refused(e: EngineView, jitter_ms: u64, backoff_ms: u64)
    requires
        e.phase is Created,
        e.config.unit_id.len() == 0 || e.config.dep_id.len() == 0 || e.config.member_id.len() == 0
            || e.config.target_dates.len() == 0,
    ensures
        ({
            let after = e.advance(EventView::Start, jitter_ms, backoff_ms);
            &&& after.0.phase is Finished
            &&& after.1.action matches ActionView::Finish(result) && !result.success
                && validation_error(e.config) == Some(result.message)
        }),
{
}

} // verus!
