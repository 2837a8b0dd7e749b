//! The data that travels between the components, each with its view.
//!
//! A view replaces every `String` by its `Seq<char>` and every `Vec` by a
//! `Seq`, so that contracts compare values by what they hold.

use vstd::prelude::*;
use vstd::string::StringExecFns;

verus! {

/// An address that the booking page offers for the patient.
#[derive(Debug)]
pub struct AddressOption {
    pub id: String,
    pub text: String,
}

pub struct AddressOptionView {
    pub id: Seq<char>,
    pub text: Seq<char>,
}

impl View for AddressOption {
    type V = AddressOptionView;

    open spec fn view(&self) -> AddressOptionView {
        AddressOptionView { id: self.id@, text: self.text@ }
    }
}

impl DeepView for AddressOption {
    type V = AddressOptionView;

    open spec fn deep_view(&self) -> AddressOptionView {
        self@
    }
}

impl Clone for AddressOption {
    fn clone(&self) -> (r: Self)
        ensures
            r@ == self@,
    {
        AddressOption { id: self.id.clone(), text: self.text.clone() }
    }
}

/// A bookable time of day on the booking page: its label and the value that the form sends.
#[derive(Debug)]
pub struct TimeSlot {
    pub name: String,
    pub value: String,
}

pub struct TimeSlotView {
    pub name: Seq<char>,
    pub value: Seq<char>,
}

impl View for TimeSlot {
    type V = TimeSlotView;

    open spec fn view(&self) -> TimeSlotView {
        TimeSlotView { name: self.name@, value: self.value@ }
    }
}

impl DeepView for TimeSlot {
    type V = TimeSlotView;

    open spec fn deep_view(&self) -> TimeSlotView {
        self@
    }
}

impl Clone for TimeSlot {
    fn clone(&self) -> (r: Self)
        ensures
            r@ == self@,
    {
        TimeSlot { name: self.name.clone(), value: self.value.clone() }
    }
}

/// What the booking page of one slot holds: what a submission needs.
#[derive(Debug)]
pub struct TicketDetail {
    pub times: Vec<TimeSlot>,
    pub time_slots: Vec<TimeSlot>,
    pub sch_data: String,
    pub detlid_realtime: String,
    pub level_code: String,
    pub sch_date: String,
    pub order_no: String,
    pub disease_content: String,
    pub disease_input: String,
    pub is_hot: String,
    pub his_mem_id: String,
    pub address_id: String,
    pub address: String,
    pub addresses: Vec<AddressOption>,
}

pub struct TicketDetailView {
    pub times: Seq<TimeSlotView>,
    pub time_slots: Seq<TimeSlotView>,
    pub sch_data: Seq<char>,
    pub detlid_realtime: Seq<char>,
    pub level_code: Seq<char>,
    pub sch_date: Seq<char>,
    pub order_no: Seq<char>,
    pub disease_content: Seq<char>,
    pub disease_input: Seq<char>,
    pub is_hot: Seq<char>,
    pub his_mem_id: Seq<char>,
    pub address_id: Seq<char>,
    pub address: Seq<char>,
    pub addresses: Seq<AddressOptionView>,
}

impl View for TicketDetail {
    type V = TicketDetailView;

    open spec fn view(&self) -> TicketDetailView {
        TicketDetailView {
            times: self.times.deep_view(),
            time_slots: self.time_slots.deep_view(),
            sch_data: self.sch_data@,
            detlid_realtime: self.detlid_realtime@,
            level_code: self.level_code@,
            sch_date: self.sch_date@,
            order_no: self.order_no@,
            disease_content: self.disease_content@,
            disease_input: self.disease_input@,
            is_hot: self.is_hot@,
            his_mem_id: self.his_mem_id@,
            address_id: self.address_id@,
            address: self.address@,
            addresses: self.addresses.deep_view(),
        }
    }
}

impl DeepView for TicketDetail {
    type V = TicketDetailView;

    open spec fn deep_view(&self) -> TicketDetailView {
        self@
    }
}

impl TicketDetailView {
    /// The detail in which every text is empty and every list has no entry.
    pub open spec fn empty() -> TicketDetailView {
        TicketDetailView {
            times: Seq::empty(),
            time_slots: Seq::empty(),
            sch_data: Seq::empty(),
            detlid_realtime: Seq::empty(),
            level_code: Seq::empty(),
            sch_date: Seq::empty(),
            order_no: Seq::empty(),
            disease_content: Seq::empty(),
            disease_input: Seq::empty(),
            is_hot: Seq::empty(),
            his_mem_id: Seq::empty(),
            address_id: Seq::empty(),
            address: Seq::empty(),
            addresses: Seq::empty(),
        }
    }
}

impl Default for TicketDetail {
    fn default() -> (r: Self)
        ensures
            r@ == TicketDetailView::empty(),
    {
        let r = TicketDetail {
            times: Vec::new(),
            time_slots: Vec::new(),
            sch_data: String::new(),
            detlid_realtime: String::new(),
            level_code: String::new(),
            sch_date: String::new(),
            order_no: String::new(),
            disease_content: String::new(),
            disease_input: String::new(),
            is_hot: String::new(),
            his_mem_id: String::new(),
            address_id: String::new(),
            address: String::new(),
            addresses: Vec::new(),
        };
        assert(r.times.deep_view() =~= Seq::empty());
        assert(r.time_slots.deep_view() =~= Seq::empty());
        assert(r.addresses.deep_view() =~= Seq::empty());
        r
    }
}

/// A patient registered under the account.
#[derive(Debug)]
pub struct Member {
    pub id: String,
    pub name: String,
    pub certified: bool,
}

pub struct MemberView {
    pub id: Seq<char>,
    pub name: Seq<char>,
    pub certified: bool,
}

impl View for Member {
    type V = MemberView;

    open spec fn view(&self) -> MemberView {
        MemberView { id: self.id@, name: self.name@, certified: self.certified }
    }
}

impl DeepView for Member {
    type V = MemberView;

    open spec fn deep_view(&self) -> MemberView {
        self@
    }
}

impl Clone for Member {
    fn clone(&self) -> (r: Self)
        ensures
            r@ == self@,
    {
        Member { id: self.id.clone(), name: self.name.clone(), certified: self.certified }
    }
}

/// What the site answered to a submission.
#[derive(Debug)]
pub struct SubmitOrderResult {
    pub success: bool,
    pub status: bool,
    pub message: String,
    pub url: Option<String>,
}

pub struct SubmitOrderResultView {
    pub success: bool,
    pub status: bool,
    pub message: Seq<char>,
    pub url: Option<Seq<char>>,
}

impl View for SubmitOrderResult {
    type V = SubmitOrderResultView;

    open spec fn view(&self) -> SubmitOrderResultView {
        SubmitOrderResultView {
            success: self.success,
            status: self.status,
            message: self.message@,
            url: self.url.deep_view(),
        }
    }
}

impl DeepView for SubmitOrderResult {
    type V = SubmitOrderResultView;

    open spec fn deep_view(&self) -> SubmitOrderResultView {
        self@
    }
}

/// How a QR login ended.
#[derive(Debug)]
pub struct QRLoginResult {
    pub success: bool,
    pub message: String,
    pub cookie_path: Option<String>,
}

pub struct QRLoginResultView {
    pub success: bool,
    pub message: Seq<char>,
    pub cookie_path: Option<Seq<char>>,
}

impl View for QRLoginResult {
    type V = QRLoginResultView;

    open spec fn view(&self) -> QRLoginResultView {
        QRLoginResultView {
            success: self.success,
            message: self.message@,
            cookie_path: self.cookie_path.deep_view(),
        }
    }
}

impl DeepView for QRLoginResult {
    type V = QRLoginResultView;

    open spec fn deep_view(&self) -> QRLoginResultView {
        self@
    }
}

/// One job of the acquisition engine.
///
/// `retry_interval_ms` is the pause between two attempts in milliseconds,
/// 0 standing for the default; `max_retries` of 0 or less means no bound.
#[derive(Debug)]
pub struct GrabConfig {
    pub unit_id: String,
    pub unit_name: String,
    pub dep_id: String,
    pub dep_name: String,
    pub doctor_ids: Vec<String>,
    pub member_id: String,
    pub member_name: String,
    pub target_dates: Vec<String>,
    pub time_types: Vec<String>,
    pub preferred_hours: Vec<String>,
    pub address_id: String,
    pub address: String,
    pub start_time: String,
    pub use_server_time: bool,
    pub retry_interval_ms: u64,
    pub max_retries: i32,
    pub use_proxy_submit: bool,
}

pub struct GrabConfigView {
    pub unit_id: Seq<char>,
    pub unit_name: Seq<char>,
    pub dep_id: Seq<char>,
    pub dep_name: Seq<char>,
    pub doctor_ids: Seq<Seq<char>>,
    pub member_id: Seq<char>,
    pub member_name: Seq<char>,
    pub target_dates: Seq<Seq<char>>,
    pub time_types: Seq<Seq<char>>,
    pub preferred_hours: Seq<Seq<char>>,
    pub address_id: Seq<char>,
    pub address: Seq<char>,
    pub start_time: Seq<char>,
    pub use_server_time: bool,
    pub retry_interval_ms: u64,
    pub max_retries: i32,
    pub use_proxy_submit: bool,
}

impl View for GrabConfig {
    type V = GrabConfigView;

    open spec fn view(&self) -> GrabConfigView {
        GrabConfigView {
            unit_id: self.unit_id@,
            unit_name: self.unit_name@,
            dep_id: self.dep_id@,
            dep_name: self.dep_name@,
            doctor_ids: self.doctor_ids.deep_view(),
            member_id: self.member_id@,
            member_name: self.member_name@,
            target_dates: self.target_dates.deep_view(),
            time_types: self.time_types.deep_view(),
            preferred_hours: self.preferred_hours.deep_view(),
            address_id: self.address_id@,
            address: self.address@,
            start_time: self.start_time@,
            use_server_time: self.use_server_time,
            retry_interval_ms: self.retry_interval_ms,
            max_retries: self.max_retries,
            use_proxy_submit: self.use_proxy_submit,
        }
    }
}

impl DeepView for GrabConfig {
    type V = GrabConfigView;

    open spec fn deep_view(&self) -> GrabConfigView {
        self@
    }
}

/// The names that a successful run reports.
#[derive(Debug)]
pub struct GrabSuccess {
    pub unit_name: String,
    pub dep_name: String,
    pub doctor_name: String,
    pub date: String,
    pub time_slot: String,
    pub member_name: String,
    pub url: Option<String>,
}

pub struct GrabSuccessView {
    pub unit_name: Seq<char>,
    pub dep_name: Seq<char>,
    pub doctor_name: Seq<char>,
    pub date: Seq<char>,
    pub time_slot: Seq<char>,
    pub member_name: Seq<char>,
    pub url: Option<Seq<char>>,
}

impl View for GrabSuccess {
    type V = GrabSuccessView;

    open spec fn view(&self) -> GrabSuccessView {
        GrabSuccessView {
            unit_name: self.unit_name@,
            dep_name: self.dep_name@,
            doctor_name: self.doctor_name@,
            date: self.date@,
            time_slot: self.time_slot@,
            member_name: self.member_name@,
            url: self.url.deep_view(),
        }
    }
}

impl DeepView for GrabSuccess {
    type V = GrabSuccessView;

    open spec fn deep_view(&self) -> GrabSuccessView {
        self@
    }
}

/// How a run ended: produced once per run.
#[derive(Debug)]
pub struct GrabResult {
    pub success: bool,
    pub message: String,
    pub detail: Option<GrabSuccess>,
}

pub struct GrabResultView {
    pub success: bool,
    pub message: Seq<char>,
    pub detail: Option<GrabSuccessView>,
}

impl View for GrabResult {
    type V = GrabResultView;

    open spec fn view(&self) -> GrabResultView {
        GrabResultView {
            success: self.success,
            message: self.message@,
            detail: self.detail.deep_view(),
        }
    }
}

impl DeepView for GrabResult {
    type V = GrabResultView;

    open spec fn deep_view(&self) -> GrabResultView {
        self@
    }
}

/// One cookie of the session.
#[derive(Debug)]
pub struct CookieRecord {
    pub name: String,
    pub value: String,
    pub domain: String,
    pub path: String,
}

pub struct CookieRecordView {
    pub name: Seq<char>,
    pub value: Seq<char>,
    pub domain: Seq<char>,
    pub path: Seq<char>,
}

impl View for CookieRecord {
    type V = CookieRecordView;

    open spec fn view(&self) -> CookieRecordView {
        CookieRecordView {
            name: self.name@,
            value: self.value@,
            domain: self.domain@,
            path: self.path@,
        }
    }
}

impl DeepView for CookieRecord {
    type V = CookieRecordView;

    open spec fn deep_view(&self) -> CookieRecordView {
        self@
    }
}

impl Clone for CookieRecord {
    fn clone(&self) -> (r: Self)
        ensures
            r@ == self@,
    {
        CookieRecord {
            name: self.name.clone(),
            value: self.value.clone(),
            domain: self.domain.clone(),
            path: self.path.clone(),
        }
    }
}

/// A city of the reference list.
#[derive(Debug)]
pub struct City {
    pub city_id: String,
    pub name: String,
}

/// A hospital.
#[derive(Debug)]
pub struct Hospital {
    pub unit_id: String,
    pub unit_name: String,
}

/// A department, with the departments below it.
#[derive(Debug)]
pub struct Department {
    pub dep_id: String,
    pub dep_name: String,
    pub childs: Vec<Department>,
}

/// One line of the log.
#[derive(Debug)]
pub struct LogEntry {
    pub time: String,
    pub level: String,
    pub message: String,
}

pub struct LogEntryView {
    pub time: Seq<char>,
    pub level: Seq<char>,
    pub message: Seq<char>,
}

impl View for LogEntry {
    type V = LogEntryView;

    open spec fn view(&self) -> LogEntryView {
        LogEntryView { time: self.time@, level: self.level@, message: self.message@ }
    }
}

impl DeepView for LogEntry {
    type V = LogEntryView;

    open spec fn deep_view(&self) -> LogEntryView {
        self@
    }
}

/// One bookable unit under a doctor on a date.
#[derive(Debug)]
pub struct ScheduleSlot {
    pub schedule_id: String,
    pub time_type: String,
    pub time_type_desc: String,
    pub left_num: i32,
    pub sch_date: String,
}

pub struct ScheduleSlotView {
    pub schedule_id: Seq<char>,
    pub time_type: Seq<char>,
    pub time_type_desc: Seq<char>,
    pub left_num: i32,
    pub sch_date: Seq<char>,
}

impl View for ScheduleSlot {
    type V = ScheduleSlotView;

    open spec fn view(&self) -> ScheduleSlotView {
        ScheduleSlotView {
            schedule_id: self.schedule_id@,
            time_type: self.time_type@,
            time_type_desc: self.time_type_desc@,
            left_num: self.left_num,
            sch_date: self.sch_date@,
        }
    }
}

impl DeepView for ScheduleSlot {
    type V = ScheduleSlotView;

    open spec fn deep_view(&self) -> ScheduleSlotView {
        self@
    }
}

impl Clone for ScheduleSlot {
    fn clone(&self) -> (r: Self)
        ensures
            r@ == self@,
    {
        ScheduleSlot {
            schedule_id: self.schedule_id.clone(),
            time_type: self.time_type.clone(),
            time_type_desc: self.time_type_desc.clone(),
            left_num: self.left_num,
            sch_date: self.sch_date.clone(),
        }
    }
}

/// A doctor with the slots of one date.
#[derive(Debug)]
pub struct DoctorSchedule {
    pub doctor_id: String,
    pub doctor_name: String,
    pub reg_fee: String,
    pub total_left_num: i32,
    pub his_doc_id: String,
    pub his_dep_id: String,
    pub schedules: Vec<ScheduleSlot>,
    pub schedule_id: String,
    pub time_type_desc: String,
}

pub struct DoctorScheduleView {
    pub doctor_id: Seq<char>,
    pub doctor_name: Seq<char>,
    pub reg_fee: Seq<char>,
    pub total_left_num: i32,
    pub his_doc_id: Seq<char>,
    pub his_dep_id: Seq<char>,
    pub schedules: Seq<ScheduleSlotView>,
    pub schedule_id: Seq<char>,
    pub time_type_desc: Seq<char>,
}

impl View for DoctorSchedule {
    type V = DoctorScheduleView;

    open spec fn view(&self) -> DoctorScheduleView {
        DoctorScheduleView {
            doctor_id: self.doctor_id@,
            doctor_name: self.doctor_name@,
            reg_fee: self.reg_fee@,
            total_left_num: self.total_left_num,
            his_doc_id: self.his_doc_id@,
            his_dep_id: self.his_dep_id@,
            schedules: self.schedules.deep_view(),
            schedule_id: self.schedule_id@,
            time_type_desc: self.time_type_desc@,
        }
    }
}

impl DeepView for DoctorSchedule {
    type V = DoctorScheduleView;

    open spec fn deep_view(&self) -> DoctorScheduleView {
        self@
    }
}

/// What the interface remembers of the user's last choices.
#[derive(Debug)]
pub struct UserState {
    pub city_id: String,
    pub unit_id: Option<String>,
    pub dep_id: Option<String>,
    pub doctor_id: Option<String>,
    pub member_id: Option<String>,
    pub target_date: String,
    pub target_dates: Vec<String>,
    pub time_slots: Vec<String>,
    pub proxy_submit_enabled: bool,
}

pub struct UserStateView {
    pub city_id: Seq<char>,
    pub unit_id: Option<Seq<char>>,
    pub dep_id: Option<Seq<char>>,
    pub doctor_id: Option<Seq<char>>,
    pub member_id: Option<Seq<char>>,
    pub target_date: Seq<char>,
    pub target_dates: Seq<Seq<char>>,
    pub time_slots: Seq<Seq<char>>,
    pub proxy_submit_enabled: bool,
}

impl View for UserState {
    type V = UserStateView;

    open spec fn view(&self) -> UserStateView {
        UserStateView {
            city_id: self.city_id@,
            unit_id: self.unit_id.deep_view(),
            dep_id: self.dep_id.deep_view(),
            doctor_id: self.doctor_id.deep_view(),
            member_id: self.member_id.deep_view(),
            target_date: self.target_date@,
            target_dates: self.target_dates.deep_view(),
            time_slots: self.time_slots.deep_view(),
            proxy_submit_enabled: self.proxy_submit_enabled,
        }
    }
}

impl DeepView for UserState {
    type V = UserStateView;

    open spec fn deep_view(&self) -> UserStateView {
        self@
    }
}

impl UserStateView {
    /// The state in which nothing is chosen.
    pub open spec fn empty() -> UserStateView {
        UserStateView {
            city_id: Seq::empty(),
            unit_id: None,
            dep_id: None,
            doctor_id: None,
            member_id: None,
            target_date: Seq::empty(),
            target_dates: Seq::empty(),
            time_slots: Seq::empty(),
            proxy_submit_enabled: false,
        }
    }
}

impl Default for UserState {
    fn default() -> (r: Self)
        ensures
            r@ == UserStateView::empty(),
    {
        let r = UserState {
            city_id: String::new(),
            unit_id: None,
            dep_id: None,
            doctor_id: None,
            member_id: None,
            target_date: String::new(),
            target_dates: Vec::new(),
            time_slots: Vec::new(),
            proxy_submit_enabled: false,
        };
        assert(r.target_dates.deep_view() =~= Seq::empty());
        assert(r.time_slots.deep_view() =~= Seq::empty());
        r
    }
}

/// The value that a boolean option takes when the input leaves it out.
pub fn default_true() -> (r: bool)
    ensures
        r,
{
    true
}

/// The domain of a cookie that names none: the site's root domain.
pub fn default_domain() -> (r: String)
    ensures
        r@ == ".91160.com"@,
{
    String::from_str(".91160.com")
}

/// The path of a cookie that names none.
pub fn default_path() -> (r: String)
    ensures
        r@ == "/"@,
{
    String::from_str("/")
}

/// The city that is taken when none is chosen.
pub fn default_city_id() -> (r: String)
    ensures
        r@ == "5"@,
{
    String::from_str("5")
}

/// The times of day that are taken when none is chosen: morning and afternoon.
pub fn default_time_slots() -> (r: Vec<String>)
    ensures
        r.deep_view() == seq!["am"@, "pm"@],
{
    let mut r: Vec<String> = Vec::new();
    r.push(String::from_str("am"));
    r.push(String::from_str("pm"));
    assert(r.deep_view() =~= seq!["am"@, "pm"@]);
    r
}

} // verus!
