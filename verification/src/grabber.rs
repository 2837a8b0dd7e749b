//! The rules of the acquisition engine: which slot is taken, which time and
//! which address are submitted, and how submissions are paced.

use vstd::prelude::*;
use vstd::string::StringExecFns;
use crate::adapters::random_in_range;
use crate::text::{contains, contains_seq, str_eq, trim, trimmed};
use crate::types::{
    AddressOptionView, GrabConfig, GrabConfigView, TicketDetail, TicketDetailView, TimeSlot,
    TimeSlotView,
};

verus! {

/// The longest pause, in milliseconds, before the schedule of a date is asked for.
pub const DATE_QUERY_JITTER_MAX_MS: u64 = 40;

/// The least time, in milliseconds, between two submissions.
pub const SUBMIT_MIN_INTERVAL_MS: u64 = 1800;

/// The shortest pause, in milliseconds, after the site said that submissions come too fast.
pub const SUBMIT_BACKOFF_MIN_MS: u64 = 2500;

/// The longest pause, in milliseconds, after the site said that submissions come too fast.
pub const SUBMIT_BACKOFF_MAX_MS: u64 = 4200;

/// The pause between two attempts, in milliseconds, where the job names none.
pub const DEFAULT_RETRY_INTERVAL_MS: u64 = 500;

/// What a job lacks, if anything: the first of unit, department, member and
/// dates that is empty.
pub open spec fn validation_error(c: GrabConfigView) -> Option<Seq<char>> {
    if c.unit_id.len() == 0 {
        Some("unit_id is required"@)
    } else if c.dep_id.len() == 0 {
        Some("dep_id is required"@)
    } else if c.member_id.len() == 0 {
        Some("member_id is required"@)
    } else if c.target_dates.len() == 0 {
        Some("target_dates is required"@)
    } else {
        None
    }
}

impl GrabConfig {
    /// Accepts a job that names a unit, a department, a member and at least
    /// one date, and says of any other what it lacks.
    pub fn validate(&self) -> (r: Result<(), String>)
        ensures
            r is Ok <==> self@.unit_id.len() > 0 && self@.dep_id.len() > 0 && self@.member_id.len()
                > 0 && self@.target_dates.len() > 0,
            match r {
                Ok(_) => validation_error(self@) is None,
                Err(m) => validation_error(self@) == Some(m@),
            },
    {
        if self.unit_id.as_str().is_empty() {
            return Err(String::from_str("unit_id is required"));
        }
        if self.dep_id.as_str().is_empty() {
            return Err(String::from_str("dep_id is required"));
        }
        if self.member_id.as_str().is_empty() {
            return Err(String::from_str("member_id is required"));
        }
        if self.target_dates.len() == 0 {
            return Err(String::from_str("target_dates is required"));
        }
        Ok(())
    }
}

/// The first slot of `slots` whose label is `name`.
pub open spec fn slot_named(slots: Seq<TimeSlotView>, name: Seq<char>) -> Option<TimeSlotView>
    decreases slots.len(),
{
    if slots.len() == 0 {
        None
    } else if slots[0].name == name {
        Some(slots[0])
    } else {
        slot_named(slots.drop_first(), name)
    }
}

/// The slot that the first label of `preferred` finds among `slots`, labels
/// that find none being passed over.
pub open spec fn preferred_slot(slots: Seq<TimeSlotView>, preferred: Seq<Seq<char>>) -> Option<
    TimeSlotView,
>
    decreases preferred.len(),
{
    if preferred.len() == 0 {
        None
    } else {
        match slot_named(slots, preferred[0]) {
            Some(s) => Some(s),
            None => preferred_slot(slots, preferred.drop_first()),
        }
    }
}

/// The time that is booked: the preferred one where a preference matches,
/// else the first that is offered; an empty slot where none is offered.
pub open spec fn picked_slot(slots: Seq<TimeSlotView>, preferred: Seq<Seq<char>>) -> TimeSlotView {
    if slots.len() == 0 {
        TimeSlotView { name: Seq::empty(), value: Seq::empty() }
    } else {
        match preferred_slot(slots, preferred) {
            Some(s) => s,
            None => slots[0],
        }
    }
}

/// The index of the first slot of `slots` whose label is `name`.
fn find_slot(slots: &[TimeSlot], name: &str) -> (r: Option<usize>)
    ensures
        match r {
            Some(i) => i < slots.len() && slot_named(slots.deep_view(), name@) == Some(
                slots[i as int]@,
            ),
            None => slot_named(slots.deep_view(), name@) is None,
        },
{
    let ghost s = slots.deep_view();
    let mut i: usize = 0;
    assert(s.skip(0) =~= s);
    while i < slots.len()
        invariant
            i <= slots.len(),
            s == slots.deep_view(),
            slot_named(s, name@) == slot_named(s.skip(i as int), name@),
        decreases slots.len() - i,
    {
        if str_eq(slots[i].name.as_str(), name) {
            return Some(i);
        }
        proof {
            assert(s.skip(i as int).drop_first() =~= s.skip(i as int + 1));
        }
        i += 1;
    }
    None
}

/// Picks the time to book: the first label of `preferred` that names one of
/// `slots` decides; without such a label the first slot is taken.
pub fn pick_time_slot(slots: &[TimeSlot], preferred: &[String]) -> (r: TimeSlot)
    ensures
        r@ == picked_slot(slots.deep_view(), preferred.deep_view()),
{
    if slots.len() == 0 {
        return TimeSlot { name: String::new(), value: String::new() };
    }
    let ghost s = slots.deep_view();
    let ghost p = preferred.deep_view();
    let mut k: usize = 0;
    assert(p.skip(0) =~= p);
    while k < preferred.len()
        invariant
            k <= preferred.len(),
            s == slots.deep_view(),
            p == preferred.deep_view(),
            preferred_slot(s, p) == preferred_slot(s, p.skip(k as int)),
        decreases preferred.len() - k,
    {
        match find_slot(slots, preferred[k].as_str()) {
            Some(i) => {
                return slots[i].clone();
            },
            None => {},
        }
        proof {
            assert(p.skip(k as int).drop_first() =~= p.skip(k as int + 1));
        }
        k += 1;
    }
    slots[0].clone()
}

/// An address identifier as it is submitted: trimmed, and empty where the
/// page holds none (`0` and `-1` stand for none).
pub open spec fn clean_address_id(value: Seq<char>) -> Seq<char> {
    let t = trimmed(value);
    if t.len() == 0 || t == "0"@ || t == "-1"@ {
        Seq::empty()
    } else {
        t
    }
}

/// Whether a text is a prompt of the page and no address.
pub open spec fn is_placeholder(t: Seq<char>) -> bool {
    contains_seq(t, "请选择"@) || contains_seq(t, "请填写"@) || contains_seq(t, "请输入"@)
        || contains_seq(t, "城市地址"@)
}

/// An address as it is submitted: trimmed, and empty where the text is a prompt.
pub open spec fn clean_address_text(value: Seq<char>) -> Seq<char> {
    let t = trimmed(value);
    if t.len() == 0 || is_placeholder(t) {
        Seq::empty()
    } else {
        t
    }
}

/// Trims an address identifier and empties one that stands for no address.
pub fn normalize_address_id(value: &str) -> (r: String)
    ensures
        r@ == clean_address_id(value@),
{
    let t = trim(value);
    if t.as_str().is_empty() || str_eq(t.as_str(), "0") || str_eq(t.as_str(), "-1") {
        String::new()
    } else {
        t
    }
}

/// Whether a text is a prompt of the page and no address.
pub fn is_placeholder_text(text: &str) -> (r: bool)
    ensures
        r == is_placeholder(text@),
{
    contains(text, "请选择") || contains(text, "请填写") || contains(text, "请输入") || contains(
        text,
        "城市地址",
    )
}

/// Trims an address and empties one that is a prompt of the page.
pub fn normalize_address_text(value: &str) -> (r: String)
    ensures
        r@ == clean_address_text(value@),
{
    let t = trim(value);
    if t.as_str().is_empty() {
        return String::new();
    }
    if is_placeholder_text(t.as_str()) {
        return String::new();
    }
    t
}

/// Whether a message of the site says that submissions come too fast.
pub open spec fn too_fast(message: Seq<char>) -> bool {
    let t = trimmed(message);
    t.len() > 0 && (contains_seq(t, "太快"@) || contains_seq(t, "频繁"@) || contains_seq(
        t,
        "刷新"@,
    ))
}

/// Whether a message of the site says that submissions come too fast.
pub fn is_too_fast_message(message: &str) -> (r: bool)
    ensures
        r == too_fast(message@),
{
    let t = trim(message);
    if t.as_str().is_empty() {
        return false;
    }
    contains(t.as_str(), "太快") || contains(t.as_str(), "频繁") || contains(t.as_str(), "刷新")
}

/// An address with which a submission can be made: both parts are there.
pub open spec fn usable_address(id: Seq<char>, text: Seq<char>) -> bool {
    id.len() > 0 && text.len() > 0
}

/// The first option of the page that is an address, cleaned.
pub open spec fn first_usable_option(options: Seq<AddressOptionView>) -> Option<
    (Seq<char>, Seq<char>),
>
    decreases options.len(),
{
    if options.len() == 0 {
        None
    } else if usable_address(
        clean_address_id(options[0].id),
        clean_address_text(options[0].text),
    ) {
        Some((clean_address_id(options[0].id), clean_address_text(options[0].text)))
    } else {
        first_usable_option(options.drop_first())
    }
}

/// The address that a submission carries.
#[derive(Debug)]
pub struct ResolvedAddress {
    pub address_id: String,
    pub address_text: String,
    /// The address was taken from the page's list of options.
    pub from_options: bool,
}

pub struct ResolvedAddressView {
    pub address_id: Seq<char>,
    pub address_text: Seq<char>,
    pub from_options: bool,
}

impl View for ResolvedAddress {
    type V = ResolvedAddressView;

    open spec fn view(&self) -> ResolvedAddressView {
        ResolvedAddressView {
            address_id: self.address_id@,
            address_text: self.address_text@,
            from_options: self.from_options,
        }
    }
}

/// The address of a submission: that of the job where it is usable; else
/// that of the page where it is usable; else the first usable option of the
/// page. Where none is usable, what the page's own fields gave is returned.
pub open spec fn resolved_address(c: GrabConfigView, d: TicketDetailView) -> ResolvedAddressView {
    let own_id = clean_address_id(c.address_id);
    let own_text = clean_address_text(c.address);
    let page_id = clean_address_id(d.address_id);
    let page_text = clean_address_text(d.address);
    if usable_address(own_id, own_text) {
        ResolvedAddressView { address_id: own_id, address_text: own_text, from_options: false }
    } else if usable_address(page_id, page_text) {
        ResolvedAddressView { address_id: page_id, address_text: page_text, from_options: false }
    } else {
        match first_usable_option(d.addresses) {
            Some((id, text)) => ResolvedAddressView {
                address_id: id,
                address_text: text,
                from_options: true,
            },
            None => ResolvedAddressView {
                address_id: page_id,
                address_text: page_text,
                from_options: false,
            },
        }
    }
}

/// Resolves the address of a submission from the job and the booking page.
pub fn resolve_address(config: &GrabConfig, detail: &TicketDetail) -> (r: ResolvedAddress)
    ensures
        r@ == resolved_address(config@, detail@),
{
    let own_id = normalize_address_id(config.address_id.as_str());
    let own_text = normalize_address_text(config.address.as_str());
    if !own_id.as_str().is_empty() && !own_text.as_str().is_empty() {
        return ResolvedAddress { address_id: own_id, address_text: own_text, from_options: false };
    }
    let page_id = normalize_address_id(detail.address_id.as_str());
    let page_text = normalize_address_text(detail.address.as_str());
    if !page_id.as_str().is_empty() && !page_text.as_str().is_empty() {
        return ResolvedAddress {
            address_id: page_id,
            address_text: page_text,
            from_options: false,
        };
    }
    let ghost options = detail.addresses.deep_view();
    let mut i: usize = 0;
    assert(options.skip(0) =~= options);
    while i < detail.addresses.len()
        invariant
            i <= detail.addresses.len(),
            options == detail.addresses.deep_view(),
            options == detail@.addresses,
            !usable_address(clean_address_id(config@.address_id), clean_address_text(config@.address)),
            !usable_address(page_id@, page_text@),
            page_id@ == clean_address_id(detail@.address_id),
            page_text@ == clean_address_text(detail@.address),
            first_usable_option(options) == first_usable_option(options.skip(i as int)),
        decreases detail.addresses.len() - i,
    {
        assert(options.skip(i as int)[0] == detail.addresses[i as int]@);
        let id = normalize_address_id(detail.addresses[i].id.as_str());
        let text = normalize_address_text(detail.addresses[i].text.as_str());
        if !id.as_str().is_empty() && !text.as_str().is_empty() {
            return ResolvedAddress { address_id: id, address_text: text, from_options: true };
        }
        proof {
            assert(options.skip(i as int).drop_first() =~= options.skip(i as int + 1));
        }
        i += 1;
    }
    ResolvedAddress { address_id: page_id, address_text: page_text, from_options: false }
}

/// The address of the job comes first, that of the page second, the page's
/// list of options last: a usable address of the job is taken whatever the
/// page holds; without one, a usable address of the page is taken; without
/// either, the first usable option of the list.
pub proof fn lemma_address_precedence(c: GrabConfigView, d: TicketDetailView)
    ensures
        usable_address(clean_address_id(c.address_id), clean_address_text(c.address))
            ==> resolved_address(c, d) == (ResolvedAddressView {
            address_id: clean_address_id(c.address_id),
            address_text: clean_address_text(c.address),
            from_options: false,
        }),
        !usable_address(clean_address_id(c.address_id), clean_address_text(c.address))
            && usable_address(clean_address_id(d.address_id), clean_address_text(d.address))
            ==> resolved_address(c, d) == (ResolvedAddressView {
            address_id: clean_address_id(d.address_id),
            address_text: clean_address_text(d.address),
            from_options: false,
        }),
        !usable_address(clean_address_id(c.address_id), clean_address_text(c.address))
            && !usable_address(clean_address_id(d.address_id), clean_address_text(d.address))
            ==> (match first_usable_option(d.addresses) {
            Some((id, text)) => resolved_address(c, d) == (ResolvedAddressView {
                address_id: id,
                address_text: text,
                from_options: true,
            }) && usable_address(id, text),
            None => !usable_address(
                resolved_address(c, d).address_id,
                resolved_address(c, d).address_text,
            ),
        }),
        is_placeholder(trimmed(c.address)) ==> clean_address_text(c.address).len() == 0,
{
    lemma_first_usable_option_is_usable(d.addresses);
}

/// The option that the search finds is a usable address, and no option
/// before it is.
pub proof fn lemma_first_usable_option_is_usable(options: Seq<AddressOptionView>)
    ensures
        first_usable_option(options) matches Some((id, text)) ==> usable_address(id, text)
            && exists|k: int|
            0 <= k < options.len() && id == clean_address_id((#[trigger] options[k]).id) && text
                == clean_address_text(options[k].text) && forall|j: int|
                0 <= j < k ==> !usable_address(
                    clean_address_id((#[trigger] options[j]).id),
                    clean_address_text(options[j].text),
                ),
        first_usable_option(options) is None ==> forall|j: int|
            0 <= j < options.len() ==> !usable_address(
                clean_address_id((#[trigger] options[j]).id),
                clean_address_text(options[j].text),
            ),
    decreases options.len(),
{
    if options.len() > 0 {
        let rest = options.drop_first();
        lemma_first_usable_option_is_usable(rest);
        if usable_address(clean_address_id(options[0].id), clean_address_text(options[0].text)) {
            let first = options[0];
            assert(usable_address(clean_address_id(first.id), clean_address_text(first.text)));
        } else {
            match first_usable_option(rest) {
                Some((id, text)) => {
                    let k = choose|k: int|
                        0 <= k < rest.len() && id == clean_address_id((#[trigger] rest[k]).id)
                            && text == clean_address_text(rest[k].text) && forall|j: int|
                            0 <= j < k ==> !usable_address(
                                clean_address_id((#[trigger] rest[j]).id),
                                clean_address_text(rest[j].text),
                            );
                    assert(rest[k] == options[k + 1]);
                    assert forall|j: int| 0 <= j < k + 1 implies !usable_address(
                        clean_address_id((#[trigger] options[j]).id),
                        clean_address_text(options[j].text),
                    ) by {
                        if j > 0 {
                            assert(options[j] == rest[j - 1]);
                        }
                    }
                },
                None => {
                    assert forall|j: int| 0 <= j < options.len() implies !usable_address(
                        clean_address_id((#[trigger] options[j]).id),
                        clean_address_text(options[j].text),
                    ) by {
                        if j > 0 {
                            assert(options[j] == rest[j - 1]);
                        }
                    }
                },
            }
        }
    }
}

/// How long a submission that is asked for at `now_ms` has to wait, in
/// milliseconds, when the one before it went out at `last_submit_ms`: what
/// is left of the least interval, and nothing where that has passed or no
/// submission went before. A clock that reads less than the moment of the
/// last submission counts as no time passed.
pub open spec fn throttle_wait_of(last_submit_ms: Option<u128>, now_ms: u64) -> u64 {
    match last_submit_ms {
        Some(last) => if now_ms >= last {
            if now_ms - last < SUBMIT_MIN_INTERVAL_MS {
                (SUBMIT_MIN_INTERVAL_MS - (now_ms - last)) as u64
            } else {
                0
            }
        } else {
            SUBMIT_MIN_INTERVAL_MS
        },
        None => 0,
    }
}

/// The moment at which a submission that is asked for at `now_ms` goes out:
/// `now_ms` and the wait.
pub open spec fn issue_time(last_submit_ms: Option<u128>, now_ms: u64) -> int {
    now_ms + throttle_wait_of(last_submit_ms, now_ms)
}

/// How long a submission has to wait at `now_ms`, in milliseconds, when the
/// one before it went out at `last_submit_ms`.
pub fn submit_throttle_wait(last_submit_ms: Option<u128>, now_ms: u64) -> (wait: u64)
    ensures
        wait == throttle_wait_of(last_submit_ms, now_ms),
{
    match last_submit_ms {
        Some(last) => {
            let now = now_ms as u128;
            if now >= last {
                let elapsed = now - last;
                if elapsed < SUBMIT_MIN_INTERVAL_MS as u128 {
                    SUBMIT_MIN_INTERVAL_MS - (elapsed as u64)
                } else {
                    0
                }
            } else {
                SUBMIT_MIN_INTERVAL_MS
            }
        },
        None => 0,
    }
}

/// Two submissions in a row are at least the least interval apart. Where
/// the second is asked for `e` milliseconds after the first went out, it
/// waits what is left of the interval, or not at all where `e` is the
/// interval or more, and so goes out no sooner than the interval after the
/// first.
pub proof fn lemma_submissions_are_spaced(first_at: u128, now_ms: u64)
    requires
        now_ms >= first_at,
    ensures
        throttle_wait_of(Some(first_at), now_ms) == (if now_ms - first_at < SUBMIT_MIN_INTERVAL_MS {
            SUBMIT_MIN_INTERVAL_MS - (now_ms - first_at)
        } else {
            0
        }),
        issue_time(Some(first_at), now_ms) >= first_at + SUBMIT_MIN_INTERVAL_MS,
        issue_time(Some(first_at), now_ms) >= now_ms,
        throttle_wait_of(Some(first_at), now_ms) <= SUBMIT_MIN_INTERVAL_MS,
{
}

/// A pause of random length between `min_ms` and `max_ms` milliseconds; of
/// `min_ms` where `max_ms` is below it.
pub fn random_backoff_ms(min_ms: u64, max_ms: u64) -> (r: u64)
    ensures
        min_ms <= r,
        r <= if max_ms < min_ms {
            min_ms
        } else {
            max_ms
        },
{
    if min_ms == 0 && max_ms == 0 {
        return 0;
    }
    let max = if max_ms < min_ms {
        min_ms
    } else {
        max_ms
    };
    if max == min_ms {
        return max;
    }
    random_in_range(min_ms, max)
}

/// The pause before the schedule of a date is asked for: below the longest one.
pub fn random_jitter_ms() -> (r: u64)
    ensures
        r < DATE_QUERY_JITTER_MAX_MS,
{
    random_in_range(0, DATE_QUERY_JITTER_MAX_MS - 1)
}

} // verus!
