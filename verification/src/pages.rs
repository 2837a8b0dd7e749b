//! The reading of the site's pages: the booking page of a slot, the list of
//! patients, and the small decisions around the other requests.

use vstd::prelude::*;
use vstd::string::StringExecFns;
use crate::adapters::{
    html_nested_selection, html_selection, parse_rfc2822_millis, rfc2822_millis, select_elements,
    select_groups, ScrapedElement,
};
use crate::grabber::{is_placeholder, is_placeholder_text};
use crate::text::{
    contains, contains_seq, lowercase_of, remove_all, str_eq, strip_leading, to_lowercase, trim,
    trimmed, without_all, without_leading,
};
use crate::types::{
    AddressOption, AddressOptionView, Member, MemberView, TicketDetail, TicketDetailView, TimeSlot,
    TimeSlotView,
};

verus! {

/// An element as a selection hands it out: its text, and the value of the attribute asked for.
pub type Found = (Seq<char>, Option<Seq<char>>);

/// The value of the attribute, empty where the element has none.
pub open spec fn attr_or_empty(e: Found) -> Seq<char> {
    match e.1 {
        Some(v) => v,
        None => Seq::empty(),
    }
}

/// The time that one entry of the page's list of times offers: none where the entry carries no value.
pub open spec fn time_slot_entry(e: Found) -> Option<TimeSlotView> {
    if attr_or_empty(e).len() > 0 {
        Some(TimeSlotView { name: trimmed(e.0), value: attr_or_empty(e) })
    } else {
        None
    }
}

/// The times that the booking page offers.
pub open spec fn page_time_slots(html: Seq<char>) -> Seq<TimeSlotView> {
    match html_selection(html, "#delts li"@, "val"@) {
        Some(found) => found.filter_map(|e: Found| time_slot_entry(e)),
        None => Seq::empty(),
    }
}

/// The value of the first input that `selectors` find: the selectors are
/// tried in order, and one counts where its first element has a value.
pub open spec fn input_value_of(html: Seq<char>, selectors: Seq<Seq<char>>) -> Seq<char>
    decreases selectors.len(),
{
    if selectors.len() == 0 {
        Seq::empty()
    } else {
        match html_selection(html, selectors[0], "value"@) {
            Some(found) => if found.len() > 0 && found[0].1 is Some {
                trimmed(found[0].1->0)
            } else {
                input_value_of(html, selectors.drop_first())
            },
            None => input_value_of(html, selectors.drop_first()),
        }
    }
}

/// The address that one option of the page's list stands for: none where
/// the option has no identifier (`0` and `-1` stand for none), no text, or a
/// text that is a prompt of the page.
pub open spec fn address_entry(e: Found) -> Option<AddressOptionView> {
    let id = trimmed(attr_or_empty(e));
    let text = trimmed(e.0);
    if id.len() > 0 && id != "0"@ && id != "-1"@ && text.len() > 0 && !is_placeholder(text) {
        Some(AddressOptionView { id, text })
    } else {
        None
    }
}

/// The addresses of the first list that `selectors` find: the selectors are
/// tried in order, and one counts where it finds an element.
pub open spec fn page_addresses(html: Seq<char>, selectors: Seq<Seq<char>>) -> Seq<
    AddressOptionView,
>
    decreases selectors.len(),
{
    if selectors.len() == 0 {
        Seq::empty()
    } else {
        match html_nested_selection(html, selectors[0], "value"@, "option"@, "value"@) {
            Some(groups) => if groups.len() > 0 {
                groups[0].1.filter_map(|e: Found| address_entry(e))
            } else {
                page_addresses(html, selectors.drop_first())
            },
            None => page_addresses(html, selectors.drop_first()),
        }
    }
}

/// The selectors that find the list of addresses.
pub open spec fn address_list_selectors() -> Seq<Seq<char>> {
    seq!["select[name='addressId']"@, "#addressId"@, "#useraddress_area"@]
}

/// What the booking page holds.
pub open spec fn ticket_detail_of(html: Seq<char>) -> TicketDetailView {
    let addresses = page_addresses(html, address_list_selectors());
    let own_id = input_value_of(html, seq!["input[name='addressId']"@, "#addressId"@]);
    let own_text = input_value_of(html, seq!["input[name='address']"@, "#address"@]);
    TicketDetailView {
        times: page_time_slots(html),
        time_slots: page_time_slots(html),
        sch_data: input_value_of(html, seq!["input[name='sch_data']"@]),
        detlid_realtime: input_value_of(html, seq!["#detlid_realtime"@]),
        level_code: input_value_of(html, seq!["#level_code"@]),
        sch_date: input_value_of(html, seq!["input[name='sch_date']"@, "#sch_date"@]),
        order_no: input_value_of(html, seq!["input[name='order_no']"@, "#order_no"@]),
        disease_content: input_value_of(
            html,
            seq!["input[name='disease_content']"@, "#disease_content"@],
        ),
        disease_input: input_value_of(
            html,
            seq!["textarea[name='disease_input']"@, "#disease_input"@],
        ),
        is_hot: input_value_of(html, seq!["input[name='is_hot']"@, "#is_hot"@]),
        his_mem_id: input_value_of(html, seq!["input[name='hisMemId']"@, "#hismemid"@]),
        address_id: if own_id.len() == 0 && addresses.len() > 0 {
            addresses[0].id
        } else {
            own_id
        },
        address: if own_text.len() == 0 && addresses.len() > 0 {
            addresses[0].text
        } else {
            own_text
        },
        addresses,
    }
}

/// The times that the booking page offers.
pub fn parse_time_slots(html: &str) -> (r: Vec<TimeSlot>)
    ensures
        r.deep_view() == page_time_slots(html@),
{
    let mut out: Vec<TimeSlot> = Vec::new();
    assert(out.deep_view() =~= Seq::empty());
    let found = match select_elements(html, "#delts li", "val") {
        Some(found) => found,
        None => {
            return out;
        },
    };
    let ghost f = |e: Found| time_slot_entry(e);
    let ghost s = found.deep_view();
    let mut i: usize = 0;
    assert(out.deep_view() =~= s.take(0).filter_map(f));
    while i < found.len()
        invariant
            i <= found.len(),
            s == found.deep_view(),
            f == |e: Found| time_slot_entry(e),
            out.deep_view() == s.take(i as int).filter_map(f),
        decreases found.len() - i,
    {
        proof {
            s.lemma_filter_map_take_succ(f, i as int);
            assert(s[i as int] == found[i as int].deep_view());
        }
        let ghost before = out.deep_view();
        let mut pushed = false;
        match &found[i].attr {
            Some(value) => {
                if !value.as_str().is_empty() {
                    let slot = TimeSlot {
                        name: trim(found[i].text.as_str()),
                        value: value.clone(),
                    };
                    out.push(slot);
                    assert(out.deep_view() =~= before + seq![slot@]);
                    pushed = true;
                }
            },
            None => {},
        }
        if !pushed {
            assert(out.deep_view() =~= before + Seq::<TimeSlotView>::empty());
        }
        i += 1;
    }
    assert(s.take(i as int) =~= s);
    out
}

/// The value of the first input that `selectors` find.
pub fn input_value(html: &str, selectors: &Vec<String>) -> (r: String)
    ensures
        r@ == input_value_of(html@, selectors.deep_view()),
{
    let ghost s = selectors.deep_view();
    let mut i: usize = 0;
    assert(s.skip(0) =~= s);
    while i < selectors.len()
        invariant
            i <= selectors.len(),
            s == selectors.deep_view(),
            input_value_of(html@, s) == input_value_of(html@, s.skip(i as int)),
        decreases selectors.len() - i,
    {
        proof {
            assert(s.skip(i as int)[0] == selectors[i as int]@);
            assert(s.skip(i as int).drop_first() =~= s.skip(i as int + 1));
        }
        match select_elements(html, selectors[i].as_str(), "value") {
            Some(found) => {
                if found.len() > 0 {
                    assert(found.deep_view()[0] == found[0].deep_view());
                    match &found[0].attr {
                        Some(value) => {
                            return trim(value.as_str());
                        },
                        None => {},
                    }
                }
            },
            None => {},
        }
        i += 1;
    }
    String::new()
}

/// The value of the input that one selector finds, or else a second one.
fn input_value2(html: &str, first: &str, second: &str) -> (r: String)
    ensures
        r@ == input_value_of(html@, seq![first@, second@]),
{
    let mut selectors: Vec<String> = Vec::new();
    selectors.push(String::from_str(first));
    selectors.push(String::from_str(second));
    assert(selectors.deep_view() =~= seq![first@, second@]);
    input_value(html, &selectors)
}

/// The value of the input that one selector finds.
fn input_value1(html: &str, only: &str) -> (r: String)
    ensures
        r@ == input_value_of(html@, seq![only@]),
{
    let mut selectors: Vec<String> = Vec::new();
    selectors.push(String::from_str(only));
    assert(selectors.deep_view() =~= seq![only@]);
    input_value(html, &selectors)
}

/// The addresses that the options of one list stand for.
fn read_options(items: &Vec<ScrapedElement>) -> (r: Vec<AddressOption>)
    ensures
        r.deep_view() == items.deep_view().filter_map(|e: Found| address_entry(e)),
{
    let ghost f = |e: Found| address_entry(e);
    let ghost s = items.deep_view();
    let mut out: Vec<AddressOption> = Vec::new();
    let mut i: usize = 0;
    assert(out.deep_view() =~= s.take(0).filter_map(f));
    while i < items.len()
        invariant
            i <= items.len(),
            s == items.deep_view(),
            f == |e: Found| address_entry(e),
            out.deep_view() == s.take(i as int).filter_map(f),
        decreases items.len() - i,
    {
        proof {
            s.lemma_filter_map_take_succ(f, i as int);
            assert(s[i as int] == items[i as int].deep_view());
        }
        let ghost before = out.deep_view();
        let id = match &items[i].attr {
            Some(v) => trim(v.as_str()),
            None => trim(String::new().as_str()),
        };
        let text = trim(items[i].text.as_str());
        if !id.as_str().is_empty() && !str_eq(id.as_str(), "0") && !str_eq(id.as_str(), "-1")
            && !text.as_str().is_empty() && !is_placeholder_text(text.as_str()) {
            let option = AddressOption { id, text };
            out.push(option);
            assert(out.deep_view() =~= before + seq![option@]);
        } else {
            assert(out.deep_view() =~= before + Seq::<AddressOptionView>::empty());
        }
        i += 1;
    }
    assert(s.take(i as int) =~= s);
    out
}

/// The addresses of the first list that `selectors` find.
pub fn parse_addresses(html: &str, selectors: &Vec<String>) -> (r: Vec<AddressOption>)
    ensures
        r.deep_view() == page_addresses(html@, selectors.deep_view()),
{
    let ghost s = selectors.deep_view();
    let mut i: usize = 0;
    assert(s.skip(0) =~= s);
    while i < selectors.len()
        invariant
            i <= selectors.len(),
            s == selectors.deep_view(),
            page_addresses(html@, s) == page_addresses(html@, s.skip(i as int)),
        decreases selectors.len() - i,
    {
        proof {
            assert(s.skip(i as int)[0] == selectors[i as int]@);
            assert(s.skip(i as int).drop_first() =~= s.skip(i as int + 1));
        }
        match select_groups(html, selectors[i].as_str(), "value", "option", "value") {
            Some(groups) => {
                if groups.len() > 0 {
                    assert(groups.deep_view()[0] == groups[0].deep_view());
                    return read_options(&groups[0].items);
                }
            },
            None => {},
        }
        i += 1;
    }
    let none: Vec<AddressOption> = Vec::new();
    assert(none.deep_view() =~= Seq::empty());
    none
}

/// Reads the booking page of a slot: the times on offer, the tokens of a
/// submission, and the address, which falls back to the first option of the
/// page's list that is an address where the page names none of its own.
pub fn parse_ticket_detail(html: &str) -> (r: TicketDetail)
    ensures
        r@ == ticket_detail_of(html@),
{
    let times = parse_time_slots(html);
    let time_slots = parse_time_slots(html);
    let mut list_selectors: Vec<String> = Vec::new();
    list_selectors.push(String::from_str("select[name='addressId']"));
    list_selectors.push(String::from_str("#addressId"));
    list_selectors.push(String::from_str("#useraddress_area"));
    assert(list_selectors.deep_view() =~= address_list_selectors());
    let addresses = parse_addresses(html, &list_selectors);
    let mut address_id = input_value2(html, "input[name='addressId']", "#addressId");
    let mut address = input_value2(html, "input[name='address']", "#address");
    if addresses.len() > 0 {
        assert(addresses.deep_view()[0] == addresses[0]@);
        if address_id.as_str().is_empty() {
            address_id = addresses[0].id.clone();
        }
        if address.as_str().is_empty() {
            address = addresses[0].text.clone();
        }
    }
    TicketDetail {
        times,
        time_slots,
        sch_data: input_value1(html, "input[name='sch_data']"),
        detlid_realtime: input_value1(html, "#detlid_realtime"),
        level_code: input_value1(html, "#level_code"),
        sch_date: input_value2(html, "input[name='sch_date']", "#sch_date"),
        order_no: input_value2(html, "input[name='order_no']", "#order_no"),
        disease_content: input_value2(html, "input[name='disease_content']", "#disease_content"),
        disease_input: input_value2(html, "textarea[name='disease_input']", "#disease_input"),
        is_hot: input_value2(html, "input[name='is_hot']", "#is_hot"),
        his_mem_id: input_value2(html, "input[name='hisMemId']", "#hismemid"),
        address_id,
        address,
        addresses,
    }
}

/// A row as a nested selection hands it out: one attribute of the row, and its cells.
pub type FoundRow = (Option<Seq<char>>, Seq<Found>);

/// Whether the answer to the request for the list of patients is the login
/// page: its address names the login, or its body asks for it.
pub open spec fn looks_like_login(url: Seq<char>, body: Seq<char>) -> bool {
    contains_seq(lowercase_of(url), "login"@) || contains_seq(body, "登录"@)
}

/// Whether the answer to the request for the list of patients is the login page.
pub fn is_login_page(url: &str, body: &str) -> (r: bool)
    ensures
        r == looks_like_login(url@, body@),
{
    let lower = to_lowercase(url);
    contains(lower.as_str(), "login") || contains(body, "登录")
}

/// Whether one of the cells says that the patient is certified.
pub open spec fn any_certified(cells: Seq<Found>) -> bool {
    exists|i: int| 0 <= i < cells.len() && contains_seq((#[trigger] cells[i]).0, "认证"@)
}

/// The identifier of a row: its `id` without the `mem` in front.
pub open spec fn member_id_of(row: FoundRow) -> Seq<char> {
    without_leading(
        match row.0 {
            Some(v) => v,
            None => Seq::empty(),
        },
        "mem"@,
    )
}

/// The patient that one row of the list stands for: none for a row without
/// cells, and none for a row with neither identifier nor name.
pub open spec fn member_of(row: FoundRow) -> Option<MemberView> {
    if row.1.len() == 0 {
        None
    } else {
        let id = member_id_of(row);
        let name = without_all(trimmed(row.1[0].0), "默认"@);
        if id.len() == 0 && name.len() == 0 {
            None
        } else {
            Some(MemberView { id, name, certified: any_certified(row.1) })
        }
    }
}

/// The patients that the page lists; none where the page is the login page.
pub open spec fn members_of(url: Seq<char>, body: Seq<char>) -> Seq<MemberView> {
    if looks_like_login(url, body) {
        Seq::empty()
    } else {
        match html_nested_selection(body, "tbody#mem_list tr"@, "id"@, "td"@, "id"@) {
            Some(rows) => rows.filter_map(|row: FoundRow| member_of(row)),
            None => Seq::empty(),
        }
    }
}

/// Whether one of the cells says that the patient is certified.
fn has_certified_cell(cells: &Vec<ScrapedElement>) -> (r: bool)
    ensures
        r == any_certified(cells.deep_view()),
{
    let ghost s = cells.deep_view();
    let mut i: usize = 0;
    while i < cells.len()
        invariant
            i <= cells.len(),
            s == cells.deep_view(),
            forall|k: int| 0 <= k < i ==> !contains_seq((#[trigger] s[k]).0, "认证"@),
        decreases cells.len() - i,
    {
        assert(s[i as int] == cells[i as int].deep_view());
        if contains(cells[i].text.as_str(), "认证") {
            return true;
        }
        i += 1;
    }
    false
}

/// Reads the list of patients from the page that shows it. The login page
/// in its place yields an empty list, not an error.
pub fn parse_members(url: &str, body: &str) -> (r: Vec<Member>)
    ensures
        r.deep_view() == members_of(url@, body@),
{
    let mut out: Vec<Member> = Vec::new();
    assert(out.deep_view() =~= Seq::empty());
    if is_login_page(url, body) {
        return out;
    }
    let rows = match select_groups(body, "tbody#mem_list tr", "id", "td", "id") {
        Some(rows) => rows,
        None => {
            return out;
        },
    };
    let ghost f = |row: FoundRow| member_of(row);
    let ghost s = rows.deep_view();
    let mut i: usize = 0;
    assert(out.deep_view() =~= s.take(0).filter_map(f));
    while i < rows.len()
        invariant
            i <= rows.len(),
            s == rows.deep_view(),
            f == |row: FoundRow| member_of(row),
            out.deep_view() == s.take(i as int).filter_map(f),
        decreases rows.len() - i,
    {
        proof {
            s.lemma_filter_map_take_succ(f, i as int);
            assert(s[i as int] == rows[i as int].deep_view());
            reveal_strlit("mem");
            reveal_strlit("默认");
        }
        let ghost before = out.deep_view();
        let row = &rows[i];
        let mut pushed = false;
        if row.items.len() > 0 {
            assert(row.items.deep_view()[0] == row.items[0].deep_view());
            let raw_id = match &row.attr {
                Some(v) => v.clone(),
                None => String::new(),
            };
            let id = strip_leading(raw_id.as_str(), "mem");
            let name = remove_all(trim(row.items[0].text.as_str()).as_str(), "默认");
            if !(id.as_str().is_empty() && name.as_str().is_empty()) {
                let member = Member { id, name, certified: has_certified_cell(&row.items) };
                out.push(member);
                assert(out.deep_view() =~= before + seq![member@]);
                pushed = true;
            }
        }
        if !pushed {
            assert(out.deep_view() =~= before + Seq::<MemberView>::empty());
        }
        i += 1;
    }
    assert(s.take(i as int) =~= s);
    out
}

/// Whether the session is valid: the probe of a page for logged-in users
/// succeeded, or else the list of patients could be had and is not empty.
pub fn login_verdict(probe_succeeded: bool, members: Option<&Vec<Member>>) -> (r: bool)
    ensures
        r == (probe_succeeded || (members matches Some(m) && m.len() > 0)),
{
    if probe_succeeded {
        return true;
    }
    match members {
        Some(m) => m.len() > 0,
        None => false,
    }
}

/// The city whose hospitals are listed: the default city where none is given.
pub fn city_or_default(city_id: &str) -> (r: String)
    ensures
        r@ == (if city_id@.len() == 0 {
            "5"@
        } else {
            city_id@
        }),
{
    if city_id.is_empty() {
        String::from_str("5")
    } else {
        String::from_str(city_id)
    }
}

/// The host that serves a city: the city's subdomain, `www` where no city is given.
pub open spec fn city_host_of(city_pinyin: Seq<char>) -> Seq<char> {
    "https://"@ + (if city_pinyin.len() == 0 {
        "www"@
    } else {
        city_pinyin
    }) + ".91160.com"@
}

/// The origin of the requests to a city's host.
pub fn city_origin(city_pinyin: &str) -> (r: String)
    ensures
        r@ == city_host_of(city_pinyin@),
{
    let mut out = String::from_str("https://");
    if city_pinyin.is_empty() {
        out.append("www");
    } else {
        out.append(city_pinyin);
    }
    out.append(".91160.com");
    out
}

/// The address that lists the departments of a hospital, on the city's host.
pub fn departments_url(city_pinyin: &str) -> (r: String)
    ensures
        r@ == city_host_of(city_pinyin@) + "/ajax/getdepbyunit.html"@,
{
    let mut out = city_origin(city_pinyin);
    out.append("/ajax/getdepbyunit.html");
    out
}

/// The referer of the requests to a city's host.
pub fn city_referer(city_pinyin: &str) -> (r: String)
    ensures
        r@ == city_host_of(city_pinyin@) + "/"@,
{
    let mut out = city_origin(city_pinyin);
    out.append("/");
    out
}

/// The server's time in milliseconds since the start of 1970: what the
/// `Date` header of an answer says, or the local clock where the answer has
/// no such header or the header is no date.
pub fn server_time_millis(date_header: Option<&str>, local_now_ms: i64) -> (r: i64)
    ensures
        r == (match date_header {
            Some(h) => match rfc2822_millis(h@) {
                Some(t) => t,
                None => local_now_ms,
            },
            None => local_now_ms,
        }),
{
    match date_header {
        Some(h) => match parse_rfc2822_millis(h) {
            Some(t) => t,
            None => local_now_ms,
        },
        None => local_now_ms,
    }
}

} // verus!
