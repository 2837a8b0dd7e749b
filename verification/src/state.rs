//! What the interface remembers between two runs: a JSON object, merged over
//! the defaults and brought into shape.
//!
//! An object is a list of members; a key stands for the first member that
//! carries it, and setting a key changes that member or adds one.

use vstd::prelude::*;
use vstd::string::StringExecFns;
use crate::errors::{AppError, AppErrorView};
use crate::json::{find_member, lookup, JsonValue};
use crate::text::{lowercase_of, str_eq, to_lowercase, trim, trimmed};
use crate::types::{UserState, UserStateView};

verus! {

/// The city that is taken where the state names none.
pub open spec fn default_city() -> Seq<char> {
    "5"@
}

/// Whether a text stands for yes.
pub open spec fn says_yes(t: Seq<char>) -> bool {
    t == "1"@ || t == "true"@ || t == "yes"@ || t == "on"@
}

/// The truth value that a JSON value stands for, `fallback` where it stands
/// for none: a boolean is itself, a number is true unless it is zero, a text
/// is true where it says yes, and an empty text stands for none.
pub open spec fn bool_of(value: Option<JsonValue>, fallback: bool) -> bool {
    match value {
        Some(JsonValue::Bool(b)) => b,
        Some(JsonValue::Text(s)) => {
            let t = lowercase_of(trimmed(s@));
            if t.len() == 0 {
                fallback
            } else {
                says_yes(t)
            }
        },
        Some(JsonValue::Int(n)) => n != 0,
        Some(JsonValue::Float { written, nonzero }) => nonzero,
        _ => fallback,
    }
}

/// Reads a JSON value as a truth value.
pub fn normalize_bool(value: Option<&JsonValue>, default: bool) -> (r: bool)
    ensures
        r == bool_of(
            match value {
                Some(v) => Some(*v),
                None => None,
            },
            default,
        ),
{
    match value {
        Some(JsonValue::Bool(b)) => *b,
        Some(JsonValue::Text(s)) => {
            let t = to_lowercase(trim(s.as_str()).as_str());
            if t.as_str().is_empty() {
                return default;
            }
            str_eq(t.as_str(), "1") || str_eq(t.as_str(), "true") || str_eq(t.as_str(), "yes")
                || str_eq(t.as_str(), "on")
        },
        Some(JsonValue::Int(n)) => *n != 0,
        Some(JsonValue::Float { written, nonzero }) => *nonzero,
        _ => default,
    }
}

/// The text of a string value, trimmed, unless that is empty.
pub open spec fn trimmed_text(v: JsonValue) -> Option<Seq<char>> {
    match v {
        JsonValue::Text(s) => if trimmed(s@).len() > 0 {
            Some(trimmed(s@))
        } else {
            None
        },
        _ => None,
    }
}

/// The text of a string value.
pub open spec fn plain_text(v: JsonValue) -> Option<Seq<char>> {
    match v {
        JsonValue::Text(s) => Some(s@),
        _ => None,
    }
}

/// The texts of a list: its strings, trimmed, the empty ones dropped.
pub open spec fn trimmed_texts(items: Seq<JsonValue>) -> Seq<Seq<char>> {
    items.filter_map(|v: JsonValue| trimmed_text(v))
}

/// The strings of a list as they stand.
pub open spec fn plain_texts(items: Seq<JsonValue>) -> Seq<Seq<char>> {
    items.filter_map(|v: JsonValue| plain_text(v))
}

/// The list of texts that a value stands for: those of an array, the one of
/// a string that is not blank, none for anything else.
pub open spec fn string_array_of(value: Option<JsonValue>) -> Seq<Seq<char>> {
    match value {
        Some(JsonValue::Array(items)) => trimmed_texts(items@),
        Some(JsonValue::Text(s)) => if trimmed(s@).len() > 0 {
            seq![trimmed(s@)]
        } else {
            Seq::empty()
        },
        _ => Seq::empty(),
    }
}

/// The times of day that a value stands for: those of an array that is not
/// empty, morning and afternoon for anything else.
pub open spec fn time_slots_of(value: Option<JsonValue>) -> Seq<Seq<char>> {
    match value {
        Some(JsonValue::Array(items)) => if items@.len() > 0 {
            trimmed_texts(items@)
        } else {
            seq!["am"@, "pm"@]
        },
        _ => seq!["am"@, "pm"@],
    }
}

/// The strings of a list, trimmed, the empty ones dropped.
fn collect_trimmed(items: &Vec<JsonValue>) -> (r: Vec<String>)
    ensures
        r.deep_view() == trimmed_texts(items@),
{
    let ghost f = |v: JsonValue| trimmed_text(v);
    let mut out: Vec<String> = Vec::new();
    let mut i: usize = 0;
    assert(out.deep_view() =~= items@.take(0).filter_map(f));
    while i < items.len()
        invariant
            i <= items.len(),
            f == |v: JsonValue| trimmed_text(v),
            out.deep_view() == items@.take(i as int).filter_map(f),
        decreases items.len() - i,
    {
        proof {
            items@.lemma_filter_map_take_succ(f, i as int);
        }
        let ghost before = out.deep_view();
        let mut pushed = false;
        match &items[i] {
            JsonValue::Text(s) => {
                let t = trim(s.as_str());
                if !t.as_str().is_empty() {
                    out.push(t);
                    assert(out.deep_view() =~= before + seq![t@]);
                    pushed = true;
                }
            },
            _ => {},
        }
        if !pushed {
            assert(out.deep_view() =~= before + Seq::<Seq<char>>::empty());
        }
        i += 1;
    }
    assert(items@.take(i as int) =~= items@);
    out
}

/// The strings of a list as they stand.
fn collect_plain(items: &Vec<JsonValue>) -> (r: Vec<String>)
    ensures
        r.deep_view() == plain_texts(items@),
{
    let ghost f = |v: JsonValue| plain_text(v);
    let mut out: Vec<String> = Vec::new();
    let mut i: usize = 0;
    assert(out.deep_view() =~= items@.take(0).filter_map(f));
    while i < items.len()
        invariant
            i <= items.len(),
            f == |v: JsonValue| plain_text(v),
            out.deep_view() == items@.take(i as int).filter_map(f),
        decreases items.len() - i,
    {
        proof {
            items@.lemma_filter_map_take_succ(f, i as int);
        }
        let ghost before = out.deep_view();
        match &items[i] {
            JsonValue::Text(s) => {
                let t = s.clone();
                out.push(t);
                assert(out.deep_view() =~= before + seq![t@]);
            },
            _ => {
                assert(out.deep_view() =~= before + Seq::<Seq<char>>::empty());
            },
        }
        i += 1;
    }
    assert(items@.take(i as int) =~= items@);
    out
}

/// The texts that a list of string values holds, where it holds nothing else.
pub open spec fn holds_texts(items: Seq<JsonValue>, texts: Seq<Seq<char>>) -> bool {
    items.len() == texts.len() && forall|i: int|
        0 <= i < items.len() ==> plain_text(#[trigger] items[i]) == Some(texts[i])
}

/// A list of string values that holds `texts`.
fn text_values(texts: Vec<String>) -> (r: Vec<JsonValue>)
    ensures
        holds_texts(r@, texts.deep_view()),
{
    let ghost t = texts.deep_view();
    let mut out: Vec<JsonValue> = Vec::new();
    let mut i: usize = 0;
    while i < texts.len()
        invariant
            i <= texts.len(),
            t == texts.deep_view(),
            out.len() == i,
            forall|k: int| 0 <= k < i ==> plain_text(#[trigger] out[k]) == Some(t[k]),
        decreases texts.len() - i,
    {
        out.push(JsonValue::Text(texts[i].clone()));
        i += 1;
    }
    out
}

/// Reads a value as a list of texts.
pub fn normalize_string_array(value: Option<&JsonValue>) -> (r: Vec<JsonValue>)
    ensures
        holds_texts(
            r@,
            string_array_of(
                match value {
                    Some(v) => Some(*v),
                    None => None,
                },
            ),
        ),
{
    let texts = match value {
        Some(JsonValue::Array(items)) => collect_trimmed(items),
        Some(JsonValue::Text(s)) => {
            let t = trim(s.as_str());
            let mut one: Vec<String> = Vec::new();
            if !t.as_str().is_empty() {
                one.push(t);
                assert(one.deep_view() =~= seq![t@]);
            } else {
                assert(one.deep_view() =~= Seq::empty());
            }
            one
        },
        _ => {
            let none: Vec<String> = Vec::new();
            assert(none.deep_view() =~= Seq::empty());
            none
        },
    };
    text_values(texts)
}

/// Morning and afternoon.
fn both_times() -> (r: Vec<String>)
    ensures
        r.deep_view() == seq!["am"@, "pm"@],
{
    let mut r: Vec<String> = Vec::new();
    r.push(String::from_str("am"));
    r.push(String::from_str("pm"));
    assert(r.deep_view() =~= seq!["am"@, "pm"@]);
    r
}

/// Reads a value as a list of times of day.
pub fn normalize_time_slots(value: Option<&JsonValue>) -> (r: Vec<JsonValue>)
    ensures
        holds_texts(
            r@,
            time_slots_of(
                match value {
                    Some(v) => Some(*v),
                    None => None,
                },
            ),
        ),
{
    let texts = match value {
        Some(JsonValue::Array(items)) => if items.len() > 0 {
            collect_trimmed(items)
        } else {
            both_times()
        },
        _ => both_times(),
    };
    text_values(texts)
}

/// Sets the member `key` of an object: the first member with that key gets
/// the value, and where there is none a member is added.
pub fn set_member(fields: &mut Vec<(String, JsonValue)>, key: &str, value: JsonValue)
    ensures
        forall|k: Seq<char>|
            #[trigger] lookup(final(fields)@, k) == (if k == key@ {
                Some(value)
            } else {
                lookup(old(fields)@, k)
            }),
{
    let mut i: usize = 0;
    while i < fields.len()
        invariant
            i <= fields.len(),
            fields@ == old(fields)@,
            forall|k: int| 0 <= k < i ==> (#[trigger] fields[k]).0@ != key@,
        decreases fields.len() - i,
    {
        if str_eq(fields[i].0.as_str(), key) {
            let ghost before = fields@;
            let name = String::from_str(key);
            fields[i] = (name, value);
            proof {
                lemma_lookup_after_update(before, fields@, i as int, key@, value);
            }
            return;
        }
        i += 1;
    }
    let ghost before = fields@;
    fields.push((String::from_str(key), value));
    proof {
        lemma_lookup_after_push(before, fields@, key@, value);
    }
}

/// After the first member with a key was given a value, the key finds that
/// value and every other key finds what it found before.
proof fn lemma_lookup_after_update(
    before: Seq<(String, JsonValue)>,
    after: Seq<(String, JsonValue)>,
    i: int,
    key: Seq<char>,
    value: JsonValue,
)
    requires
        0 <= i < before.len(),
        after.len() == before.len(),
        after[i].0@ == key,
        after[i].1 == value,
        before[i].0@ == key,
        forall|k: int| 0 <= k < before.len() && k != i ==> after[k] == before[k],
        forall|k: int| 0 <= k < i ==> (#[trigger] before[k]).0@ != key,
    ensures
        forall|k: Seq<char>|
            #[trigger] lookup(after, k) == (if k == key {
                Some(value)
            } else {
                lookup(before, k)
            }),
    decreases before.len(),
{
    let b = before.drop_first();
    let a = after.drop_first();
    if i > 0 {
        assert(after[0] == before[0]);
        assert(before[0].0@ != key);
        assert forall|k: int| 0 <= k < b.len() && k != i - 1 implies a[k] == b[k] by {
            assert(a[k] == after[k + 1] && b[k] == before[k + 1]);
        }
        assert forall|k: int| 0 <= k < i - 1 implies (#[trigger] b[k]).0@ != key by {
            assert(b[k] == before[k + 1]);
        }
        lemma_lookup_after_update(b, a, i - 1, key, value);
        assert forall|k: Seq<char>| #[trigger] lookup(after, k) == (if k == key {
            Some(value)
        } else {
            lookup(before, k)
        }) by {
            assert(lookup(a, k) == (if k == key {
                Some(value)
            } else {
                lookup(b, k)
            }));
        }
    } else {
        assert(a =~= b);
    }
}

/// After a member with a key that no member carried was added, the key finds
/// its value and every other key finds what it found before.
proof fn lemma_lookup_after_push(
    before: Seq<(String, JsonValue)>,
    after: Seq<(String, JsonValue)>,
    key: Seq<char>,
    value: JsonValue,
)
    requires
        after.len() == before.len() + 1,
        forall|k: int| 0 <= k < before.len() ==> after[k] == before[k],
        after[before.len() as int].0@ == key,
        after[before.len() as int].1 == value,
        forall|k: int| 0 <= k < before.len() ==> (#[trigger] before[k]).0@ != key,
    ensures
        forall|k: Seq<char>|
            #[trigger] lookup(after, k) == (if k == key {
                Some(value)
            } else {
                lookup(before, k)
            }),
    decreases before.len(),
{
    let b = before.drop_first();
    let a = after.drop_first();
    if before.len() > 0 {
        assert(after[0] == before[0]);
        assert(before[0].0@ != key);
        assert forall|k: int| 0 <= k < b.len() implies a[k] == b[k] && (#[trigger] b[k]).0@
            != key by {
            assert(a[k] == after[k + 1] && b[k] == before[k + 1]);
        }
        assert(a[b.len() as int] == after[before.len() as int]);
        lemma_lookup_after_push(b, a, key, value);
        assert forall|k: Seq<char>| #[trigger] lookup(after, k) == (if k == key {
            Some(value)
        } else {
            lookup(before, k)
        }) by {
            assert(lookup(a, k) == (if k == key {
                Some(value)
            } else {
                lookup(b, k)
            }));
        }
    } else {
        assert(a.len() == 0);
        assert forall|k: Seq<char>| #[trigger] lookup(after, k) == (if k == key {
            Some(value)
        } else {
            lookup(before, k)
        }) by {
            assert(lookup(a, k) is None);
        }
    }
}

/// What a key finds in `base` overlaid by the first `n` members of `overlay`:
/// of the members of the overlay with that key the last, else what the base holds.
pub open spec fn overlaid(
    base: Seq<(String, JsonValue)>,
    overlay: Seq<(String, JsonValue)>,
    n: int,
    key: Seq<char>,
) -> Option<JsonValue>
    decreases n,
{
    if n <= 0 {
        lookup(base, key)
    } else if overlay[n - 1].0@ == key {
        Some(overlay[n - 1].1)
    } else {
        overlaid(base, overlay, n - 1, key)
    }
}

/// Lays one object over another: a key finds what the overlay holds for it,
/// and what the base holds where the overlay does not name it.
pub fn merge_user_state(base: Vec<(String, JsonValue)>, overlay: Vec<(String, JsonValue)>) -> (r:
    Vec<(String, JsonValue)>)
    ensures
        forall|k: Seq<char>|
            #[trigger] lookup(r@, k) == overlaid(base@, overlay@, overlay@.len() as int, k),
{
    let mut out = base;
    let mut rest = overlay;
    let ghost n: int = 0;
    assert(rest@.skip(0) =~= rest@);
    while rest.len() > 0
        invariant
            0 <= n <= overlay@.len(),
            rest@ == overlay@.skip(n),
            forall|k: Seq<char>| #[trigger] lookup(out@, k) == overlaid(base@, overlay@, n, k),
        decreases rest.len(),
    {
        let ghost before = out@;
        assert(rest@[0] == overlay@[n]);
        let pair = rest.remove(0);
        assert(rest@ =~= overlay@.skip(n + 1));
        let (key, value) = pair;
        set_member(&mut out, key.as_str(), value);
        proof {
            assert forall|k: Seq<char>| #[trigger] lookup(out@, k) == overlaid(
                base@,
                overlay@,
                n + 1,
                k,
            ) by {
                assert(lookup(before, k) == overlaid(base@, overlay@, n, k));
            }
            n = n + 1;
        }
    }
    out
}

/// The text that a value holds, trimmed, or `fallback` where it holds none
/// or a blank one.
pub open spec fn text_or(value: Option<JsonValue>, fallback: Seq<char>) -> Seq<char> {
    match value {
        Some(JsonValue::Text(s)) => if trimmed(s@).len() > 0 {
            trimmed(s@)
        } else {
            fallback
        },
        _ => fallback,
    }
}

/// The text that the member `key` holds, trimmed, or `fallback`.
fn member_text_or(fields: &Vec<(String, JsonValue)>, key: &str, fallback: &str) -> (r: String)
    ensures
        r@ == text_or(lookup(fields@, key@), fallback@),
{
    match find_member(fields, key) {
        Some(JsonValue::Text(s)) => {
            let t = trim(s.as_str());
            if t.as_str().is_empty() {
                String::from_str(fallback)
            } else {
                t
            }
        },
        _ => String::from_str(fallback),
    }
}

/// What each key finds in an object.
pub type Finder = spec_fn(Seq<char>) -> Option<JsonValue>;

/// What each key finds in `fields`.
pub open spec fn finder_of(fields: Seq<(String, JsonValue)>) -> Finder {
    |k: Seq<char>| lookup(fields, k)
}

/// Whether the state `r` is the state `from` brought into shape: city and
/// date are the texts of `from`, the defaults standing in for blank ones;
/// the dates and the times are lists of texts; the switch for the proxy is
/// a boolean; and every other key finds what it finds in `from`.
pub open spec fn in_shape(r: Seq<(String, JsonValue)>, from: Finder, default_date: Seq<char>) -> bool {
    &&& lookup(r, "city_id"@) matches Some(v) && plain_text(v) == Some(
        text_or(from("city_id"@), default_city()),
    )
    &&& lookup(r, "target_date"@) matches Some(v) && plain_text(v) == Some(
        text_or(from("target_date"@), default_date),
    )
    &&& lookup(r, "target_dates"@) matches Some(JsonValue::Array(items)) && holds_texts(
        items@,
        string_array_of(from("target_dates"@)),
    )
    &&& lookup(r, "time_slots"@) matches Some(JsonValue::Array(items)) && holds_texts(
        items@,
        time_slots_of(from("time_slots"@)),
    )
    &&& lookup(r, "proxy_submit_enabled"@) == Some(
        JsonValue::Bool(bool_of(from("proxy_submit_enabled"@), true)),
    )
    &&& forall|k: Seq<char>| !is_normalized_key(k) ==> #[trigger] lookup(r, k) == from(k)
}

/// The keys that normalizing sets.
pub open spec fn is_normalized_key(k: Seq<char>) -> bool {
    k == "city_id"@ || k == "target_date"@ || k == "target_dates"@ || k == "time_slots"@ || k
        == "proxy_submit_enabled"@
}

/// Brings a state into shape: the city and the date become texts, the dates
/// and the times lists of texts, the switch for the proxy a boolean. Every
/// other member stays as it is.
pub fn normalize_user_state(state: Vec<(String, JsonValue)>, default_date: &str) -> (r: Vec<
    (String, JsonValue),
>)
    ensures
        in_shape(r@, finder_of(state@), default_date@),
{
    proof {
        lemma_state_keys_differ();
    }
    let mut out = state;
    let city = member_text_or(&out, "city_id", "5");
    let date = member_text_or(&out, "target_date", default_date);
    let dates = normalize_string_array(find_member(&out, "target_dates"));
    let slots = normalize_time_slots(find_member(&out, "time_slots"));
    let proxy = normalize_bool(find_member(&out, "proxy_submit_enabled"), true);
    set_member(&mut out, "city_id", JsonValue::Text(city));
    set_member(&mut out, "target_date", JsonValue::Text(date));
    set_member(&mut out, "target_dates", JsonValue::Array(dates));
    set_member(&mut out, "time_slots", JsonValue::Array(slots));
    set_member(&mut out, "proxy_submit_enabled", JsonValue::Bool(proxy));
    out
}

/// The five keys that normalizing sets are five different texts.
pub proof fn lemma_state_keys_differ()
    ensures
        "city_id"@ != "target_date"@,
        "city_id"@ != "target_dates"@,
        "city_id"@ != "time_slots"@,
        "city_id"@ != "proxy_submit_enabled"@,
        "target_date"@ != "target_dates"@,
        "target_date"@ != "time_slots"@,
        "target_date"@ != "proxy_submit_enabled"@,
        "target_dates"@ != "time_slots"@,
        "target_dates"@ != "proxy_submit_enabled"@,
        "time_slots"@ != "proxy_submit_enabled"@,
{
    reveal_strlit("city_id");
    reveal_strlit("target_date");
    reveal_strlit("target_dates");
    reveal_strlit("time_slots");
    reveal_strlit("proxy_submit_enabled");
    assert("city_id"@.len() == 7 && "target_date"@.len() == 11 && "target_dates"@.len() == 12
        && "time_slots"@.len() == 10 && "proxy_submit_enabled"@.len() == 20);
}

/// Whether an object is the state of a first run that plans for `date`.
pub open spec fn is_default_state(m: Seq<(String, JsonValue)>, date: Seq<char>) -> bool {
    &&& lookup(m, "city_id"@) matches Some(v) && plain_text(v) == Some(default_city())
    &&& lookup(m, "unit_id"@) == Some(JsonValue::Null)
    &&& lookup(m, "dep_id"@) == Some(JsonValue::Null)
    &&& lookup(m, "doctor_id"@) == Some(JsonValue::Null)
    &&& lookup(m, "member_id"@) == Some(JsonValue::Null)
    &&& lookup(m, "target_dates"@) matches Some(JsonValue::Array(items)) && items@.len() == 0
    &&& lookup(m, "target_date"@) matches Some(v) && plain_text(v) == Some(date)
    &&& lookup(m, "time_slots"@) matches Some(JsonValue::Array(items)) && holds_texts(
        items@,
        seq!["am"@, "pm"@],
    )
    &&& lookup(m, "proxy_submit_enabled"@) == Some(JsonValue::Bool(true))
    &&& m.len() == 9
}

/// The state of a first run: the default city, nothing chosen, `target_date`
/// as the date, morning and afternoon, and the proxy switched on.
pub fn default_user_state(target_date: &str) -> (r: Vec<(String, JsonValue)>)
    ensures
        is_default_state(r@, target_date@),
{
    let mut state: Vec<(String, JsonValue)> = Vec::new();
    state.push((String::from_str("city_id"), JsonValue::Text(String::from_str("5"))));
    state.push((String::from_str("unit_id"), JsonValue::Null));
    state.push((String::from_str("dep_id"), JsonValue::Null));
    state.push((String::from_str("doctor_id"), JsonValue::Null));
    state.push((String::from_str("member_id"), JsonValue::Null));
    state.push((String::from_str("target_dates"), JsonValue::Array(Vec::new())));
    state.push((String::from_str("target_date"), JsonValue::Text(String::from_str(target_date))));
    state.push((String::from_str("time_slots"), JsonValue::Array(text_values(both_times()))));
    state.push((String::from_str("proxy_submit_enabled"), JsonValue::Bool(true)));
    proof {
        lemma_default_keys_differ();
        reveal_with_fuel(lookup, 10);
    }
    state
}

/// The nine keys of the default state are nine different texts: they
/// differ in length, or else in their first character.
pub proof fn lemma_default_keys_differ()
    ensures
        "city_id"@.len() == 7,
        "unit_id"@.len() == 7,
        "dep_id"@.len() == 6,
        "doctor_id"@.len() == 9,
        "member_id"@.len() == 9,
        "target_dates"@.len() == 12,
        "target_date"@.len() == 11,
        "time_slots"@.len() == 10,
        "proxy_submit_enabled"@.len() == 20,
        "city_id"@[0] != "unit_id"@[0],
        "doctor_id"@[0] != "member_id"@[0],
{
    reveal_strlit("city_id");
    reveal_strlit("unit_id");
    reveal_strlit("dep_id");
    reveal_strlit("doctor_id");
    reveal_strlit("member_id");
    reveal_strlit("target_date");
    reveal_strlit("target_dates");
    reveal_strlit("time_slots");
    reveal_strlit("proxy_submit_enabled");
}

/// The text of a member, where it is a string.
pub open spec fn member_text(m: Seq<(String, JsonValue)>, key: Seq<char>) -> Option<Seq<char>> {
    match lookup(m, key) {
        Some(v) => plain_text(v),
        None => None,
    }
}

/// The strings of a member, where it is an array.
pub open spec fn member_texts(m: Seq<(String, JsonValue)>, key: Seq<char>) -> Option<Seq<Seq<char>>> {
    match lookup(m, key) {
        Some(JsonValue::Array(items)) => Some(plain_texts(items@)),
        _ => None,
    }
}

/// An option, or `fallback` where there is none.
pub open spec fn or_else<T>(value: Option<T>, fallback: T) -> T {
    match value {
        Some(v) => v,
        None => fallback,
    }
}

/// The state that an object stands for.
pub open spec fn user_state_of(m: Seq<(String, JsonValue)>) -> UserStateView {
    UserStateView {
        city_id: or_else(member_text(m, "city_id"@), default_city()),
        unit_id: member_text(m, "unit_id"@),
        dep_id: member_text(m, "dep_id"@),
        doctor_id: member_text(m, "doctor_id"@),
        member_id: member_text(m, "member_id"@),
        target_date: or_else(member_text(m, "target_date"@), Seq::empty()),
        target_dates: or_else(member_texts(m, "target_dates"@), Seq::empty()),
        time_slots: or_else(member_texts(m, "time_slots"@), seq!["am"@, "pm"@]),
        proxy_submit_enabled: bool_of(lookup(m, "proxy_submit_enabled"@), true),
    }
}

/// The text of a member, where it is a string.
fn text_member(map: &Vec<(String, JsonValue)>, key: &str) -> (r: Option<String>)
    ensures
        r.deep_view() == member_text(map@, key@),
{
    match find_member(map, key) {
        Some(JsonValue::Text(s)) => Some(s.clone()),
        _ => None,
    }
}

/// The strings of a member, where it is an array.
fn texts_member(map: &Vec<(String, JsonValue)>, key: &str) -> (r: Option<Vec<String>>)
    ensures
        r.deep_view() == member_texts(map@, key@),
{
    match find_member(map, key) {
        Some(JsonValue::Array(items)) => Some(collect_plain(items)),
        _ => None,
    }
}

/// Reads a state out of an object, the defaults standing in for what the
/// object does not hold.
pub fn to_user_state_struct(map: &Vec<(String, JsonValue)>) -> (r: UserState)
    ensures
        r@ == user_state_of(map@),
{
    let city_id = match text_member(map, "city_id") {
        Some(s) => s,
        None => String::from_str("5"),
    };
    let target_date = match text_member(map, "target_date") {
        Some(s) => s,
        None => String::new(),
    };
    let target_dates = match texts_member(map, "target_dates") {
        Some(v) => v,
        None => {
            let none: Vec<String> = Vec::new();
            assert(none.deep_view() =~= Seq::empty());
            none
        },
    };
    let time_slots = match texts_member(map, "time_slots") {
        Some(v) => v,
        None => both_times(),
    };
    UserState {
        city_id,
        unit_id: text_member(map, "unit_id"),
        dep_id: text_member(map, "dep_id"),
        doctor_id: text_member(map, "doctor_id"),
        member_id: text_member(map, "member_id"),
        target_date,
        target_dates,
        time_slots,
        proxy_submit_enabled: normalize_bool(find_member(map, "proxy_submit_enabled"), true),
    }
}

/// What each key finds in `base` overlaid by `overlay`.
pub open spec fn overlay_finder(base: Finder, overlay: Seq<(String, JsonValue)>) -> Finder {
    |k: Seq<char>| overlaid_on(base, overlay, overlay.len() as int, k)
}

/// What a key finds where the first `n` members of `overlay` lie over what `base` finds.
pub open spec fn overlaid_on(base: Finder, overlay: Seq<(String, JsonValue)>, n: int, key: Seq<char>) -> Option<
    JsonValue,
>
    decreases n,
{
    if n <= 0 {
        base(key)
    } else if overlay[n - 1].0@ == key {
        Some(overlay[n - 1].1)
    } else {
        overlaid_on(base, overlay, n - 1, key)
    }
}

/// Laying an overlay over an object is laying it over what the object finds.
pub proof fn lemma_overlaid_by_finder(
    base: Seq<(String, JsonValue)>,
    overlay: Seq<(String, JsonValue)>,
    n: int,
    key: Seq<char>,
)
    ensures
        overlaid(base, overlay, n, key) == overlaid_on(finder_of(base), overlay, n, key),
    decreases n,
{
    if n > 0 {
        lemma_overlaid_by_finder(base, overlay, n - 1, key);
    }
}

/// The state that a run begins with: the stored one laid over the defaults
/// and brought into shape, or the defaults where nothing is stored.
pub fn load_user_state(
    defaults: Vec<(String, JsonValue)>,
    stored: Option<Vec<(String, JsonValue)>>,
    default_date: &str,
) -> (r: Vec<(String, JsonValue)>)
    ensures
        match stored {
            None => r@ == defaults@,
            Some(raw) => in_shape(r@, overlay_finder(finder_of(defaults@), raw@), default_date@),
        },
{
    match stored {
        None => defaults,
        Some(raw) => {
            let ghost d = defaults@;
            let ghost o = raw@;
            let merged = merge_user_state(defaults, raw);
            let ghost m = merged@;
            let r = normalize_user_state(merged, default_date);
            proof {
                assert forall|k: Seq<char>| #[trigger] finder_of(m)(k) == overlay_finder(
                    finder_of(d),
                    o,
                )(k) by {
                    lemma_overlaid_by_finder(d, o, o.len() as int, k);
                }
                lemma_shape_follows_finder(r@, finder_of(m), overlay_finder(finder_of(d), o), default_date@);
            }
            r
        },
    }
}

/// A state in shape of one object is in shape of any that finds the same under every key.
pub proof fn lemma_shape_follows_finder(
    r: Seq<(String, JsonValue)>,
    a: Finder,
    b: Finder,
    default_date: Seq<char>,
)
    requires
        in_shape(r, a, default_date),
        forall|k: Seq<char>| #[trigger] a(k) == b(k),
    ensures
        in_shape(r, b, default_date),
{
    assert(a("city_id"@) == b("city_id"@));
    assert(a("target_date"@) == b("target_date"@));
    assert(a("target_dates"@) == b("target_dates"@));
    assert(a("time_slots"@) == b("time_slots"@));
    assert(a("proxy_submit_enabled"@) == b("proxy_submit_enabled"@));
}

/// The state that is written when the interface saves `update`: the update
/// laid over what is stored, that laid over the defaults, and all of it
/// brought into shape. An empty update is refused.
pub fn prepare_state_save(
    defaults: Vec<(String, JsonValue)>,
    stored: Vec<(String, JsonValue)>,
    update: Vec<(String, JsonValue)>,
    default_date: &str,
) -> (r: Result<Vec<(String, JsonValue)>, AppError>)
    ensures
        match r {
            Ok(state) => update@.len() > 0 && in_shape(
                state@,
                overlay_finder(overlay_finder(finder_of(defaults@), stored@), update@),
                default_date@,
            ),
            Err(e) => update@.len() == 0 && e@ == AppErrorView::ConfigError("State is empty"@),
        },
{
    if update.len() == 0 {
        return Err(AppError::ConfigError(String::from_str("State is empty")));
    }
    let ghost d = defaults@;
    let ghost s = stored@;
    let ghost u = update@;
    let merged = merge_user_state(defaults, stored);
    let ghost m1 = merged@;
    let last = merge_user_state(merged, update);
    let ghost m2 = last@;
    let r = normalize_user_state(last, default_date);
    proof {
        let inner = overlay_finder(finder_of(d), s);
        let target = overlay_finder(inner, u);
        assert forall|j: Seq<char>| #[trigger] finder_of(m1)(j) == inner(j) by {
            lemma_overlaid_by_finder(d, s, s.len() as int, j);
        }
        assert forall|k: Seq<char>| #[trigger] finder_of(m2)(k) == target(k) by {
            lemma_overlaid_by_finder(m1, u, u.len() as int, k);
            lemma_overlay_follows_finder(finder_of(m1), inner, u, u.len() as int, k);
        }
        lemma_shape_follows_finder(r@, finder_of(m2), target, default_date@);
    }
    Ok(r)
}

/// An overlay over two objects that find the same finds the same.
pub proof fn lemma_overlay_follows_finder(
    a: Finder,
    b: Finder,
    overlay: Seq<(String, JsonValue)>,
    n: int,
    key: Seq<char>,
)
    requires
        forall|k: Seq<char>| #[trigger] a(k) == b(k),
    ensures
        overlaid_on(a, overlay, n, key) == overlaid_on(b, overlay, n, key),
    decreases n,
{
    if n > 0 {
        lemma_overlay_follows_finder(a, b, overlay, n - 1, key);
    } else {
        assert(a(key) == b(key));
    }
}

} // verus!
