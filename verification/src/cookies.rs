//! The session: a set of cookies keyed by lowercased domain, path and name.
//!
//! Normalizing drops records without a name, fills a missing domain with the
//! site's root domain and a missing path with `/`, and keeps of several
//! records with one key the last. The records that stay keep their order.

use vstd::prelude::*;
use vstd::string::StringExecFns;
use crate::errors::{AppError, AppErrorView};
use crate::adapters::{query_pairs, url_query_pairs};
use crate::text::{
    contains_string, lowercase_of, str_eq, strip_leading, to_lowercase, without_leading,
};
use crate::types::{CookieRecord, CookieRecordView};

verus! {

/// The domain that a record without a domain gets.
pub open spec fn root_domain() -> Seq<char> {
    ".91160.com"@
}

/// The path that a record without a path gets.
pub open spec fn root_path() -> Seq<char> {
    "/"@
}

/// The name of the cookie that proves a login.
pub open spec fn access_hash_name() -> Seq<char> {
    "access_hash"@
}

/// The record with a missing domain or path filled in.
pub open spec fn filled(r: CookieRecordView) -> CookieRecordView {
    CookieRecordView {
        name: r.name,
        value: r.value,
        domain: if r.domain.len() == 0 {
            root_domain()
        } else {
            r.domain
        },
        path: if r.path.len() == 0 {
            root_path()
        } else {
            r.path
        },
    }
}

/// What identifies a cookie: its domain in lower case, its path and its name.
pub open spec fn cookie_key(r: CookieRecordView) -> (Seq<char>, Seq<char>, Seq<char>) {
    (lowercase_of(r.domain), r.path, r.name)
}

/// The records of `s` that have a name, each filled in, in their order.
pub open spec fn named_and_filled(s: Seq<CookieRecordView>) -> Seq<CookieRecordView>
    decreases s.len(),
{
    if s.len() == 0 {
        Seq::empty()
    } else if s.last().name.len() > 0 {
        named_and_filled(s.drop_last()).push(filled(s.last()))
    } else {
        named_and_filled(s.drop_last())
    }
}

/// A later record of `s` has the key of the record at `i`.
pub open spec fn superseded(s: Seq<CookieRecordView>, i: int) -> bool {
    exists|j: int| i < j < s.len() && cookie_key(#[trigger] s[j]) == cookie_key(s[i])
}

/// Those of the first `n` records of `s` that no later record of `s` supersedes.
pub open spec fn survivors(s: Seq<CookieRecordView>, n: int) -> Seq<CookieRecordView>
    decreases n,
{
    if n <= 0 {
        Seq::empty()
    } else if superseded(s, n - 1) {
        survivors(s, n - 1)
    } else {
        survivors(s, n - 1).push(s[n - 1])
    }
}

/// The normalized form of a list of records.
pub open spec fn normalized(s: Seq<CookieRecordView>) -> Seq<CookieRecordView> {
    survivors(named_and_filled(s), named_and_filled(s).len() as int)
}

/// No two records of `s` have the same key.
pub open spec fn distinct_keys(s: Seq<CookieRecordView>) -> bool {
    forall|a: int, b: int|
        0 <= a < b < s.len() ==> cookie_key(#[trigger] s[a]) != cookie_key(#[trigger] s[b])
}

/// The record has a name, a domain and a path.
pub open spec fn complete(r: CookieRecordView) -> bool {
    r.name.len() > 0 && r.domain.len() > 0 && r.path.len() > 0
}

/// Some record of the list carries the access token, with a value.
pub open spec fn holds_credential(s: Seq<CookieRecordView>) -> bool {
    exists|i: int|
        0 <= i < s.len() && (#[trigger] s[i]).name == access_hash_name() && s[i].value.len() > 0
}

/// The values of the records named `name` that have a value, in their order.
pub open spec fn values_named(s: Seq<CookieRecordView>, name: Seq<char>) -> Seq<Seq<char>>
    decreases s.len(),
{
    if s.len() == 0 {
        Seq::empty()
    } else if s.last().name == name && s.last().value.len() > 0 {
        values_named(s.drop_last(), name).push(s.last().value)
    } else {
        values_named(s.drop_last(), name)
    }
}

/// The strings of `s` without repetitions: of equal strings the first stays.
pub open spec fn first_occurrences(s: Seq<Seq<char>>) -> Seq<Seq<char>>
    decreases s.len(),
{
    if s.len() == 0 {
        Seq::empty()
    } else if first_occurrences(s.drop_last()).contains(s.last()) {
        first_occurrences(s.drop_last())
    } else {
        first_occurrences(s.drop_last()).push(s.last())
    }
}

/// Whether the record at `i` has the same key as the record at `j`, given the
/// lowercased domains of all records.
fn same_key(records: &Vec<CookieRecord>, lows: &Vec<String>, i: usize, j: usize) -> (r: bool)
    requires
        i < records.len(),
        j < records.len(),
        lows.len() == records.len(),
        forall|k: int| 0 <= k < records.len() ==> lows[k]@ == lowercase_of(records[k]@.domain),
    ensures
        r == (cookie_key(records[i as int]@) == cookie_key(records[j as int]@)),
{
    str_eq(lows[i].as_str(), lows[j].as_str()) && str_eq(
        records[i].path.as_str(),
        records[j].path.as_str(),
    ) && str_eq(records[i].name.as_str(), records[j].name.as_str())
}

/// Whether a later record has the key of the record at `i`.
fn is_superseded(records: &Vec<CookieRecord>, lows: &Vec<String>, i: usize) -> (r: bool)
    requires
        i < records.len(),
        lows.len() == records.len(),
        forall|k: int| 0 <= k < records.len() ==> lows[k]@ == lowercase_of(records[k]@.domain),
    ensures
        r == superseded(records.deep_view(), i as int),
{
    let ghost s = records.deep_view();
    let mut j: usize = i + 1;
    while j < records.len()
        invariant
            i < j <= records.len(),
            lows.len() == records.len(),
            s == records.deep_view(),
            forall|k: int| 0 <= k < records.len() ==> lows[k]@ == lowercase_of(records[k]@.domain),
            forall|k: int| i < k < j ==> cookie_key(#[trigger] s[k]) != cookie_key(s[i as int]),
        decreases records.len() - j,
    {
        if same_key(records, lows, j, i) {
            assert(cookie_key(s[j as int]) == cookie_key(s[i as int]));
            return true;
        }
        j += 1;
    }
    false
}

/// Drops the records without a name and fills in what the others lack.
fn fill_defaults(records: &Vec<CookieRecord>) -> (r: Vec<CookieRecord>)
    ensures
        r.deep_view() == named_and_filled(records.deep_view()),
{
    let ghost s = records.deep_view();
    let mut out: Vec<CookieRecord> = Vec::new();
    let mut i: usize = 0;
    assert(s.take(0) =~= Seq::empty());
    assert(out.deep_view() =~= Seq::empty());
    while i < records.len()
        invariant
            i <= records.len(),
            s == records.deep_view(),
            out.deep_view() == named_and_filled(s.take(i as int)),
        decreases records.len() - i,
    {
        proof {
            assert(s.take(i as int + 1).drop_last() =~= s.take(i as int));
            assert(s.take(i as int + 1).last() == records[i as int]@);
        }
        let record = &records[i];
        if !record.name.as_str().is_empty() {
            let domain = if record.domain.as_str().is_empty() {
                String::from_str(".91160.com")
            } else {
                record.domain.clone()
            };
            let path = if record.path.as_str().is_empty() {
                String::from_str("/")
            } else {
                record.path.clone()
            };
            let ghost before = out.deep_view();
            let made = CookieRecord {
                name: record.name.clone(),
                value: record.value.clone(),
                domain,
                path,
            };
            assert(made@ == filled(record@));
            out.push(made);
            assert(out.deep_view() =~= before.push(made@));
        }
        i += 1;
    }
    assert(s.take(i as int) =~= s);
    out
}

/// The domains of the records in lower case.
fn lowercase_domains(records: &Vec<CookieRecord>) -> (r: Vec<String>)
    ensures
        r.len() == records.len(),
        forall|k: int| 0 <= k < records.len() ==> r[k]@ == lowercase_of(records[k]@.domain),
{
    let mut out: Vec<String> = Vec::new();
    let mut i: usize = 0;
    while i < records.len()
        invariant
            i <= records.len(),
            out.len() == i,
            forall|k: int| 0 <= k < i ==> out[k]@ == lowercase_of(records[k]@.domain),
        decreases records.len() - i,
    {
        out.push(to_lowercase(records[i].domain.as_str()));
        i += 1;
    }
    out
}

/// Normalizes a list of cookies: records without a name are dropped, a
/// missing domain or path is filled in, and of the records with one key only
/// the last stays.
pub fn normalize_cookie_records(records: Vec<CookieRecord>) -> (r: Vec<CookieRecord>)
    ensures
        r.deep_view() == normalized(records.deep_view()),
{
    let full = fill_defaults(&records);
    let lows = lowercase_domains(&full);
    let ghost s = full.deep_view();
    let mut out: Vec<CookieRecord> = Vec::new();
    let mut i: usize = 0;
    assert(out.deep_view() =~= Seq::empty());
    while i < full.len()
        invariant
            i <= full.len(),
            s == full.deep_view(),
            lows.len() == full.len(),
            forall|k: int| 0 <= k < full.len() ==> lows[k]@ == lowercase_of(full[k]@.domain),
            out.deep_view() == survivors(s, i as int),
        decreases full.len() - i,
    {
        if !is_superseded(&full, &lows, i) {
            let ghost before = out.deep_view();
            let kept = full[i].clone();
            out.push(kept);
            assert(out.deep_view() =~= before.push(s[i as int]));
        }
        i += 1;
    }
    out
}

/// Whether the session holds the access token: a record of that name with a value.
pub fn has_access_hash(records: &[CookieRecord]) -> (r: bool)
    ensures
        r == holds_credential(records.deep_view()),
{
    let ghost s = records.deep_view();
    let mut i: usize = 0;
    while i < records.len()
        invariant
            i <= records.len(),
            s == records.deep_view(),
            forall|k: int|
                0 <= k < i ==> !((#[trigger] s[k]).name == access_hash_name() && s[k].value.len()
                    > 0),
        decreases records.len() - i,
    {
        if str_eq(records[i].name.as_str(), "access_hash") && !records[i].value.as_str().is_empty() {
            assert(s[i as int].name == access_hash_name() && s[i as int].value.len() > 0);
            return true;
        }
        i += 1;
    }
    false
}

/// The values of the cookies named `name` that have a value, in their order.
pub fn get_cookie_values(records: &[CookieRecord], name: &str) -> (r: Vec<String>)
    ensures
        r.deep_view() == values_named(records.deep_view(), name@),
{
    let ghost s = records.deep_view();
    let mut out: Vec<String> = Vec::new();
    let mut i: usize = 0;
    assert(s.take(0) =~= Seq::empty());
    assert(out.deep_view() =~= Seq::empty());
    while i < records.len()
        invariant
            i <= records.len(),
            s == records.deep_view(),
            out.deep_view() == values_named(s.take(i as int), name@),
        decreases records.len() - i,
    {
        proof {
            assert(s.take(i as int + 1).drop_last() =~= s.take(i as int));
            assert(s.take(i as int + 1).last() == records[i as int]@);
        }
        if str_eq(records[i].name.as_str(), name) && !records[i].value.as_str().is_empty() {
            let ghost before = out.deep_view();
            let value = records[i].value.clone();
            out.push(value);
            assert(out.deep_view() =~= before.push(value@));
        }
        i += 1;
    }
    assert(s.take(i as int) =~= s);
    out
}

/// Removes the repetitions from a list of strings: of equal strings the first stays.
pub fn unique_strings(values: Vec<String>) -> (r: Vec<String>)
    ensures
        r.deep_view() == first_occurrences(values.deep_view()),
{
    let ghost s = values.deep_view();
    let mut out: Vec<String> = Vec::new();
    let mut i: usize = 0;
    assert(s.take(0) =~= Seq::empty());
    assert(out.deep_view() =~= Seq::empty());
    while i < values.len()
        invariant
            i <= values.len(),
            s == values.deep_view(),
            out.deep_view() == first_occurrences(s.take(i as int)),
        decreases values.len() - i,
    {
        proof {
            assert(s.take(i as int + 1).drop_last() =~= s.take(i as int));
            assert(s.take(i as int + 1).last() == values[i as int]@);
        }
        if !contains_string(&out, values[i].as_str()) {
            let ghost before = out.deep_view();
            let value = values[i].clone();
            out.push(value);
            assert(out.deep_view() =~= before.push(value@));
        }
        i += 1;
    }
    assert(s.take(i as int) =~= s);
    out
}

/// The access tokens of the session, each once, in the order of the records.
pub fn access_hash_values(records: &[CookieRecord]) -> (r: Vec<String>)
    ensures
        r.deep_view() == first_occurrences(values_named(records.deep_view(), access_hash_name())),
{
    unique_strings(get_cookie_values(records, "access_hash"))
}

/// Every record that filling leaves has a name, a domain and a path.
pub proof fn lemma_filled_records_complete(s: Seq<CookieRecordView>)
    ensures
        forall|k: int|
            0 <= k < named_and_filled(s).len() ==> complete(#[trigger] named_and_filled(s)[k]),
    decreases s.len(),
{
    reveal_strlit(".91160.com");
    reveal_strlit("/");
    if s.len() > 0 {
        lemma_filled_records_complete(s.drop_last());
        let prev = named_and_filled(s.drop_last());
        assert forall|k: int| 0 <= k < named_and_filled(s).len() implies complete(
            #[trigger] named_and_filled(s)[k],
        ) by {
            if k < prev.len() {
                assert(complete(prev[k]));
            } else {
                assert(named_and_filled(s)[k] == filled(s.last()));
            }
        }
    }
}

/// Filling changes nothing in a list of complete records.
pub proof fn lemma_complete_records_stay(t: Seq<CookieRecordView>)
    requires
        forall|k: int| 0 <= k < t.len() ==> complete(#[trigger] t[k]),
    ensures
        named_and_filled(t) == t,
    decreases t.len(),
{
    if t.len() > 0 {
        lemma_complete_records_stay(t.drop_last());
        assert(filled(t.last()) == t.last());
        assert(t.drop_last().push(t.last()) =~= t);
    }
}

/// Each survivor is a record of the list that no later record supersedes,
/// and no two survivors share a key.
pub proof fn lemma_survivors(s: Seq<CookieRecordView>, n: int)
    requires
        0 <= n <= s.len(),
    ensures
        forall|p: int|
            0 <= p < survivors(s, n).len() ==> exists|i: int|
                0 <= i < n && s[i] == #[trigger] survivors(s, n)[p] && !superseded(s, i),
        distinct_keys(survivors(s, n)),
    decreases n,
{
    if n > 0 {
        lemma_survivors(s, n - 1);
        let prev = survivors(s, n - 1);
        if !superseded(s, n - 1) {
            let now = prev.push(s[n - 1]);
            assert forall|p: int| 0 <= p < now.len() implies exists|i: int|
                0 <= i < n && s[i] == #[trigger] now[p] && !superseded(s, i) by {
                if p < prev.len() {
                    let i = choose|i: int| 0 <= i < n - 1 && s[i] == prev[p] && !superseded(s, i);
                    assert(0 <= i < n && s[i] == now[p] && !superseded(s, i));
                } else {
                    assert(s[n - 1] == now[p] && !superseded(s, n - 1));
                }
            }
            assert forall|a: int, b: int| 0 <= a < b < now.len() implies cookie_key(
                #[trigger] now[a],
            ) != cookie_key(#[trigger] now[b]) by {
                if b == prev.len() {
                    let i = choose|i: int| 0 <= i < n - 1 && s[i] == prev[a] && !superseded(s, i);
                    if cookie_key(s[i]) == cookie_key(s[n - 1]) {
                        assert(i < n - 1 < s.len() && cookie_key(s[n - 1]) == cookie_key(s[i]));
                        assert(superseded(s, i));
                    }
                } else {
                    assert(now[a] == prev[a] && now[b] == prev[b]);
                }
            }
        }
    }
}

/// Of a list without two records of one key, every record survives.
pub proof fn lemma_distinct_records_survive(t: Seq<CookieRecordView>, n: int)
    requires
        distinct_keys(t),
        0 <= n <= t.len(),
    ensures
        survivors(t, n) == t.take(n),
    decreases n,
{
    if n > 0 {
        lemma_distinct_records_survive(t, n - 1);
        assert(!superseded(t, n - 1));
        assert(t.take(n - 1).push(t[n - 1]) =~= t.take(n));
    } else {
        assert(t.take(0) =~= Seq::empty());
    }
}

/// A normalized list holds no two records with the same key, and each of
/// its records has a name, a domain and a path.
pub proof fn lemma_normalized_is_a_set(s: Seq<CookieRecordView>)
    ensures
        distinct_keys(normalized(s)),
        forall|k: int| 0 <= k < normalized(s).len() ==> complete(#[trigger] normalized(s)[k]),
{
    let u = named_and_filled(s);
    lemma_filled_records_complete(s);
    lemma_survivors(u, u.len() as int);
    let t = normalized(s);
    assert forall|k: int| 0 <= k < t.len() implies complete(#[trigger] t[k]) by {
        let i = choose|i: int| 0 <= i < u.len() && u[i] == t[k] && !superseded(u, i);
        assert(complete(u[i]));
    }
}

/// Normalizing is idempotent: a normalized list is its own normal form.
pub proof fn lemma_normalize_idempotent(s: Seq<CookieRecordView>)
    ensures
        normalized(normalized(s)) == normalized(s),
{
    let t = normalized(s);
    lemma_normalized_is_a_set(s);
    lemma_complete_records_stay(t);
    lemma_distinct_records_survive(t, t.len() as int);
    assert(t.take(t.len() as int) =~= t);
}

/// Of the records with one key the last wins: a record with a name is in the
/// normalized list, filled in, exactly when no later record with a name has
/// its key.
pub proof fn lemma_last_write_wins(s: Seq<CookieRecordView>, x: CookieRecordView)
    ensures
        normalized(s).contains(x) <==> exists|i: int|
            0 <= i < named_and_filled(s).len() && #[trigger] named_and_filled(s)[i] == x
                && !superseded(named_and_filled(s), i),
{
    let u = named_and_filled(s);
    lemma_survivors(u, u.len() as int);
    lemma_survivors_hold(u, u.len() as int);
    if normalized(s).contains(x) {
        let p = choose|p: int| 0 <= p < normalized(s).len() && normalized(s)[p] == x;
        let i = choose|i: int| 0 <= i < u.len() && u[i] == survivors(u, u.len() as int)[p] && !superseded(u, i);
        assert(u[i] == x);
    }
}

/// Every record among the first `n` that no later record supersedes is a survivor.
pub proof fn lemma_survivors_hold(s: Seq<CookieRecordView>, n: int)
    requires
        0 <= n <= s.len(),
    ensures
        forall|i: int|
            0 <= i < n && !superseded(s, i) ==> survivors(s, n).contains(#[trigger] s[i]),
    decreases n,
{
    if n > 0 {
        lemma_survivors_hold(s, n - 1);
        let prev = survivors(s, n - 1);
        assert forall|i: int| 0 <= i < n && !superseded(s, i) implies survivors(s, n).contains(
            #[trigger] s[i],
        ) by {
            if i < n - 1 {
                let p = choose|p: int| 0 <= p < prev.len() && prev[p] == s[i];
                if !superseded(s, n - 1) {
                    assert(survivors(s, n)[p] == s[i]);
                }
            } else {
                assert(survivors(s, n)[prev.len() as int] == s[i]);
            }
        }
    }
}

/// The record that a name and a value of the older file format stand for.
pub open spec fn legacy_record(pair: (Seq<char>, Seq<char>)) -> CookieRecordView {
    CookieRecordView { name: pair.0, value: pair.1, domain: root_domain(), path: root_path() }
}

/// The session that a file of the older format holds: a record for each
/// pair of name and value, under the site's root domain, normalized.
pub fn records_from_pairs(pairs: Vec<(String, String)>) -> (r: Vec<CookieRecord>)
    ensures
        r.deep_view() == normalized(
            pairs.deep_view().map_values(|p: (Seq<char>, Seq<char>)| legacy_record(p)),
        ),
{
    let ghost s = pairs.deep_view();
    let mut list: Vec<CookieRecord> = Vec::new();
    let mut i: usize = 0;
    while i < pairs.len()
        invariant
            i <= pairs.len(),
            s == pairs.deep_view(),
            list.len() == i,
            forall|k: int| 0 <= k < i ==> (#[trigger] list[k])@ == legacy_record(s[k]),
        decreases pairs.len() - i,
    {
        assert(s[i as int] == pairs[i as int].deep_view());
        list.push(
            CookieRecord {
                name: pairs[i].0.clone(),
                value: pairs[i].1.clone(),
                domain: String::from_str(".91160.com"),
                path: String::from_str("/"),
            },
        );
        i += 1;
    }
    assert(list.deep_view() =~= s.map_values(|p: (Seq<char>, Seq<char>)| legacy_record(p)));
    normalize_cookie_records(list)
}

/// The records that are written when a session is saved: the session
/// normalized. A session that normalizes to nothing is not saved.
pub fn prepare_cookie_save(records: Vec<CookieRecord>) -> (r: Result<Vec<CookieRecord>, AppError>)
    ensures
        match r {
            Ok(list) => list.deep_view() == normalized(records.deep_view()) && list.len() > 0,
            Err(e) => normalized(records.deep_view()).len() == 0 && e@
                == AppErrorView::ConfigError("No cookies to save"@),
        },
{
    let list = normalize_cookie_records(records);
    if list.len() == 0 {
        return Err(AppError::ConfigError(String::from_str("No cookies to save")));
    }
    Ok(list)
}

/// A cookie as the HTTP client takes it: the address that it belongs to,
/// and the cookie as a header would set it.
#[derive(Debug)]
pub struct JarEntry {
    pub url: String,
    pub cookie: String,
}

pub struct JarEntryView {
    pub url: Seq<char>,
    pub cookie: Seq<char>,
}

impl View for JarEntry {
    type V = JarEntryView;

    open spec fn view(&self) -> JarEntryView {
        JarEntryView { url: self.url@, cookie: self.cookie@ }
    }
}

impl DeepView for JarEntry {
    type V = JarEntryView;

    open spec fn deep_view(&self) -> JarEntryView {
        self@
    }
}

/// The address that a cookie's domain stands for.
pub open spec fn cookie_url(r: CookieRecordView) -> Seq<char> {
    "https://"@ + without_leading(r.domain, "."@)
}

/// The entry that a record makes in the client's cookie jar: none where the
/// record has no domain or its domain makes no valid address.
pub open spec fn jar_entry_of(r: CookieRecordView) -> Option<JarEntryView> {
    if without_leading(r.domain, "."@).len() == 0 || url_query_pairs(cookie_url(r)) is None {
        None
    } else {
        Some(
            JarEntryView {
                url: cookie_url(r),
                cookie: r.name + "="@ + r.value + "; Domain="@ + r.domain + "; Path="@ + r.path,
            },
        )
    }
}

/// The entry that a record makes in the client's cookie jar. A record with
/// a domain that is no host is passed over.
pub fn jar_entry(record: &CookieRecord) -> (r: Option<JarEntry>)
    ensures
        r.deep_view() == jar_entry_of(record@),
{
    proof {
        reveal_strlit(".");
    }
    let host = strip_leading(record.domain.as_str(), ".");
    if host.as_str().is_empty() {
        return None;
    }
    let mut url = String::from_str("https://");
    url.append(host.as_str());
    match query_pairs(url.as_str()) {
        None => None,
        Some(_) => {
            let mut cookie = record.name.clone();
            cookie.append("=");
            cookie.append(record.value.as_str());
            cookie.append("; Domain=");
            cookie.append(record.domain.as_str());
            cookie.append("; Path=");
            cookie.append(record.path.as_str());
            Some(JarEntry { url, cookie })
        },
    }
}

/// The entries that a session makes in the client's cookie jar, in the
/// order of its records.
pub fn jar_entries(records: &[CookieRecord]) -> (r: Vec<JarEntry>)
    ensures
        r.deep_view() == records.deep_view().filter_map(|c: CookieRecordView| jar_entry_of(c)),
{
    let ghost f = |c: CookieRecordView| jar_entry_of(c);
    let ghost s = records.deep_view();
    let mut out: Vec<JarEntry> = Vec::new();
    let mut i: usize = 0;
    assert(out.deep_view() =~= s.take(0).filter_map(f));
    while i < records.len()
        invariant
            i <= records.len(),
            s == records.deep_view(),
            f == |c: CookieRecordView| jar_entry_of(c),
            out.deep_view() == s.take(i as int).filter_map(f),
        decreases records.len() - i,
    {
        proof {
            s.lemma_filter_map_take_succ(f, i as int);
            assert(s[i as int] == records[i as int]@);
        }
        let ghost before = out.deep_view();
        match jar_entry(&records[i]) {
            Some(entry) => {
                out.push(entry);
                assert(out.deep_view() =~= before + seq![entry@]);
            },
            None => {
                assert(out.deep_view() =~= before + Seq::<JarEntryView>::empty());
            },
        }
        i += 1;
    }
    assert(s.take(i as int) =~= s);
    out
}

} // verus!
