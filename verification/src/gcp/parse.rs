//! Reading fields of GCP API objects: ids, texts with defaults, and labels as tags.

use vstd::prelude::*;
use crate::json::{jget, jobj, jstr, ju64, jv_entries, opt_jv, Json, JsonNumber, JsonV};
use crate::provider::{pairs_view, ProviderKind, ResourceType, ResourceV};
use crate::gcp::pricing::cap;
use crate::text::{
    dec, digit_value, is_digit, parse_u64, spec_parse_u64, str_eq, u64_to_string, unsigned_body,
};

verus! {

/// `v[key].as_str()`.
pub open spec fn str_at(v: JsonV, key: Seq<char>) -> Option<Seq<char>> {
    jstr(jget(v, key))
}

/// `v[key].as_str().unwrap_or(default)`.
pub open spec fn str_or(v: JsonV, key: Seq<char>, default: Seq<char>) -> Seq<char> {
    match str_at(v, key) {
        Some(s) => s,
        None => default,
    }
}

/// The `id` of an API object: a string id, or a non-negative integer id in decimal.
pub open spec fn object_id(v: JsonV) -> Option<Seq<char>> {
    match str_at(v, "id"@) {
        Some(s) => Some(s),
        None => match ju64(jget(v, "id"@)) {
            Some(n) => Some(dec(n as nat)),
            None => None,
        },
    }
}

/// The index of the first tag with key `k`.
pub open spec fn tag_index(t: Seq<(Seq<char>, Seq<char>)>, k: Seq<char>) -> Option<int>
    decreases t.len(),
{
    if t.len() == 0 {
        None
    } else {
        match tag_index(t.drop_last(), k) {
            Some(i) => Some(i),
            None => if t.last().0 == k {
                Some(t.len() - 1)
            } else {
                None
            },
        }
    }
}

/// Tags with `k` set to `v`: an existing tag is updated in place, a new one goes last.
pub open spec fn tag_insert(t: Seq<(Seq<char>, Seq<char>)>, k: Seq<char>, v: Seq<char>) -> Seq<
    (Seq<char>, Seq<char>),
> {
    match tag_index(t, k) {
        Some(i) => t.update(i, (k, v)),
        None => t.push((k, v)),
    }
}

/// Tags with every string-valued label added, in label order.
pub open spec fn add_labels(t: Seq<(Seq<char>, Seq<char>)>, e: Seq<(Seq<char>, JsonV)>) -> Seq<
    (Seq<char>, Seq<char>),
>
    decreases e.len(),
{
    if e.len() == 0 {
        t
    } else {
        let prev = add_labels(t, e.drop_last());
        match jstr(e.last().1) {
            Some(s) => tag_insert(prev, e.last().0, s),
            None => prev,
        }
    }
}

/// Tags with the labels of `v[key]` added when it is an object.
pub open spec fn add_labels_at(t: Seq<(Seq<char>, Seq<char>)>, v: JsonV, key: Seq<char>) -> Seq<
    (Seq<char>, Seq<char>),
> {
    match jobj(jget(v, key)) {
        Some(e) => add_labels(t, e),
        None => t,
    }
}

proof fn lemma_tag_index_bounds(t: Seq<(Seq<char>, Seq<char>)>, k: Seq<char>)
    ensures
        tag_index(t, k) matches Some(i) ==> 0 <= i < t.len() && t[i].0 == k,
        tag_index(t, k) is None ==> forall|j: int| 0 <= j < t.len() ==> t[j].0 != k,
    decreases t.len(),
{
    if t.len() > 0 {
        lemma_tag_index_bounds(t.drop_last(), k);
        assert forall|j: int| 0 <= j < t.len() - 1 implies t[j] == t.drop_last()[j] by {}
    }
}

/// Sets tag `k` to `v`, as `HashMap::insert` does.
pub fn insert_tag(tags: &mut Vec<(String, String)>, k: &str, v: &str)
    ensures
        pairs_view(final(tags)@) == tag_insert(pairs_view(old(tags)@), k@, v@),
{
    let ghost t = pairs_view(tags@);
    let n = tags.len();
    let mut i: usize = 0;
    while i < n
        invariant
            n == tags@.len(),
            t == pairs_view(tags@),
            t == pairs_view(old(tags)@),
            i <= n,
            tag_index(t.take(i as int), k@) is None,
        decreases n - i,
    {
        assert(t.take(i + 1).drop_last() =~= t.take(i as int));
        assert(t.take(i + 1).last() == t[i as int]);
        if str_eq(tags[i].0.as_str(), k) {
            proof {
                lemma_tag_index_bounds(t.take(i as int), k@);
                assert(tag_index(t.take(i + 1), k@) == Some(i as int));
                lemma_tag_index_prefix(t, k@, i + 1);
            }
            tags.set(i, (String::from_str(k), String::from_str(v)));
            assert(pairs_view(tags@) =~= t.update(i as int, (k@, v@)));
            assert(tag_index(t, k@) == Some(i as int));
            assert(t == pairs_view(old(tags)@));
            assert(tag_insert(t, k@, v@) == t.update(i as int, (k@, v@)));
            return;
        }
        i = i + 1;
    }
    assert(t.take(n as int) =~= t);
    tags.push((String::from_str(k), String::from_str(v)));
    assert(pairs_view(tags@) =~= t.push((k@, v@)));
}

proof fn lemma_tag_index_prefix(t: Seq<(Seq<char>, Seq<char>)>, k: Seq<char>, m: int)
    requires
        0 <= m <= t.len(),
        tag_index(t.take(m), k) is Some,
    ensures
        tag_index(t, k) == tag_index(t.take(m), k),
    decreases t.len() - m,
{
    if m < t.len() {
        assert(t.take(m + 1).drop_last() =~= t.take(m));
        assert(tag_index(t.take(m + 1), k) == tag_index(t.take(m), k));
        lemma_tag_index_prefix(t, k, m + 1);
    } else {
        assert(t.take(m) =~= t);
    }
}

/// Adds every string-valued label of `labels` as a tag, in label order.
pub fn add_label_entries(tags: &mut Vec<(String, String)>, labels: &Vec<(String, Json)>)
    ensures
        pairs_view(final(tags)@) == add_labels(pairs_view(old(tags)@), jv_entries(labels@)),
{
    let ghost t0 = pairs_view(tags@);
    let ghost e = jv_entries(labels@);
    let n = labels.len();
    let mut i: usize = 0;
    assert(e.take(0) =~= Seq::<(Seq<char>, JsonV)>::empty());
    while i < n
        invariant
            n == labels@.len(),
            e == jv_entries(labels@),
            i <= n,
            pairs_view(tags@) == add_labels(t0, e.take(i as int)),
        decreases n - i,
    {
        assert(e.take(i + 1).drop_last() =~= e.take(i as int));
        assert(e.take(i + 1).last() == e[i as int]);
        let (k, v) = &labels[i];
        match v.as_str() {
            Some(s) => {
                insert_tag(tags, k.as_str(), s.as_str());
            },
            None => {},
        }
        i = i + 1;
    }
    assert(e.take(n as int) =~= e);
}

/// Adds the labels of `v[key]` as tags when it is an object.
pub fn add_labels_from(tags: &mut Vec<(String, String)>, v: &Json, key: &str)
    ensures
        pairs_view(final(tags)@) == add_labels_at(pairs_view(old(tags)@), v@, key@),
{
    match v.get_object(key) {
        Some(labels) => add_label_entries(tags, labels),
        None => {},
    }
}

/// The tags made of the labels of `v[key]`.
pub fn labels_at(v: &Json, key: &str) -> (tags: Vec<(String, String)>)
    ensures
        pairs_view(tags@) == add_labels_at(Seq::empty(), v@, key@),
{
    let mut tags: Vec<(String, String)> = Vec::new();
    assert(pairs_view(tags@) =~= Seq::<(Seq<char>, Seq<char>)>::empty());
    add_labels_from(&mut tags, v, key);
    tags
}

/// `v[key].as_str().map(String::from)`.
pub fn opt_str_at(v: &Json, key: &str) -> (r: Option<String>)
    ensures
        crate::json::opt_view(r) == str_at(v@, key@),
{
    match v.get_str(key) {
        Some(s) => Some(s.clone()),
        None => None,
    }
}

/// `v[key].as_str().unwrap_or(default).to_string()`.
pub fn str_at_or(v: &Json, key: &str, default: &str) -> (r: String)
    ensures
        r@ == str_or(v@, key@, default@),
{
    match v.get_str(key) {
        Some(s) => s.clone(),
        None => String::from_str(default),
    }
}

/// The `id` of an API object.
pub fn id_of(v: &Json) -> (r: Option<String>)
    ensures
        crate::json::opt_view(r) == object_id(v@),
{
    match v.get_str("id") {
        Some(s) => Some(s.clone()),
        None => match v.get_u64("id") {
            Some(n) => Some(u64_to_string(n)),
            None => None,
        },
    }
}

/// A GCP resource from its parts.
pub open spec fn gcp_resource(
    id: Seq<char>,
    name: Seq<char>,
    t: ResourceType,
    region: Seq<char>,
    project: Seq<char>,
    status: Seq<char>,
    created_at: Option<Seq<char>>,
    last_used: Option<Seq<char>>,
    tags: Seq<(Seq<char>, Seq<char>)>,
    metadata: JsonV,
    monthly_cost: Option<u64>,
) -> ResourceV {
    ResourceV {
        id,
        name,
        resource_type: t,
        provider: ProviderKind::Gcp,
        region,
        account_id: project,
        status,
        created_at,
        last_used,
        tags,
        metadata,
        monthly_cost,
    }
}

/// The strings among JSON values, in order.
pub open spec fn strings_in(s: Seq<JsonV>) -> Seq<Seq<char>>
    decreases s.len(),
{
    if s.len() == 0 {
        Seq::empty()
    } else {
        let p = strings_in(s.drop_last());
        match jstr(s.last()) {
            Some(x) => p.push(x),
            None => p,
        }
    }
}

/// The text fields `key` of JSON values, in order, skipping values without one.
pub open spec fn fields_in(s: Seq<JsonV>, key: Seq<char>) -> Seq<Seq<char>>
    decreases s.len(),
{
    if s.len() == 0 {
        Seq::empty()
    } else {
        let p = fields_in(s.drop_last(), key);
        match str_at(s.last(), key) {
            Some(x) => p.push(x),
            None => p,
        }
    }
}

/// Texts joined with a separator.
pub open spec fn join_with(ss: Seq<Seq<char>>, sep: Seq<char>) -> Seq<char>
    decreases ss.len(),
{
    if ss.len() == 0 {
        Seq::empty()
    } else if ss.len() == 1 {
        ss[0]
    } else {
        join_with(ss.drop_last(), sep) + sep + ss.last()
    }
}

/// The values of a list of strings.
pub open spec fn strings_view(v: Seq<String>) -> Seq<Seq<char>> {
    v.map_values(|s: String| s@)
}

/// The strings among the elements of an array, in order.
pub fn array_strings(a: &Vec<Json>) -> (r: Vec<String>)
    ensures
        strings_view(r@) == strings_in(crate::json::jv_seq(a@)),
{
    let ghost s = crate::json::jv_seq(a@);
    let n = a.len();
    let mut out: Vec<String> = Vec::new();
    let mut i: usize = 0;
    assert(s.take(0) =~= Seq::<JsonV>::empty());
    assert(strings_view(out@) =~= Seq::<Seq<char>>::empty());
    while i < n
        invariant
            n == a@.len(),
            s == crate::json::jv_seq(a@),
            i <= n,
            strings_view(out@) == strings_in(s.take(i as int)),
        decreases n - i,
    {
        assert(s.take(i + 1).drop_last() =~= s.take(i as int));
        assert(s.take(i + 1).last() == a@[i as int]@);
        let ghost before = out@;
        match a[i].as_str() {
            Some(x) => {
                out.push(x.clone());
                assert(strings_view(out@) =~= strings_view(before).push(x@));
            },
            None => {},
        }
        i = i + 1;
    }
    assert(s.take(n as int) =~= s);
    out
}

/// The text fields `key` of the elements of an array, in order.
pub fn array_fields(a: &Vec<Json>, key: &str) -> (r: Vec<String>)
    ensures
        strings_view(r@) == fields_in(crate::json::jv_seq(a@), key@),
{
    let ghost s = crate::json::jv_seq(a@);
    let n = a.len();
    let mut out: Vec<String> = Vec::new();
    let mut i: usize = 0;
    assert(s.take(0) =~= Seq::<JsonV>::empty());
    assert(strings_view(out@) =~= Seq::<Seq<char>>::empty());
    while i < n
        invariant
            n == a@.len(),
            s == crate::json::jv_seq(a@),
            i <= n,
            strings_view(out@) == fields_in(s.take(i as int), key@),
        decreases n - i,
    {
        assert(s.take(i + 1).drop_last() =~= s.take(i as int));
        assert(s.take(i + 1).last() == a@[i as int]@);
        let ghost before = out@;
        match a[i].get_str(key) {
            Some(x) => {
                out.push(x.clone());
                assert(strings_view(out@) =~= strings_view(before).push(x@));
            },
            None => {},
        }
        i = i + 1;
    }
    assert(s.take(n as int) =~= s);
    out
}

/// Strings joined with a separator (`join`).
pub fn join_strings(v: &Vec<String>, sep: &str) -> (r: String)
    ensures
        r@ == join_with(strings_view(v@), sep@),
{
    let ghost ss = strings_view(v@);
    let n = v.len();
    let mut out = String::new();
    let mut i: usize = 0;
    assert(ss.take(0) =~= Seq::<Seq<char>>::empty());
    while i < n
        invariant
            n == v@.len(),
            ss == strings_view(v@),
            i <= n,
            out@ == join_with(ss.take(i as int), sep@),
        decreases n - i,
    {
        assert(ss.take(i + 1).drop_last() =~= ss.take(i as int));
        assert(ss.take(i + 1).last() == v@[i as int]@);
        if i > 0 {
            out.append(sep);
        } else {
            assert(ss.take(1)[0] == v@[0]@);
        }
        out.append(v[i].as_str());
        i = i + 1;
    }
    assert(ss.take(n as int) =~= ss);
    out
}

/// The id and name of an API object; both are needed for it to count as a resource.
pub open spec fn id_and_name(v: JsonV) -> Option<(Seq<char>, Seq<char>)> {
    match (object_id(v), str_at(v, "name"@)) {
        (Some(i), Some(n)) => Some((i, n)),
        _ => None,
    }
}

/// The id and name of an API object.
pub fn read_id_name(v: &Json) -> (r: Option<(String, String)>)
    ensures
        r matches Some(p) ==> id_and_name(v@) == Some((p.0@, p.1@)),
        r is None ==> id_and_name(v@) is None,
{
    let id = match id_of(v) {
        Some(x) => x,
        None => return None,
    };
    match v.get_str("name") {
        Some(n) => Some((id, n.clone())),
        None => None,
    }
}

/// A whole number read from a text field, 0 when absent or not a number.
pub open spec fn count_at(v: JsonV, key: Seq<char>) -> u64 {
    match str_at(v, key) {
        Some(s) => match spec_parse_u64(s) {
            Some(n) => n,
            None => 0,
        },
        None => 0,
    }
}

/// A whole number read from the text field `key`.
pub fn read_count(v: &Json, key: &str) -> (r: u64)
    ensures
        r == count_at(v@, key@),
{
    match v.get_str(key) {
        Some(s) => match parse_u64(s.as_str()) {
            Some(n) => n,
            None => 0,
        },
        None => 0,
    }
}

/// `10` to the power `n`.
pub open spec fn pow10(n: nat) -> nat
    decreases n,
{
    if n == 0 {
        1
    } else {
        10 * pow10((n - 1) as nat)
    }
}

/// Where reading a decimal has got to: the whole part, the first (at most nine)
/// fraction digits and how many they are, whether the point was passed, and whether a
/// digit was seen.
pub type DecimalState = (nat, nat, nat, bool, bool);

/// Reading one more character of a decimal: a digit extends the whole part before the
/// point and the kept fraction digits after it; one point may occur; anything else is
/// not a decimal.
pub open spec fn decimal_step(st: DecimalState, c: char) -> Option<DecimalState> {
    let (whole, frac, kept, dot, any) = st;
    if is_digit(c) {
        if !dot {
            Some((whole * 10 + digit_value(c), frac, kept, dot, true))
        } else if kept < 9 {
            Some((whole, frac * 10 + digit_value(c), kept + 1, dot, true))
        } else {
            Some((whole, frac, kept, dot, true))
        }
    } else if c == '.' && !dot {
        Some((whole, frac, kept, true, any))
    } else {
        None
    }
}

/// Reading the characters of `s` one by one.
pub open spec fn decimal_scan(s: Seq<char>) -> Option<DecimalState>
    decreases s.len(),
{
    if s.len() == 0 {
        Some((0, 0, 0, false, false))
    } else {
        match decimal_scan(s.drop_last()) {
            Some(st) => decimal_step(st, s.last()),
            None => None,
        }
    }
}

/// A number in plain decimal notation: an optional `+`, digits with at most one `.`
/// among them, at least one digit; its value in billionths, the fraction cut after nine
/// digits. This is the plain part of what `str::parse::<f64>` accepts: exponent forms
/// (`1e2`), `inf`, `NaN` and negative numbers are not read.
pub open spec fn decimal_nanos(s: Seq<char>) -> Option<int> {
    match decimal_scan(unsigned_body(s)) {
        Some((whole, frac, kept, _, any)) => if any {
            Some((whole * 1_000_000_000 + frac * pow10((9 - kept) as nat)) as int)
        } else {
            None
        },
        None => None,
    }
}

/// The whole part beyond which a value in billionths no longer fits in `u64`.
const WHOLE_LIMIT: u64 = 18_446_744_074;

proof fn lemma_min_step(a: nat, d: nat, m: nat)
    ensures
        (if a * 10 + d < m { a * 10 + d } else { m }) == (if (if a < m { a } else { m }) * 10 + d < m {
            (if a < m { a } else { m }) * 10 + d
        } else {
            m
        }),
{
    if a >= m {
        assert(m * 10 + d >= m) by (nonlinear_arith);
        assert(a * 10 + d >= m) by (nonlinear_arith)
            requires
                a >= m,
        ;
    }
}

/// A decimal text read as billionths, saturated at the top of `u64`.
pub fn parse_decimal_nanos(s: &str) -> (r: Option<u64>)
    ensures
        r == match decimal_nanos(s@) {
            Some(v) => Some(cap(v)),
            None => None,
        },
{
    let n = s.unicode_len();
    let mut start: usize = 0;
    if n > 0 && s.get_char(0) == '+' {
        start = 1;
    }
    let ghost body = unsigned_body(s@);
    assert(body =~= s@.skip(start as int));
    let mut whole: u64 = 0;
    let mut frac: u64 = 0;
    let mut kept: u64 = 0;
    let mut dot = false;
    let mut any = false;
    let ghost mut full: nat = 0;
    let mut i: usize = start;
    assert(body.take(0) =~= Seq::<char>::empty());
    while i < n
        invariant
            n == s@.len(),
            start <= i <= n,
            body == unsigned_body(s@),
            body =~= s@.skip(start as int),
            decimal_scan(body.take(i - start)) == Some((full, frac as nat, kept as nat, dot, any)),
            whole as nat == if full < WHOLE_LIMIT { full } else { WHOLE_LIMIT as nat },
            kept <= 9,
            frac < pow10(kept as nat),
        decreases n - i,
    {
        let c = s.get_char(i);
        assert(body[i - start] == c);
        assert(body.take(i + 1 - start).drop_last() =~= body.take(i - start));
        assert(body.take(i + 1 - start).last() == c);
        if '0' <= c && c <= '9' {
            let d = (c as u32 - '0' as u32) as u64;
            assert(digit_value(c) == d);
            any = true;
            if !dot {
                proof {
                    lemma_min_step(full, d as nat, WHOLE_LIMIT as nat);
                    full = (full * 10 + d) as nat;
                }
                if whole >= WHOLE_LIMIT {
                    whole = WHOLE_LIMIT;
                } else {
                    let w = whole * 10 + d;
                    whole = if w < WHOLE_LIMIT { w } else { WHOLE_LIMIT };
                }
            } else if kept < 9 {
                assert(frac * 10 + d < pow10((kept + 1) as nat)) by (nonlinear_arith)
                    requires
                        frac < pow10(kept as nat),
                        d <= 9,
                        pow10((kept + 1) as nat) == 10 * pow10(kept as nat),
                ;
                assert(pow10(kept as nat) <= 100_000_000) by {
                    reveal_with_fuel(pow10, 10);
                }
                frac = frac * 10 + d;
                kept = kept + 1;
            }
        } else if c == '.' && !dot {
            dot = true;
        } else {
            assert(decimal_scan(body) is None) by {
                lemma_scan_stops(body, i + 1 - start);
            }
            return None;
        }
        i = i + 1;
    }
    assert(body.take(n - start) =~= body);
    if !any {
        return None;
    }
    assert(pow10((9 - kept) as nat) <= 1_000_000_000 && frac * pow10((9 - kept) as nat)
        < 1_000_000_000) by {
        lemma_pow10_split(kept as nat);
        assert(frac * pow10((9 - kept) as nat) < pow10(kept as nat) * pow10((9 - kept) as nat))
            by (nonlinear_arith)
            requires
                frac < pow10(kept as nat),
                pow10((9 - kept) as nat) >= 1,
        ;
    }
    let scale: u64 = pow10_exec(9 - kept);
    let f: u64 = frac * scale;
    if whole >= WHOLE_LIMIT {
        assert(full * 1_000_000_000 + f > u64::MAX) by (nonlinear_arith)
            requires
                full >= 18_446_744_074,
        ;
        Some(u64::MAX)
    } else {
        let total: u128 = (whole as u128) * 1_000_000_000 + (f as u128);
        if total > u64::MAX as u128 {
            Some(u64::MAX)
        } else {
            Some(total as u64)
        }
    }
}

proof fn lemma_scan_stops(s: Seq<char>, i: int)
    requires
        0 < i <= s.len(),
        decimal_scan(s.take(i)) is None,
    ensures
        decimal_scan(s) is None,
    decreases s.len() - i,
{
    if i < s.len() {
        assert(s.take(i + 1).drop_last() =~= s.take(i));
        lemma_scan_stops(s, i + 1);
    } else {
        assert(s.take(i) =~= s);
    }
}

proof fn lemma_pow10_add(a: nat, b: nat)
    ensures
        pow10(a) * pow10(b) == pow10(a + b),
        pow10(b) >= 1,
    decreases a,
{
    lemma_pow10_positive(b);
    if a > 0 {
        let p: nat = (a - 1) as nat;
        lemma_pow10_add(p, b);
        let x = pow10(p);
        let y = pow10(b);
        assert(pow10(a) == 10 * x);
        assert(pow10(p + b + 1) == 10 * pow10(p + b));
        assert(p + b + 1 == a + b);
        assert((10 * x) * y == 10 * (x * y)) by (nonlinear_arith);
    } else {
        assert(pow10(0) == 1);
        assert(a + b == b);
    }
}

proof fn lemma_pow10_positive(b: nat)
    ensures
        pow10(b) >= 1,
    decreases b,
{
    if b > 0 {
        lemma_pow10_positive((b - 1) as nat);
    }
}

proof fn lemma_pow10_split(k: nat)
    requires
        k <= 9,
    ensures
        pow10(k) * pow10((9 - k) as nat) == 1_000_000_000,
        pow10((9 - k) as nat) >= 1,
        pow10((9 - k) as nat) <= 1_000_000_000,
{
    lemma_pow10_add(k, (9 - k) as nat);
    lemma_pow10_positive(k);
    assert(pow10(9) == 1_000_000_000) by {
        reveal_with_fuel(pow10, 10);
    }
    assert(pow10((9 - k) as nat) <= pow10(k) * pow10((9 - k) as nat)) by (nonlinear_arith)
        requires
            pow10(k) >= 1,
    ;
}

fn pow10_exec(k: u64) -> (r: u64)
    requires
        k <= 9,
    ensures
        r == pow10(k as nat),
{
    let mut r: u64 = 1;
    let mut i: u64 = 0;
    while i < k
        invariant
            i <= k <= 9,
            r == pow10(i as nat),
            r <= 1_000_000_000,
        decreases k - i,
    {
        assert(pow10((i + 1) as nat) == 10 * pow10(i as nat));
        assert(r <= 100_000_000) by {
            reveal_with_fuel(pow10, 10);
        }
        r = r * 10;
        i = i + 1;
    }
    r
}

/// A size read from a text field as billionths (a decimal number, saturated), 0 when
/// absent or not a decimal.
pub open spec fn size_at(v: JsonV, key: Seq<char>) -> u64 {
    match str_at(v, key) {
        Some(s) => match decimal_nanos(s) {
            Some(x) => cap(x),
            None => 0,
        },
        None => 0,
    }
}

/// A size read from the text field `key`, in billionths.
pub fn read_size(v: &Json, key: &str) -> (r: u64)
    ensures
        r == size_at(v@, key@),
{
    match v.get_str(key) {
        Some(s) => match parse_decimal_nanos(s.as_str()) {
            Some(n) => n,
            None => 0,
        },
        None => 0,
    }
}

/// A size in billionths as a floating-point JSON number.
pub open spec fn size_json(n: u64) -> JsonV {
    JsonV::Number(JsonNumber::Float(n as i128))
}

/// A size in billionths as a floating-point JSON number.
pub fn size_value(n: u64) -> (r: Json)
    ensures
        r@ == size_json(n),
{
    Json::fraction(n as i128)
}

/// A whole number written as a floating-point JSON number.
pub open spec fn float_json(n: u64) -> JsonV {
    JsonV::Number(JsonNumber::Float((n * 1_000_000_000) as i128))
}

/// A whole number as a floating-point JSON number.
pub fn float_value(n: u64) -> (r: Json)
    ensures
        r@ == float_json(n),
{
    Json::fraction((n as i128) * 1_000_000_000)
}

/// `f as u64` for a number of billionths: truncated toward zero, saturated.
pub open spec fn trunc_u64(x: int) -> u64 {
    if x <= 0 {
        0
    } else {
        crate::gcp::pricing::cap(x / 1_000_000_000)
    }
}

/// `v.as_u64().or_else(|| v.as_f64().map(|f| f as u64))`: every number reads as a whole
/// non-negative count.
pub open spec fn whole_number(v: JsonV) -> Option<u64> {
    match v {
        JsonV::Number(JsonNumber::PosInt(n)) => Some(n),
        JsonV::Number(JsonNumber::NegInt(_)) => Some(0),
        JsonV::Number(JsonNumber::Float(x)) => Some(trunc_u64(x as int)),
        _ => None,
    }
}

/// The number `v[key]` as a whole non-negative count.
pub fn read_whole(v: &Json, key: &str) -> (r: Option<u64>)
    ensures
        r == whole_number(jget(v@, key@)),
{
    match v.get(key) {
        Some(Json::Number(JsonNumber::PosInt(n))) => Some(*n),
        Some(Json::Number(JsonNumber::NegInt(_))) => Some(0),
        Some(Json::Number(JsonNumber::Float(x))) => {
            let x = *x;
            if x <= 0 {
                Some(0)
            } else {
                let q = x / 1_000_000_000;
                if q > 18_446_744_073_709_551_615i128 {
                    Some(u64::MAX)
                } else {
                    Some(q as u64)
                }
            }
        },
        _ => None,
    }
}

/// A text field of an optional object, with a default.
pub fn text_in(v: Option<&Json>, key: &str, default: &str) -> (r: String)
    ensures
        r@ == str_or(opt_jv(v), key@, default@),
{
    match v {
        Some(x) => str_at_or(x, key, default),
        None => String::from_str(default),
    }
}

/// A copy of a field of an optional object (null when absent).
pub fn field_in(v: Option<&Json>, key: &str) -> (r: Json)
    ensures
        r@ == jget(opt_jv(v), key@),
{
    match v {
        Some(x) => x.field(key),
        None => Json::Null,
    }
}

/// A field of an optional object.
pub fn get_in<'a>(v: Option<&'a Json>, key: &str) -> (r: Option<&'a Json>)
    ensures
        opt_jv(r) == jget(opt_jv(v), key@),
{
    match v {
        Some(x) => x.get(key),
        None => None,
    }
}

} // verus!
