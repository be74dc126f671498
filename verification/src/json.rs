//! A JSON document model with the lookups that API responses are read with.
//!
//! Numbers keep the three kinds a JSON reader distinguishes: non-negative integers,
//! negative integers and fractional numbers. A fractional number is held in billionths
//! (nano-units), so `as_f64`-style reads become exact integer arithmetic.

use vstd::prelude::*;
use crate::text::str_eq;

verus! {

/// A JSON number.
#[derive(Clone, Copy, Debug, PartialEq, Eq)]
pub enum JsonNumber {
    /// A non-negative integer.
    PosInt(u64),
    /// A negative integer.
    NegInt(i64),
    /// A number written with a fraction or exponent, in billionths.
    Float(i128),
}

/// A JSON value. Object entries keep their order; keys are compared exactly.
#[derive(Debug, PartialEq)]
pub enum Json {
    Null,
    Bool(bool),
    Number(JsonNumber),
    Str(String),
    Array(Vec<Json>),
    Object(Vec<(String, Json)>),
}

/// The mathematical value of a JSON document.
pub enum JsonV {
    Null,
    Bool(bool),
    Number(JsonNumber),
    Str(Seq<char>),
    Array(Seq<JsonV>),
    Object(Seq<(Seq<char>, JsonV)>),
}

pub open spec fn jview(j: Json) -> JsonV
    decreases j,
{
    match j {
        Json::Null => JsonV::Null,
        Json::Bool(b) => JsonV::Bool(b),
        Json::Number(n) => JsonV::Number(n),
        Json::Str(s) => JsonV::Str(s@),
        Json::Array(v) => JsonV::Array(
            Seq::new(
                v@.len(),
                |i: int|
                    if 0 <= i < v@.len() {
                        jview(v@[i])
                    } else {
                        JsonV::Null
                    },
            ),
        ),
        Json::Object(v) => JsonV::Object(
            Seq::new(
                v@.len(),
                |i: int|
                    if 0 <= i < v@.len() {
                        (v@[i].0@, jview(v@[i].1))
                    } else {
                        (Seq::empty(), JsonV::Null)
                    },
            ),
        ),
    }
}

impl View for Json {
    type V = JsonV;

    open spec fn view(&self) -> JsonV {
        jview(*self)
    }
}

/// The values of a sequence of documents.
pub open spec fn jv_seq(s: Seq<Json>) -> Seq<JsonV> {
    Seq::new(s.len(), |i: int| s[i]@)
}

/// The values of a sequence of object entries.
pub open spec fn jv_entries(s: Seq<(String, Json)>) -> Seq<(Seq<char>, JsonV)> {
    Seq::new(s.len(), |i: int| (s[i].0@, s[i].1@))
}

pub proof fn lemma_array_view(v: Vec<Json>)
    ensures
        Json::Array(v)@ == JsonV::Array(jv_seq(v@)),
{
    assert(jv_seq(v@) =~= match Json::Array(v)@ {
        JsonV::Array(s) => s,
        _ => Seq::empty(),
    });
}

pub proof fn lemma_object_view(v: Vec<(String, Json)>)
    ensures
        Json::Object(v)@ == JsonV::Object(jv_entries(v@)),
{
    assert(jv_entries(v@) =~= match Json::Object(v)@ {
        JsonV::Object(s) => s,
        _ => Seq::empty(),
    });
}

/// The value under key `k` in object entries: the first entry with that key, or null.
pub open spec fn obj_lookup(entries: Seq<(Seq<char>, JsonV)>, k: Seq<char>) -> JsonV
    decreases entries.len(),
{
    if entries.len() == 0 {
        JsonV::Null
    } else if entries[0].0 == k {
        entries[0].1
    } else {
        obj_lookup(entries.drop_first(), k)
    }
}

/// `value[key]`: the field of an object, or null for a missing key or a non-object.
pub open spec fn jget(v: JsonV, k: Seq<char>) -> JsonV {
    match v {
        JsonV::Object(e) => obj_lookup(e, k),
        _ => JsonV::Null,
    }
}

/// `as_str`.
pub open spec fn jstr(v: JsonV) -> Option<Seq<char>> {
    match v {
        JsonV::Str(s) => Some(s),
        _ => None,
    }
}

/// `as_bool`.
pub open spec fn jbool(v: JsonV) -> Option<bool> {
    match v {
        JsonV::Bool(b) => Some(b),
        _ => None,
    }
}

/// `as_u64`: only non-negative integers.
pub open spec fn ju64(v: JsonV) -> Option<u64> {
    match v {
        JsonV::Number(JsonNumber::PosInt(n)) => Some(n),
        _ => None,
    }
}

/// `as_i64`: integers that fit in `i64`.
pub open spec fn ji64(v: JsonV) -> Option<i64> {
    match v {
        JsonV::Number(JsonNumber::PosInt(n)) => if n <= i64::MAX {
            Some(n as i64)
        } else {
            None
        },
        JsonV::Number(JsonNumber::NegInt(n)) => Some(n),
        _ => None,
    }
}

/// `as_f64`, in billionths: every number has one.
pub open spec fn jnanos(v: JsonV) -> Option<int> {
    match v {
        JsonV::Number(JsonNumber::PosInt(n)) => Some(n * 1_000_000_000),
        JsonV::Number(JsonNumber::NegInt(n)) => Some(n * 1_000_000_000),
        JsonV::Number(JsonNumber::Float(x)) => Some(x as int),
        _ => None,
    }
}

/// `as_array`.
pub open spec fn jarr(v: JsonV) -> Option<Seq<JsonV>> {
    match v {
        JsonV::Array(s) => Some(s),
        _ => None,
    }
}

/// `as_object`.
pub open spec fn jobj(v: JsonV) -> Option<Seq<(Seq<char>, JsonV)>> {
    match v {
        JsonV::Object(e) => Some(e),
        _ => None,
    }
}

/// `is_object`.
pub open spec fn jis_object(v: JsonV) -> bool {
    v is Object
}

/// The value a looked-up reference stands for: null when absent.
pub open spec fn opt_jv(r: Option<&Json>) -> JsonV {
    match r {
        Some(x) => x@,
        None => JsonV::Null,
    }
}

proof fn lemma_lookup_skip(e: Seq<(Seq<char>, JsonV)>, k: Seq<char>, i: int)
    requires
        0 <= i < e.len(),
        e[i].0 != k,
    ensures
        obj_lookup(e.subrange(i, e.len() as int), k) == obj_lookup(
            e.subrange(i + 1, e.len() as int),
            k,
        ),
{
    assert(e.subrange(i, e.len() as int).drop_first() =~= e.subrange(i + 1, e.len() as int));
}

impl Json {
    /// `value[key]` as a reference, `None` standing for null.
    pub fn get<'a>(&'a self, key: &str) -> (r: Option<&'a Json>)
        ensures
            opt_jv(r) == jget(self@, key@),
    {
        match self {
            Json::Object(v) => {
                proof {
                    lemma_object_view(*v);
                }
                let ghost e = jv_entries(v@);
                assert(e.subrange(0, e.len() as int) =~= e);
                let n = v.len();
                let mut i: usize = 0;
                while i < n
                    invariant
                        n == v@.len(),
                        i <= n,
                        e == jv_entries(v@),
                        self@ == JsonV::Object(e),
                        obj_lookup(e, key@) == obj_lookup(e.subrange(i as int, e.len() as int), key@),
                    decreases n - i,
                {
                    let entry = &v[i];
                    if str_eq(entry.0.as_str(), key) {
                        assert(e.subrange(i as int, e.len() as int)[0] == e[i as int]);
                        return Some(&entry.1);
                    }
                    proof {
                        lemma_lookup_skip(e, key@, i as int);
                    }
                    i = i + 1;
                }
                assert(e.subrange(n as int, e.len() as int).len() == 0);
                None
            },
            _ => None,
        }
    }

    /// `as_str`.
    pub fn as_str(&self) -> (r: Option<&String>)
        ensures
            r matches Some(s) ==> jstr(self@) == Some(s@),
            r is None ==> jstr(self@) is None,
    {
        match self {
            Json::Str(s) => Some(s),
            _ => None,
        }
    }

    /// `as_bool`.
    pub fn as_bool(&self) -> (r: Option<bool>)
        ensures
            r == jbool(self@),
    {
        match self {
            Json::Bool(b) => Some(*b),
            _ => None,
        }
    }

    /// `as_u64`.
    pub fn as_u64(&self) -> (r: Option<u64>)
        ensures
            r == ju64(self@),
    {
        match self {
            Json::Number(JsonNumber::PosInt(n)) => Some(*n),
            _ => None,
        }
    }

    /// `as_i64`.
    pub fn as_i64(&self) -> (r: Option<i64>)
        ensures
            r == ji64(self@),
    {
        match self {
            Json::Number(JsonNumber::PosInt(n)) => if *n <= i64::MAX as u64 {
                Some(*n as i64)
            } else {
                None
            },
            Json::Number(JsonNumber::NegInt(n)) => Some(*n),
            _ => None,
        }
    }

    /// `as_f64`, in billionths.
    pub fn as_nanos(&self) -> (r: Option<i128>)
        ensures
            r matches Some(x) ==> jnanos(self@) == Some(x as int),
            r is None ==> jnanos(self@) is None,
    {
        match self {
            Json::Number(JsonNumber::PosInt(n)) => Some((*n as i128) * 1_000_000_000),
            Json::Number(JsonNumber::NegInt(n)) => Some((*n as i128) * 1_000_000_000),
            Json::Number(JsonNumber::Float(x)) => Some(*x),
            _ => None,
        }
    }

    /// `as_array`.
    pub fn as_array(&self) -> (r: Option<&Vec<Json>>)
        ensures
            r matches Some(v) ==> jarr(self@) == Some(jv_seq(v@)),
            r is None ==> jarr(self@) is None,
    {
        match self {
            Json::Array(v) => {
                proof {
                    lemma_array_view(*v);
                }
                Some(v)
            },
            _ => None,
        }
    }

    /// `as_object`.
    pub fn as_object(&self) -> (r: Option<&Vec<(String, Json)>>)
        ensures
            r matches Some(v) ==> jobj(self@) == Some(jv_entries(v@)),
            r is None ==> jobj(self@) is None,
    {
        match self {
            Json::Object(v) => {
                proof {
                    lemma_object_view(*v);
                }
                Some(v)
            },
            _ => None,
        }
    }

    /// `is_object`.
    pub fn is_object(&self) -> (r: bool)
        ensures
            r == jis_object(self@),
    {
        match self {
            Json::Object(_) => true,
            _ => false,
        }
    }

    /// A copy with the same value.
    pub fn deep_clone(&self) -> (r: Json)
        ensures
            r@ == self@,
        decreases self,
    {
        match self {
            Json::Null => Json::Null,
            Json::Bool(b) => Json::Bool(*b),
            Json::Number(n) => Json::Number(*n),
            Json::Str(s) => Json::Str(s.clone()),
            Json::Array(v) => {
                proof {
                    lemma_array_view(*v);
                }
                let n = v.len();
                let mut out: Vec<Json> = Vec::new();
                let mut i: usize = 0;
                while i < n
                    invariant
                        n == v@.len(),
                        i <= n,
                        out@.len() == i,
                        forall|j: int| 0 <= j < i ==> (#[trigger] out@[j])@ == v@[j]@,
                        *self == Json::Array(*v),
                    decreases n - i,
                {
                    proof {
                        broadcast use vstd::std_specs::vec::axiom_vec_index_decreases;

                        assert(decreases_to!(*v => v[i as int]));
                        assert(self->Array_0 == *v);
                        assert(decreases_to!(*self => self->Array_0));
                        assert(decreases_to!(*self => v@[i as int]));
                    }
                    let c = v[i].deep_clone();
                    out.push(c);
                    i = i + 1;
                }
                proof {
                    lemma_array_view(out);
                    assert(jv_seq(out@) =~= jv_seq(v@));
                }
                Json::Array(out)
            },
            Json::Object(v) => {
                proof {
                    lemma_object_view(*v);
                }
                let n = v.len();
                let mut out: Vec<(String, Json)> = Vec::new();
                let mut i: usize = 0;
                while i < n
                    invariant
                        n == v@.len(),
                        i <= n,
                        out@.len() == i,
                        forall|j: int|
                            0 <= j < i ==> (#[trigger] out@[j]).0@ == v@[j].0@ && out@[j].1@
                                == v@[j].1@,
                        *self == Json::Object(*v),
                    decreases n - i,
                {
                    proof {
                        broadcast use vstd::std_specs::vec::axiom_vec_index_decreases;

                        assert(decreases_to!(*v => v[i as int]));
                        assert(decreases_to!(v[i as int] => v[i as int].1));
                        assert(self->Object_0 == *v);
                        assert(decreases_to!(*self => self->Object_0));
                        assert(decreases_to!(*self => v@[i as int].1));
                    }
                    let k = v[i].0.clone();
                    let c = v[i].1.deep_clone();
                    out.push((k, c));
                    i = i + 1;
                }
                proof {
                    lemma_object_view(out);
                    assert(jv_entries(out@) =~= jv_entries(v@));
                }
                Json::Object(out)
            },
        }
    }

    /// A copy of `value[key]` (null when absent).
    pub fn field(&self, key: &str) -> (r: Json)
        ensures
            r@ == jget(self@, key@),
    {
        match self.get(key) {
            Some(x) => x.deep_clone(),
            None => Json::Null,
        }
    }

    /// `value[key].as_str()`.
    pub fn get_str<'a>(&'a self, key: &str) -> (r: Option<&'a String>)
        ensures
            r matches Some(s) ==> jstr(jget(self@, key@)) == Some(s@),
            r is None ==> jstr(jget(self@, key@)) is None,
    {
        match self.get(key) {
            Some(x) => x.as_str(),
            None => None,
        }
    }

    /// `value[key].as_u64()`.
    pub fn get_u64(&self, key: &str) -> (r: Option<u64>)
        ensures
            r == ju64(jget(self@, key@)),
    {
        match self.get(key) {
            Some(x) => x.as_u64(),
            None => None,
        }
    }

    /// `value[key].as_i64()`.
    pub fn get_i64(&self, key: &str) -> (r: Option<i64>)
        ensures
            r == ji64(jget(self@, key@)),
    {
        match self.get(key) {
            Some(x) => x.as_i64(),
            None => None,
        }
    }

    /// `value[key].as_bool()`.
    pub fn get_bool(&self, key: &str) -> (r: Option<bool>)
        ensures
            r == jbool(jget(self@, key@)),
    {
        match self.get(key) {
            Some(x) => x.as_bool(),
            None => None,
        }
    }

    /// `value[key].as_f64()`, in billionths.
    pub fn get_nanos(&self, key: &str) -> (r: Option<i128>)
        ensures
            r matches Some(x) ==> jnanos(jget(self@, key@)) == Some(x as int),
            r is None ==> jnanos(jget(self@, key@)) is None,
    {
        match self.get(key) {
            Some(x) => x.as_nanos(),
            None => None,
        }
    }

    /// `value[key].as_array()`.
    pub fn get_array<'a>(&'a self, key: &str) -> (r: Option<&'a Vec<Json>>)
        ensures
            r matches Some(v) ==> jarr(jget(self@, key@)) == Some(jv_seq(v@)),
            r is None ==> jarr(jget(self@, key@)) is None,
    {
        match self.get(key) {
            Some(x) => x.as_array(),
            None => None,
        }
    }

    /// `value[key].as_object()`.
    pub fn get_object<'a>(&'a self, key: &str) -> (r: Option<&'a Vec<(String, Json)>>)
        ensures
            r matches Some(v) ==> jobj(jget(self@, key@)) == Some(jv_entries(v@)),
            r is None ==> jobj(jget(self@, key@)) is None,
    {
        match self.get(key) {
            Some(x) => x.as_object(),
            None => None,
        }
    }

    /// A string value.
    pub fn string(s: &str) -> (r: Json)
        ensures
            r@ == JsonV::Str(s@),
    {
        Json::Str(String::from_str(s))
    }

    /// A number from an unsigned integer.
    pub fn unsigned(n: u64) -> (r: Json)
        ensures
            r@ == JsonV::Number(JsonNumber::PosInt(n)),
    {
        Json::Number(JsonNumber::PosInt(n))
    }

    /// A number from a signed integer (non-negative ones are stored as unsigned).
    pub fn signed(n: i64) -> (r: Json)
        ensures
            r@ == JsonV::Number(num_from_i64(n)),
    {
        if n >= 0 {
            Json::Number(JsonNumber::PosInt(n as u64))
        } else {
            Json::Number(JsonNumber::NegInt(n))
        }
    }

    /// A fractional number given in billionths.
    pub fn fraction(x: i128) -> (r: Json)
        ensures
            r@ == JsonV::Number(JsonNumber::Float(x)),
    {
        Json::Number(JsonNumber::Float(x))
    }

    /// An optional string: the string, or null.
    pub fn opt_string(s: &Option<String>) -> (r: Json)
        ensures
            r@ == opt_str_jv(opt_view(*s)),
    {
        match s {
            Some(x) => Json::Str(x.clone()),
            None => Json::Null,
        }
    }

    /// An array of strings.
    pub fn strings(v: &Vec<String>) -> (r: Json)
        ensures
            r@ == JsonV::Array(v@.map_values(|s: String| JsonV::Str(s@))),
    {
        let n = v.len();
        let mut out: Vec<Json> = Vec::new();
        let mut i: usize = 0;
        while i < n
            invariant
                n == v@.len(),
                i <= n,
                out@.len() == i,
                forall|j: int| 0 <= j < i ==> (#[trigger] out@[j])@ == JsonV::Str(v@[j]@),
            decreases n - i,
        {
            out.push(Json::Str(v[i].clone()));
            i = i + 1;
        }
        proof {
            lemma_array_view(out);
            assert(jv_seq(out@) =~= v@.map_values(|s: String| JsonV::Str(s@)));
        }
        Json::Array(out)
    }

    /// An object from its entries.
    pub fn object(entries: Vec<(String, Json)>) -> (r: Json)
        ensures
            r@ == JsonV::Object(jv_entries(entries@)),
    {
        proof {
            lemma_object_view(entries);
        }
        Json::Object(entries)
    }
}

/// How a signed integer is stored as a JSON number.
pub open spec fn num_from_i64(n: i64) -> JsonNumber {
    if n >= 0 {
        JsonNumber::PosInt(n as u64)
    } else {
        JsonNumber::NegInt(n)
    }
}

/// The value of an optional string as a view.
pub open spec fn opt_view(s: Option<String>) -> Option<Seq<char>> {
    match s {
        Some(x) => Some(x@),
        None => None,
    }
}

/// An optional string as JSON: the string, or null.
pub open spec fn opt_str_jv(s: Option<Seq<char>>) -> JsonV {
    match s {
        Some(x) => JsonV::Str(x),
        None => JsonV::Null,
    }
}

/// Appends an entry to object entries under construction.
pub fn put(entries: &mut Vec<(String, Json)>, key: &str, value: Json)
    ensures
        jv_entries(final(entries)@) == jv_entries(old(entries)@).push((key@, value@)),
{
    let ghost before = entries@;
    entries.push((String::from_str(key), value));
    assert(jv_entries(entries@) =~= jv_entries(before).push((key@, value@)));
}

} // verus!
