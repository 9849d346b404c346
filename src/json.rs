//! A JSON value model: what the library builds for the store and reads back.

use vstd::prelude::*;
use vstd::string::StringExecFns;

verus! {

broadcast use vstd::std_specs::vec::group_vec_axioms;

/// A JSON value. Objects keep their entries in order of insertion; a float
/// is held as the bit pattern of a finite IEEE-754 binary64 number.
#[derive(Debug, PartialEq)]
pub enum Json {
    Null,
    Bool(bool),
    Int(u64),
    Float(u64),
    Str(String),
    Array(Vec<Json>),
    Object(Vec<(String, Json)>),
}

/// The mathematical model of a `Json` value.
pub enum JsonV {
    Null,
    Bool(bool),
    Int(u64),
    Float(u64),
    Str(Seq<char>),
    Array(Seq<JsonV>),
    Object(Seq<(Seq<char>, JsonV)>),
}

/// The model of a `Json` value, by structure.
pub open spec fn json_view(j: Json) -> JsonV
    decreases j,
{
    match j {
        Json::Null => JsonV::Null,
        Json::Bool(b) => JsonV::Bool(b),
        Json::Int(n) => JsonV::Int(n),
        Json::Float(bits) => JsonV::Float(bits),
        Json::Str(s) => JsonV::Str(s@),
        Json::Array(v) => JsonV::Array(
            Seq::new(
                v@.len(),
                |i: int|
                    if 0 <= i < v@.len() {
                        json_view(v@[i])
                    } else {
                        JsonV::Null
                    },
            ),
        ),
        Json::Object(v) => JsonV::Object(
            Seq::new(
                v@.len(),
                |i: int|
                    if 0 <= i < v@.len() {
                        (v@[i].0@, json_view(v@[i].1))
                    } else {
                        (Seq::empty(), JsonV::Null)
                    },
            ),
        ),
    }
}

impl View for Json {
    type V = JsonV;

    open spec fn view(&self) -> JsonV {
        json_view(*self)
    }
}

/// The model of a list of object entries.
pub open spec fn entries_view(v: Seq<(String, Json)>) -> Seq<(Seq<char>, JsonV)> {
    Seq::new(v.len(), |i: int| (v[i].0@, v[i].1@))
}

/// The model of a list of values.
pub open spec fn values_view(v: Seq<Json>) -> Seq<JsonV> {
    Seq::new(v.len(), |i: int| v[i]@)
}

pub proof fn lemma_object_view(v: Vec<(String, Json)>)
    ensures
        Json::Object(v)@ == JsonV::Object(entries_view(v@)),
{
    let j = Json::Object(v);
    assert(j@->Object_0 =~= entries_view(v@));
}

pub proof fn lemma_array_view(v: Vec<Json>)
    ensures
        Json::Array(v)@ == JsonV::Array(values_view(v@)),
{
    let j = Json::Array(v);
    assert(j@->Array_0 =~= values_view(v@));
}

/// Whether an entry list holds the key.
pub open spec fn has_key(es: Seq<(Seq<char>, JsonV)>, k: Seq<char>) -> bool {
    exists|i: int| 0 <= i < es.len() && es[i].0 == k
}

/// The value of the first entry under the key, if any.
pub open spec fn lookup(es: Seq<(Seq<char>, JsonV)>, k: Seq<char>) -> Option<JsonV>
    decreases es.len(),
{
    if es.len() == 0 {
        None
    } else if es[0].0 == k {
        Some(es[0].1)
    } else {
        lookup(es.drop_first(), k)
    }
}

/// The value under the key in an object; `None` for a missing key or a value
/// that is not an object.
pub open spec fn member(j: JsonV, k: Seq<char>) -> Option<JsonV> {
    match j {
        JsonV::Object(es) => lookup(es, k),
        _ => None,
    }
}

/// The character of a decimal digit.
pub open spec fn digit_char(d: nat) -> char {
    if d == 0 { '0' }
    else if d == 1 { '1' }
    else if d == 2 { '2' }
    else if d == 3 { '3' }
    else if d == 4 { '4' }
    else if d == 5 { '5' }
    else if d == 6 { '6' }
    else if d == 7 { '7' }
    else if d == 8 { '8' }
    else { '9' }
}

/// The decimal numeral of a natural number, without leading zeros.
pub open spec fn decimal(n: nat) -> Seq<char>
    decreases n,
{
    if n < 10 {
        seq![digit_char(n)]
    } else {
        decimal(n / 10).push(digit_char(n % 10))
    }
}

fn digit_str(d: u64) -> (r: &'static str)
    requires
        d < 10,
    ensures
        r@ == seq![digit_char(d as nat)],
{
    proof {
        reveal_strlit("0");
        reveal_strlit("1");
        reveal_strlit("2");
        reveal_strlit("3");
        reveal_strlit("4");
        reveal_strlit("5");
        reveal_strlit("6");
        reveal_strlit("7");
        reveal_strlit("8");
        reveal_strlit("9");
    }
    if d == 0 { "0" }
    else if d == 1 { "1" }
    else if d == 2 { "2" }
    else if d == 3 { "3" }
    else if d == 4 { "4" }
    else if d == 5 { "5" }
    else if d == 6 { "6" }
    else if d == 7 { "7" }
    else if d == 8 { "8" }
    else { "9" }
}

/// Writes a number in decimal.
pub fn decimal_text(n: u64) -> (r: String)
    ensures
        r@ == decimal(n as nat),
    decreases n,
{
    if n < 10 {
        let mut s = String::new();
        s.append(digit_str(n));
        assert(s@ =~= decimal(n as nat));
        s
    } else {
        let mut s = decimal_text(n / 10);
        s.append(digit_str(n % 10));
        assert(s@ =~= decimal(n as nat));
        s
    }
}

impl Json {
    /// A deep copy.
    pub fn duplicate(&self) -> (r: Json)
        ensures
            r@ == self@,
        decreases self,
    {
        match self {
            Json::Null => Json::Null,
            Json::Bool(b) => Json::Bool(*b),
            Json::Int(n) => Json::Int(*n),
            Json::Float(bits) => Json::Float(*bits),
            Json::Str(s) => Json::Str(s.clone()),
            Json::Array(v) => {
                let mut out: Vec<Json> = Vec::new();
                let mut i: usize = 0;
                while i < v.len()
                    invariant
                        i <= v@.len(),
                        out@.len() == i,
                        *self == Json::Array(*v),
                        forall|k: int| 0 <= k < i ==> out@[k]@ == v@[k]@,
                    decreases v@.len() - i,
                {
                    proof {
                        assert(decreases_to!(*self => (*self)->Array_0));
                        assert(decreases_to!(*v => v[i as int]));
                    }
                    out.push(v[i].duplicate());
                    i = i + 1;
                }
                proof {
                    lemma_array_view(out);
                    lemma_array_view(*v);
                    assert(values_view(out@) =~= values_view(v@));
                }
                Json::Array(out)
            },
            Json::Object(v) => {
                let mut out: Vec<(String, Json)> = Vec::new();
                let mut i: usize = 0;
                while i < v.len()
                    invariant
                        i <= v@.len(),
                        out@.len() == i,
                        *self == Json::Object(*v),
                        forall|k: int| 0 <= k < i ==> out@[k].0@ == v@[k].0@ && out@[k].1@ == v@[k].1@,
                    decreases v@.len() - i,
                {
                    proof {
                        assert(decreases_to!(*self => (*self)->Object_0));
                        assert(decreases_to!(*v => v[i as int]));
                        assert(decreases_to!(v[i as int] => v[i as int].1));
                    }
                    out.push((v[i].0.clone(), v[i].1.duplicate()));
                    i = i + 1;
                }
                proof {
                    lemma_object_view(out);
                    lemma_object_view(*v);
                    assert(entries_view(out@) =~= entries_view(v@));
                }
                Json::Object(out)
            },
        }
    }
}

/// A required string member.
pub open spec fn req_str(j: JsonV, k: Seq<char>) -> Option<Seq<char>> {
    match member(j, k) {
        Some(JsonV::Str(s)) => Some(s),
        _ => None,
    }
}

/// A required integer member.
pub open spec fn req_int(j: JsonV, k: Seq<char>) -> Option<u64> {
    match member(j, k) {
        Some(JsonV::Int(n)) => Some(n),
        _ => None,
    }
}

/// A required boolean member.
pub open spec fn req_bool(j: JsonV, k: Seq<char>) -> Option<bool> {
    match member(j, k) {
        Some(JsonV::Bool(b)) => Some(b),
        _ => None,
    }
}

/// An optional string member: `Some(None)` when it is missing or null,
/// `None` when it holds anything but a string.
pub open spec fn opt_str_member(j: JsonV, k: Seq<char>) -> Option<Option<Seq<char>>> {
    match member(j, k) {
        None => Some(None),
        Some(JsonV::Null) => Some(None),
        Some(JsonV::Str(s)) => Some(Some(s)),
        _ => None,
    }
}

/// An optional integer member, read as `opt_str_member` reads a string.
pub open spec fn opt_int_member(j: JsonV, k: Seq<char>) -> Option<Option<u64>> {
    match member(j, k) {
        None => Some(None),
        Some(JsonV::Null) => Some(None),
        Some(JsonV::Int(n)) => Some(Some(n)),
        _ => None,
    }
}

/// An optional boolean member, read as `opt_str_member` reads a string.
pub open spec fn opt_bool_member(j: JsonV, k: Seq<char>) -> Option<Option<bool>> {
    match member(j, k) {
        None => Some(None),
        Some(JsonV::Null) => Some(None),
        Some(JsonV::Bool(b)) => Some(Some(b)),
        _ => None,
    }
}

proof fn lemma_lookup_skip(es: Seq<(Seq<char>, JsonV)>, k: Seq<char>, i: int)
    requires
        0 <= i < es.len(),
        es[i].0 != k,
    ensures
        lookup(es.skip(i), k) == lookup(es.skip(i + 1), k),
{
    assert(es.skip(i).drop_first() =~= es.skip(i + 1));
}

impl Json {
    /// The value of the first entry under the key, when this is an object.
    pub fn get(&self, key: &str) -> (r: Option<&Json>)
        ensures
            r is Some <==> member(self@, key@) is Some,
            r matches Some(x) ==> member(self@, key@) == Some(x@),
    {
        match self {
            Json::Object(es) => {
                proof {
                    lemma_object_view(*es);
                }
                let ghost ev = entries_view(es@);
                let k = key.to_owned();
                let mut i: usize = 0;
                assert(ev.skip(0) =~= ev);
                while i < es.len()
                    invariant
                        i <= es@.len(),
                        ev == entries_view(es@),
                        k@ == key@,
                        self@ == JsonV::Object(ev),
                        lookup(ev, key@) == lookup(ev.skip(i as int), key@),
                    decreases es@.len() - i,
                {
                    if es[i].0 == k {
                        assert(ev.skip(i as int)[0] == ev[i as int]);
                        return Some(&es[i].1);
                    }
                    proof {
                        lemma_lookup_skip(ev, key@, i as int);
                    }
                    i = i + 1;
                }
                assert(ev.skip(i as int) =~= Seq::<(Seq<char>, JsonV)>::empty());
                None
            },
            _ => None,
        }
    }

    /// A required string member.
    pub fn str_member(&self, key: &str) -> (r: Option<String>)
        ensures
            r matches Some(s) ==> req_str(self@, key@) == Some(s@),
            r is None ==> req_str(self@, key@) is None,
    {
        match self.get(key) {
            Some(Json::Str(s)) => Some(s.clone()),
            _ => None,
        }
    }

    /// A required integer member.
    pub fn int_member(&self, key: &str) -> (r: Option<u64>)
        ensures
            r == req_int(self@, key@),
    {
        match self.get(key) {
            Some(Json::Int(n)) => Some(*n),
            _ => None,
        }
    }

    /// A required boolean member.
    pub fn bool_member(&self, key: &str) -> (r: Option<bool>)
        ensures
            r == req_bool(self@, key@),
    {
        match self.get(key) {
            Some(Json::Bool(b)) => Some(*b),
            _ => None,
        }
    }

    /// An optional string member.
    pub fn opt_str(&self, key: &str) -> (r: Option<Option<String>>)
        ensures
            r is None <==> opt_str_member(self@, key@) is None,
            r matches Some(None) ==> opt_str_member(self@, key@) == Some(None::<Seq<char>>),
            r matches Some(Some(s)) ==> opt_str_member(self@, key@) == Some(Some(s@)),
    {
        match self.get(key) {
            None => Some(None),
            Some(Json::Null) => Some(None),
            Some(Json::Str(s)) => Some(Some(s.clone())),
            _ => None,
        }
    }

    /// An optional integer member.
    pub fn opt_int(&self, key: &str) -> (r: Option<Option<u64>>)
        ensures
            r == opt_int_member(self@, key@),
    {
        match self.get(key) {
            None => Some(None),
            Some(Json::Null) => Some(None),
            Some(Json::Int(n)) => Some(Some(*n)),
            _ => None,
        }
    }

    /// An optional boolean member.
    pub fn opt_bool(&self, key: &str) -> (r: Option<Option<bool>>)
        ensures
            r == opt_bool_member(self@, key@),
    {
        match self.get(key) {
            None => Some(None),
            Some(Json::Null) => Some(None),
            Some(Json::Bool(b)) => Some(Some(*b)),
            _ => None,
        }
    }
}

} // verus!
