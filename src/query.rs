//! Query specifications: a selector with paging, sorting, projection and
//! consistency settings, assembled by a consuming builder.

use vstd::prelude::*;
use vstd::string::StringExecFns;

use crate::json::{entries_view, lemma_array_view, lemma_object_view, values_view, Json, JsonV};
use crate::search::{leaf_v, serialized, SearchTerm, TermV};

verus! {

broadcast use vstd::std_specs::vec::group_vec_axioms;

/// One sort key: a property and a direction.
#[derive(Debug)]
pub struct SortTerm {
    asc: bool,
    property: String,
}

impl View for SortTerm {
    /// The property and whether the order is ascending.
    type V = (Seq<char>, bool);

    closed spec fn view(&self) -> (Seq<char>, bool) {
        (self.property@, self.asc)
    }
}

impl SortTerm {
    /// Sorts by ascending values of the property.
    pub fn ascending(prop: String) -> (r: SortTerm)
        ensures
            r@ == (prop@, true),
    {
        SortTerm { asc: true, property: prop }
    }

    /// Sorts by descending values of the property.
    pub fn descending(prop: String) -> (r: SortTerm)
        ensures
            r@ == (prop@, false),
    {
        SortTerm { asc: false, property: prop }
    }

    /// The sort key as the store reads it: `{property: "asc" | "desc"}`.
    pub fn to_json(&self) -> (r: Json)
        ensures
            r@ == sort_json(self@),
    {
        let dir = if self.asc {
            String::from_str("asc")
        } else {
            String::from_str("desc")
        };
        let out = vec![(self.property.clone(), Json::Str(dir))];
        proof {
            lemma_object_view(out);
            assert(entries_view(out@) =~= seq![(self@.0, JsonV::Str(if self@.1 { "asc"@ } else { "desc"@ }))]);
        }
        Json::Object(out)
    }
}

/// The JSON of a sort key.
pub open spec fn sort_json(s: (Seq<char>, bool)) -> JsonV {
    JsonV::Object(seq![(s.0, JsonV::Str(if s.1 { "asc"@ } else { "desc"@ }))])
}

/// The model of a query specification.
pub struct QueryV {
    pub selector: TermV,
    pub limit: Option<u32>,
    pub skip: Option<u32>,
    pub sort: Option<Seq<(Seq<char>, bool)>>,
    pub fields: Option<Seq<Seq<char>>>,
    pub r: Option<u32>,
    pub bookmark: Option<Seq<char>>,
    pub update: Option<bool>,
    pub stable: Option<bool>,
    pub stale: Option<bool>,
    pub execution_stats: Option<bool>,
}

/// A query with a null selector and no other setting.
pub open spec fn empty_query() -> QueryV {
    QueryV {
        selector: leaf_v(JsonV::Null, false),
        limit: None,
        skip: None,
        sort: None,
        fields: None,
        r: None,
        bookmark: None,
        update: None,
        stable: None,
        stale: None,
        execution_stats: None,
    }
}

/// One entry for a setting that is present, none for one that is absent.
pub open spec fn opt_entry(k: Seq<char>, v: Option<JsonV>) -> Seq<(Seq<char>, JsonV)> {
    match v {
        Some(x) => seq![(k, x)],
        None => Seq::empty(),
    }
}

pub open spec fn opt_int(v: Option<u32>) -> Option<JsonV> {
    match v {
        Some(n) => Some(JsonV::Int(n as u64)),
        None => None,
    }
}

pub open spec fn opt_bool(v: Option<bool>) -> Option<JsonV> {
    match v {
        Some(b) => Some(JsonV::Bool(b)),
        None => None,
    }
}

pub open spec fn opt_sort(v: Option<Seq<(Seq<char>, bool)>>) -> Option<JsonV> {
    match v {
        Some(s) => Some(JsonV::Array(Seq::new(s.len(), |i: int| sort_json(s[i])))),
        None => None,
    }
}

pub open spec fn opt_strs(v: Option<Seq<Seq<char>>>) -> Option<JsonV> {
    match v {
        Some(s) => Some(JsonV::Array(Seq::new(s.len(), |i: int| JsonV::Str(s[i])))),
        None => None,
    }
}

pub open spec fn opt_str(v: Option<Seq<char>>) -> Option<JsonV> {
    match v {
        Some(s) => Some(JsonV::Str(s)),
        None => None,
    }
}

/// The request body of a search: the selector first, then each setting that
/// is present, in a fixed order; absent settings are left out.
pub open spec fn query_json(q: QueryV) -> JsonV {
    JsonV::Object(
        seq![("selector"@, serialized(q.selector))]
            + opt_entry("limit"@, opt_int(q.limit))
            + opt_entry("skip"@, opt_int(q.skip))
            + opt_entry("sort"@, opt_sort(q.sort))
            + opt_entry("fields"@, opt_strs(q.fields))
            + opt_entry("r"@, opt_int(q.r))
            + opt_entry("bookmark"@, opt_str(q.bookmark))
            + opt_entry("update"@, opt_bool(q.update))
            + opt_entry("stable"@, opt_bool(q.stable))
            + opt_entry("stale"@, opt_bool(q.stale))
            + opt_entry("execution_stats"@, opt_bool(q.execution_stats)),
    )
}

/// A search request: a selector and optional settings. Built once by a
/// `SearchBuilder`.
#[derive(Debug)]
pub struct SearchInfo {
    selector: SearchTerm,
    limit: Option<u32>,
    skip: Option<u32>,
    sort: Option<Vec<SortTerm>>,
    fields: Option<Vec<String>>,
    r: Option<u32>,
    bookmark: Option<String>,
    update: Option<bool>,
    stable: Option<bool>,
    stale: Option<bool>,
    execution_stats: Option<bool>,
}

spec fn sorts_view(v: Option<Vec<SortTerm>>) -> Option<Seq<(Seq<char>, bool)>> {
    match v {
        Some(s) => Some(Seq::new(s@.len(), |i: int| s@[i]@)),
        None => None,
    }
}

spec fn strs_view(v: Option<Vec<String>>) -> Option<Seq<Seq<char>>> {
    match v {
        Some(s) => Some(Seq::new(s@.len(), |i: int| s@[i]@)),
        None => None,
    }
}

spec fn str_view(v: Option<String>) -> Option<Seq<char>> {
    match v {
        Some(s) => Some(s@),
        None => None,
    }
}

impl View for SearchInfo {
    type V = QueryV;

    closed spec fn view(&self) -> QueryV {
        QueryV {
            selector: self.selector@,
            limit: self.limit,
            skip: self.skip,
            sort: sorts_view(self.sort),
            fields: strs_view(self.fields),
            r: self.r,
            bookmark: str_view(self.bookmark),
            update: self.update,
            stable: self.stable,
            stale: self.stale,
            execution_stats: self.execution_stats,
        }
    }
}

fn push_int(out: &mut Vec<(String, Json)>, key: &str, v: Option<u32>)
    ensures
        entries_view(final(out)@) == entries_view(old(out)@) + opt_entry(key@, opt_int(v)),
{
    if let Some(n) = v {
        out.push((key.to_owned(), Json::Int(n as u64)));
    }
    assert(entries_view(out@) =~= entries_view(old(out)@) + opt_entry(key@, opt_int(v)));
}

fn push_bool(out: &mut Vec<(String, Json)>, key: &str, v: Option<bool>)
    ensures
        entries_view(final(out)@) == entries_view(old(out)@) + opt_entry(key@, opt_bool(v)),
{
    if let Some(b) = v {
        out.push((key.to_owned(), Json::Bool(b)));
    }
    assert(entries_view(out@) =~= entries_view(old(out)@) + opt_entry(key@, opt_bool(v)));
}

impl SearchInfo {
    pub(crate) fn new() -> (r: SearchInfo)
        ensures
            r@ == empty_query(),
    {
        SearchInfo {
            selector: SearchTerm::null(),
            limit: None,
            skip: None,
            sort: None,
            fields: None,
            r: None,
            bookmark: None,
            update: None,
            stable: None,
            stale: None,
            execution_stats: None,
        }
    }

    /// The request body of this search.
    pub fn to_json(&self) -> (r: Json)
        ensures
            r@ == query_json(self@),
    {
        let mut out: Vec<(String, Json)> = Vec::new();
        out.push((String::from_str("selector"), self.selector.serialize()));
        assert(entries_view(out@) =~= seq![("selector"@, serialized(self@.selector))]);
        push_int(&mut out, "limit", self.limit);
        push_int(&mut out, "skip", self.skip);
        let ghost before_sort = entries_view(out@);
        match &self.sort {
            Some(s) => {
                let mut arr: Vec<Json> = Vec::new();
                let mut i: usize = 0;
                while i < s.len()
                    invariant
                        i <= s@.len(),
                        arr@.len() == i,
                        forall|k: int| 0 <= k < i ==> arr@[k]@ == sort_json(s@[k]@),
                    decreases s@.len() - i,
                {
                    arr.push(s[i].to_json());
                    i = i + 1;
                }
                proof {
                    lemma_array_view(arr);
                    assert(values_view(arr@) =~= Seq::new(s@.len(), |k: int| sort_json(s@[k]@)));
                    let sv = sorts_view(self.sort).unwrap();
                    assert(Seq::new(s@.len(), |k: int| sort_json(s@[k]@)) =~= Seq::new(sv.len(), |k: int| sort_json(sv[k])));
                }
                let ghost a = Json::Array(arr)@;
                out.push((String::from_str("sort"), Json::Array(arr)));
                assert(a == opt_sort(self@.sort).unwrap());
                assert(entries_view(out@) =~= before_sort.push(("sort"@, a)));
            },
            None => {},
        }
        assert(entries_view(out@) =~= before_sort + opt_entry("sort"@, opt_sort(self@.sort)));
        let ghost before_fields = entries_view(out@);
        match &self.fields {
            Some(f) => {
                let mut arr: Vec<Json> = Vec::new();
                let mut i: usize = 0;
                while i < f.len()
                    invariant
                        i <= f@.len(),
                        arr@.len() == i,
                        forall|k: int| 0 <= k < i ==> arr@[k]@ == JsonV::Str(f@[k]@),
                    decreases f@.len() - i,
                {
                    arr.push(Json::Str(f[i].clone()));
                    i = i + 1;
                }
                proof {
                    lemma_array_view(arr);
                    assert(values_view(arr@) =~= Seq::new(f@.len(), |k: int| JsonV::Str(f@[k]@)));
                    let fv = strs_view(self.fields).unwrap();
                    assert(Seq::new(f@.len(), |k: int| JsonV::Str(f@[k]@)) =~= Seq::new(fv.len(), |k: int| JsonV::Str(fv[k])));
                }
                let ghost a = Json::Array(arr)@;
                out.push((String::from_str("fields"), Json::Array(arr)));
                assert(a == opt_strs(self@.fields).unwrap());
                assert(entries_view(out@) =~= before_fields.push(("fields"@, a)));
            },
            None => {},
        }
        assert(entries_view(out@) =~= before_fields + opt_entry("fields"@, opt_strs(self@.fields)));
        push_int(&mut out, "r", self.r);
        let ghost before_bookmark = entries_view(out@);
        match &self.bookmark {
            Some(b) => {
                out.push((String::from_str("bookmark"), Json::Str(b.clone())));
            },
            None => {},
        }
        assert(entries_view(out@) =~= before_bookmark + opt_entry("bookmark"@, opt_str(self@.bookmark)));
        push_bool(&mut out, "update", self.update);
        push_bool(&mut out, "stable", self.stable);
        push_bool(&mut out, "stale", self.stale);
        push_bool(&mut out, "execution_stats", self.execution_stats);
        proof {
            lemma_object_view(out);
            let q = self@;
            assert(entries_view(out@) =~= seq![("selector"@, serialized(q.selector))]
                + opt_entry("limit"@, opt_int(q.limit))
                + opt_entry("skip"@, opt_int(q.skip))
                + opt_entry("sort"@, opt_sort(q.sort))
                + opt_entry("fields"@, opt_strs(q.fields))
                + opt_entry("r"@, opt_int(q.r))
                + opt_entry("bookmark"@, opt_str(q.bookmark))
                + opt_entry("update"@, opt_bool(q.update))
                + opt_entry("stable"@, opt_bool(q.stable))
                + opt_entry("stale"@, opt_bool(q.stale))
                + opt_entry("execution_stats"@, opt_bool(q.execution_stats)));
        }
        Json::Object(out)
    }
}

/// Assembles a `SearchInfo` one setting at a time. Each call takes the
/// builder and hands back the next one; nothing is validated across settings.
#[derive(Debug)]
pub struct SearchBuilder {
    curr_search: SearchInfo,
}

impl View for SearchBuilder {
    type V = QueryV;

    closed spec fn view(&self) -> QueryV {
        self.curr_search@
    }
}

impl SearchBuilder {
    /// A builder whose query has a null selector and no settings.
    pub fn new() -> (r: SearchBuilder)
        ensures
            r@ == empty_query(),
    {
        SearchBuilder { curr_search: SearchInfo::new() }
    }

    /// The query built so far.
    pub fn build(self) -> (r: SearchInfo)
        ensures
            r@ == self@,
    {
        self.curr_search
    }

    /// Sets the selector.
    pub fn filter(self, term: SearchTerm) -> (r: SearchBuilder)
        ensures
            r@ == (QueryV { selector: term@, ..self@ }),
    {
        let mut b = self;
        b.curr_search.selector = term;
        b
    }

    /// Sets the largest number of documents returned.
    pub fn limit(self, limit: u32) -> (r: SearchBuilder)
        ensures
            r@ == (QueryV { limit: Some(limit), ..self@ }),
    {
        let mut b = self;
        b.curr_search.limit = Some(limit);
        b
    }

    /// Sets the number of matching documents passed over.
    pub fn skip(self, skip: u32) -> (r: SearchBuilder)
        ensures
            r@ == (QueryV { skip: Some(skip), ..self@ }),
    {
        let mut b = self;
        b.curr_search.skip = Some(skip);
        b
    }

    /// Sets the sort keys, the first being the primary one.
    pub fn sort(self, sort: Vec<SortTerm>) -> (r: SearchBuilder)
        ensures
            r@ == (QueryV { sort: Some(Seq::new(sort@.len(), |i: int| sort@[i]@)), ..self@ }),
    {
        let mut b = self;
        b.curr_search.sort = Some(sort);
        b
    }

    /// Sets the fields returned of each document.
    pub fn fields(self, fields: Vec<String>) -> (r: SearchBuilder)
        ensures
            r@ == (QueryV { fields: Some(Seq::new(fields@.len(), |i: int| fields@[i]@)), ..self@ }),
    {
        let mut b = self;
        b.curr_search.fields = Some(fields);
        b
    }

    /// Sets the read quorum.
    pub fn r(self, r: u32) -> (out: SearchBuilder)
        ensures
            out@ == (QueryV { r: Some(r), ..self@ }),
    {
        let mut b = self;
        b.curr_search.r = Some(r);
        b
    }

    /// Sets the bookmark a paged search continues from.
    pub fn bookmark(self, bookmark: String) -> (r: SearchBuilder)
        ensures
            r@ == (QueryV { bookmark: Some(bookmark@), ..self@ }),
    {
        let mut b = self;
        b.curr_search.bookmark = Some(bookmark);
        b
    }

    /// Sets whether the index is brought up to date before the search.
    pub fn update(self, update: bool) -> (r: SearchBuilder)
        ensures
            r@ == (QueryV { update: Some(update), ..self@ }),
    {
        let mut b = self;
        b.curr_search.update = Some(update);
        b
    }

    /// Sets whether the results come from a stable set of shard replicas.
    pub fn stable(self, stable: bool) -> (r: SearchBuilder)
        ensures
            r@ == (QueryV { stable: Some(stable), ..self@ }),
    {
        let mut b = self;
        b.curr_search.stable = Some(stable);
        b
    }

    /// Sets whether a stale index may answer.
    pub fn stale(self, stale: bool) -> (r: SearchBuilder)
        ensures
            r@ == (QueryV { stale: Some(stale), ..self@ }),
    {
        let mut b = self;
        b.curr_search.stale = Some(stale);
        b
    }

    /// Sets whether execution statistics are returned.
    pub fn execution_stats(self, execution_stats: bool) -> (r: SearchBuilder)
        ensures
            r@ == (QueryV { execution_stats: Some(execution_stats), ..self@ }),
    {
        let mut b = self;
        b.curr_search.execution_stats = Some(execution_stats);
        b
    }
}

/// A query built without a selector has the null selector: its body is
/// `{"selector": null}`.
pub proof fn lemma_default_selector_is_null()
    ensures
        serialized(empty_query().selector) == JsonV::Null,
        query_json(empty_query()) == JsonV::Object(seq![("selector"@, JsonV::Null)]),
{
    let q = empty_query();
    assert(query_json(q)->Object_0 =~= seq![("selector"@, JsonV::Null)]);
}

} // verus!
