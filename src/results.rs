//! Documents and search results as the store returns them, and how they are
//! read from the store's JSON.

use vstd::prelude::*;
use vstd::string::StringExecFns;

use crate::documents::DocumentType;
use crate::error::DbError;
use crate::store::{is_success, malformed, rejected};
use crate::json::{
    entries_view, lemma_array_view, lemma_object_view, member, opt_bool_member, opt_int_member,
    opt_str_member, req_int, req_str, values_view, Json, JsonV,
};

verus! {

broadcast use vstd::std_specs::vec::group_vec_axioms;


/// The model of an optional string.
pub open spec fn opt_view(o: Option<String>) -> Option<Seq<char>> {
    match o {
        Some(s) => Some(s@),
        None => None,
    }
}

/// An optional byte-array member: `Some(None)` when missing or null, `None`
/// when it is not an array of integers below 256.
pub open spec fn bytes_member(j: JsonV, k: Seq<char>) -> Option<Option<Seq<u8>>> {
    match member(j, k) {
        None => Some(None),
        Some(JsonV::Null) => Some(None),
        Some(JsonV::Array(xs)) => if forall|i: int|
            0 <= i < xs.len() ==> (#[trigger] xs[i] matches JsonV::Int(n) && n <= 255) {
            Some(Some(Seq::new(xs.len(), |i: int| xs[i]->Int_0 as u8)))
        } else {
            None
        },
        _ => None,
    }
}

/// Metadata the store reports of an attachment.
#[derive(Debug)]
pub struct Attachment {
    pub content_type: String,
    pub digest: String,
    pub length: Option<u64>,
    pub revpos: u8,
    pub stub: Option<bool>,
    pub encoding: Option<String>,
    pub encoded_length: Option<u64>,
    pub data: Option<Vec<u8>>,
}

/// Whether a value can be read as attachment metadata.
pub open spec fn attachment_ok(j: JsonV) -> bool {
    &&& req_str(j, "content_type"@) is Some
    &&& req_str(j, "digest"@) is Some
    &&& opt_int_member(j, "length"@) is Some
    &&& req_int(j, "revpos"@) matches Some(n) && n <= 255
    &&& opt_bool_member(j, "stub"@) is Some
    &&& opt_str_member(j, "encoding"@) is Some
    &&& opt_int_member(j, "encoded_length"@) is Some
    &&& bytes_member(j, "data"@) is Some
}

/// Whether attachment metadata holds what the value says.
pub open spec fn attachment_agrees(a: Attachment, j: JsonV) -> bool {
    &&& req_str(j, "content_type"@) == Some(a.content_type@)
    &&& req_str(j, "digest"@) == Some(a.digest@)
    &&& opt_int_member(j, "length"@) == Some(a.length)
    &&& req_int(j, "revpos"@) == Some(a.revpos as u64)
    &&& opt_bool_member(j, "stub"@) == Some(a.stub)
    &&& opt_str_member(j, "encoding"@) == Some(opt_view(a.encoding))
    &&& opt_int_member(j, "encoded_length"@) == Some(a.encoded_length)
    &&& bytes_member(j, "data"@) == Some(
        match a.data {
            Some(d) => Some(d@),
            None => None,
        },
    )
}

fn decode_bytes(j: Option<&Json>) -> (r: Option<Option<Vec<u8>>>)
    ensures
        r is Some <==> (match j {
            Some(x) => x@ is Null || (x@ matches JsonV::Array(xs) && forall|i: int|
                0 <= i < xs.len() ==> (#[trigger] xs[i] matches JsonV::Int(n) && n <= 255)),
            None => true,
        }),
        r matches Some(None) ==> (j is None || j.unwrap()@ is Null),
        r matches Some(Some(v)) ==> j matches Some(x) && x@ matches JsonV::Array(xs) && v@
            == Seq::new(xs.len(), |i: int| xs[i]->Int_0 as u8),
{
    match j {
        None => Some(None),
        Some(Json::Null) => Some(None),
        Some(Json::Array(xs)) => {
            proof {
                lemma_array_view(*xs);
            }
            let ghost xv = values_view(xs@);
            let mut out: Vec<u8> = Vec::new();
            let mut i: usize = 0;
            while i < xs.len()
                invariant
                    i <= xs@.len(),
                    xv == values_view(xs@),
                    j is Some,
                    j.unwrap()@ == JsonV::Array(xv),
                    out@.len() == i,
                    forall|k: int| 0 <= k < i ==> (#[trigger] xv[k] matches JsonV::Int(n) && n <= 255),
                    forall|k: int| 0 <= k < i ==> out@[k] == xv[k]->Int_0 as u8,
                decreases xs@.len() - i,
            {
                match &xs[i] {
                    Json::Int(n) => if *n <= 255 {
                        out.push(*n as u8);
                    } else {
                        assert(!(xv[i as int] matches JsonV::Int(n) && n <= 255));
                        return None;
                    },
                    _ => {
                        assert(!(xv[i as int] matches JsonV::Int(n) && n <= 255));
                        return None;
                    },
                }
                i = i + 1;
            }
            assert(out@ =~= Seq::new(xv.len(), |k: int| xv[k]->Int_0 as u8));
            Some(Some(out))
        },
        _ => None,
    }
}

impl Attachment {
    /// Reads attachment metadata.
    pub fn from_json(j: &Json) -> (r: Option<Attachment>)
        ensures
            r is Some <==> attachment_ok(j@),
            r matches Some(a) ==> attachment_agrees(a, j@),
    {
        let content_type = j.str_member("content_type");
        let digest = j.str_member("digest");
        let length = j.opt_int("length");
        let revpos = j.int_member("revpos");
        let stub = j.opt_bool("stub");
        let encoding = j.opt_str("encoding");
        let encoded_length = j.opt_int("encoded_length");
        let data = decode_bytes(j.get("data"));
        let revpos = match revpos {
            Some(n) => if n <= 255 {
                n as u8
            } else {
                return None;
            },
            None => return None,
        };
        match (content_type, digest, length, stub, encoding, encoded_length, data) {
            (
                Some(content_type),
                Some(digest),
                Some(length),
                Some(stub),
                Some(encoding),
                Some(encoded_length),
                Some(data),
            ) => Some(
                Attachment {
                    content_type,
                    digest,
                    length,
                    revpos,
                    stub,
                    encoding,
                    encoded_length,
                    data,
                },
            ),
            _ => None,
        }
    }
}

/// Whether a key is one of the store's metadata keys of a document.
pub open spec fn is_meta_key(k: Seq<char>) -> bool {
    k == "_id"@ || k == "_rev"@ || k == "_attachments"@
}

/// The entries of a document that are not store metadata, in order.
pub open spec fn strip_meta(es: Seq<(Seq<char>, JsonV)>) -> Seq<(Seq<char>, JsonV)>
    decreases es.len(),
{
    if es.len() == 0 {
        es
    } else if is_meta_key(es.last().0) {
        strip_meta(es.drop_last())
    } else {
        strip_meta(es.drop_last()).push(es.last())
    }
}

/// The record part of a stored document: the object without its metadata.
pub open spec fn payload_of(j: JsonV) -> JsonV {
    match j {
        JsonV::Object(es) => JsonV::Object(strip_meta(es)),
        other => other,
    }
}

/// Whether the `_attachments` member can be read: missing, null, or an
/// object of attachment metadata.
pub open spec fn attachments_ok(m: Option<JsonV>) -> bool {
    match m {
        None => true,
        Some(JsonV::Null) => true,
        Some(JsonV::Object(es)) => all_attachments_ok(es),
        _ => false,
    }
}

/// Whether each entry holds attachment metadata.
pub open spec fn all_attachments_ok(es: Seq<(Seq<char>, JsonV)>) -> bool {
    forall|i: int| 0 <= i < es.len() ==> attachment_ok(#[trigger] es[i].1)
}

/// Whether the entry at `i` of read attachments holds what the entry at `i`
/// of the object says.
pub open spec fn agrees_at(v: Seq<(String, Attachment)>, es: Seq<(Seq<char>, JsonV)>, i: int) -> bool {
    v[i].0@ == es[i].0 && attachment_agrees(v[i].1, es[i].1)
}

/// Whether read attachments hold what the `_attachments` member says.
pub open spec fn attachments_agree(a: Option<Vec<(String, Attachment)>>, m: Option<JsonV>) -> bool {
    match (a, m) {
        (None, None) => true,
        (None, Some(JsonV::Null)) => true,
        (Some(v), Some(JsonV::Object(es))) => v@.len() == es.len() && forall|i: int|
            0 <= i < es.len() ==> #[trigger] agrees_at(v@, es, i),
        _ => false,
    }
}

/// A stored document: the store's id, revision and attachment metadata, and
/// the record itself.
#[derive(Debug)]
pub struct Document<T> {
    pub _id: String,
    pub _rev: Option<String>,
    pub _attachments: Option<Vec<(String, Attachment)>>,
    pub fields: T,
}

/// Whether a value can be read as a document holding a `T`.
pub open spec fn document_ok<T: DocumentType>(j: JsonV) -> bool {
    &&& req_str(j, "_id"@) is Some
    &&& opt_str_member(j, "_rev"@) is Some
    &&& attachments_ok(member(j, "_attachments"@))
    &&& T::decodable(payload_of(j))
}

/// Whether a document holds what the value says.
pub open spec fn document_agrees<T: DocumentType>(d: Document<T>, j: JsonV) -> bool {
    &&& req_str(j, "_id"@) == Some(d._id@)
    &&& opt_str_member(j, "_rev"@) == Some(opt_view(d._rev))
    &&& attachments_agree(d._attachments, member(j, "_attachments"@))
    &&& d.fields.agrees_with(payload_of(j))
}

fn decode_attachments(m: Option<&Json>) -> (r: Option<Option<Vec<(String, Attachment)>>>)
    ensures
        r is Some <==> attachments_ok(match m {
            Some(x) => Some(x@),
            None => None,
        }),
        r matches Some(a) ==> attachments_agree(a, match m {
            Some(x) => Some(x@),
            None => None,
        }),
{
    match m {
        None => Some(None),
        Some(Json::Null) => Some(None),
        Some(Json::Object(es)) => {
            proof {
                lemma_object_view(*es);
            }
            let ghost ev = entries_view(es@);
            let mut out: Vec<(String, Attachment)> = Vec::new();
            let mut i: usize = 0;
            while i < es.len()
                invariant
                    i <= es@.len(),
                    ev == entries_view(es@),
                    m is Some,
                    m.unwrap()@ == JsonV::Object(ev),
                    out@.len() == i,
                    forall|k: int| 0 <= k < i ==> attachment_ok(#[trigger] ev[k].1),
                    forall|k: int| 0 <= k < i ==> #[trigger] agrees_at(out@, ev, k),
                decreases es@.len() - i,
            {
                assert(ev[i as int] == (es@[i as int].0@, es@[i as int].1@));
                match Attachment::from_json(&es[i].1) {
                    Some(a) => {
                        let ghost before = out@;
                        out.push((es[i].0.clone(), a));
                        assert forall|k: int| 0 <= k < i + 1 implies #[trigger] agrees_at(out@, ev, k) by {
                            if k < i {
                                assert(out@[k] == before[k]);
                                assert(agrees_at(before, ev, k));
                            }
                        }
                    },
                    None => {
                        assert(!attachment_ok(ev[i as int].1));
                        return None;
                    },
                }
                i = i + 1;
            }
            Some(Some(out))
        },
        _ => None,
    }
}

fn payload_json(es: &Vec<(String, Json)>) -> (r: Json)
    ensures
        r@ == JsonV::Object(strip_meta(entries_view(es@))),
{
    proof {
        reveal_strlit("_id");
        reveal_strlit("_rev");
        reveal_strlit("_attachments");
    }
    let ghost ev = entries_view(es@);
    let id = String::from_str("_id");
    let rev = String::from_str("_rev");
    let atts = String::from_str("_attachments");
    let mut out: Vec<(String, Json)> = Vec::new();
    let mut i: usize = 0;
    assert(ev.take(0) =~= Seq::<(Seq<char>, JsonV)>::empty());
    while i < es.len()
        invariant
            i <= es@.len(),
            ev == entries_view(es@),
            id@ == "_id"@,
            rev@ == "_rev"@,
            atts@ == "_attachments"@,
            entries_view(out@) == strip_meta(ev.take(i as int)),
        decreases es@.len() - i,
    {
        assert(ev.take(i + 1).drop_last() =~= ev.take(i as int));
        let k = &es[i].0;
        if !(*k == id || *k == rev || *k == atts) {
            out.push((k.clone(), es[i].1.duplicate()));
            assert(entries_view(out@) =~= strip_meta(ev.take(i as int)).push(ev[i as int]));
        }
        i = i + 1;
    }
    assert(ev.take(i as int) =~= ev);
    proof {
        lemma_object_view(out);
    }
    Json::Object(out)
}

/// Reads a stored document whose record is a `T`.
pub fn decode_document<T: DocumentType>(j: &Json) -> (r: Result<Document<T>, DbError>)
    ensures
        r is Ok <==> document_ok::<T>(j@),
        r matches Ok(d) ==> document_agrees(d, j@),
        r matches Err(e) ==> e is Deserialization,
{
    let id = match j.str_member("_id") {
        Some(s) => s,
        None => return Err(malformed()),
    };
    let rev = match j.opt_str("_rev") {
        Some(r) => r,
        None => return Err(malformed()),
    };
    let attachments = match decode_attachments(j.get("_attachments")) {
        Some(a) => a,
        None => return Err(malformed()),
    };
    let payload = match j {
        Json::Object(es) => {
            proof {
                lemma_object_view(*es);
            }
            payload_json(es)
        },
        _ => return Err(malformed()),
    };
    match T::from_json(&payload) {
        Some(fields) => Ok(Document { _id: id, _rev: rev, _attachments: attachments, fields }),
        None => Err(malformed()),
    }
}

/// Statistics of a search's execution, reported on request.
#[derive(Debug)]
pub struct ExecutionStats {
    pub total_keys_examined: u16,
    pub total_docs_examined: u16,
    pub total_quorum_docs_examined: u16,
    pub results_returned: u16,
    /// A JSON number: the time taken, in milliseconds.
    pub execution_time_ms: Json,
}

/// A member that holds an integer that fits in `u16`.
pub open spec fn u16_member(j: JsonV, k: Seq<char>) -> bool {
    req_int(j, k) matches Some(n) && n <= u16::MAX
}

/// Whether a value can be read as execution statistics.
pub open spec fn stats_ok(j: JsonV) -> bool {
    &&& u16_member(j, "total_keys_examined"@)
    &&& u16_member(j, "total_docs_examined"@)
    &&& u16_member(j, "total_quorum_docs_examined"@)
    &&& u16_member(j, "results_returned"@)
    &&& member(j, "execution_time_ms"@) matches Some(x) && (x is Int || x is Float)
}

/// Whether execution statistics hold what the value says.
pub open spec fn stats_agree(s: ExecutionStats, j: JsonV) -> bool {
    &&& req_int(j, "total_keys_examined"@) == Some(s.total_keys_examined as u64)
    &&& req_int(j, "total_docs_examined"@) == Some(s.total_docs_examined as u64)
    &&& req_int(j, "total_quorum_docs_examined"@) == Some(s.total_quorum_docs_examined as u64)
    &&& req_int(j, "results_returned"@) == Some(s.results_returned as u64)
    &&& member(j, "execution_time_ms"@) == Some(s.execution_time_ms@)
}

fn u16_of(j: &Json, key: &str) -> (r: Option<u16>)
    ensures
        r is Some <==> u16_member(j@, key@),
        r matches Some(n) ==> req_int(j@, key@) == Some(n as u64),
{
    match j.int_member(key) {
        Some(n) => if n <= 0xffffu64 {
            Some(n as u16)
        } else {
            None
        },
        None => None,
    }
}

impl ExecutionStats {
    /// Reads execution statistics.
    pub fn from_json(j: &Json) -> (r: Option<ExecutionStats>)
        ensures
            r is Some <==> stats_ok(j@),
            r matches Some(s) ==> stats_agree(s, j@),
    {
        let a = u16_of(j, "total_keys_examined");
        let b = u16_of(j, "total_docs_examined");
        let c = u16_of(j, "total_quorum_docs_examined");
        let d = u16_of(j, "results_returned");
        let t = match j.get("execution_time_ms") {
            Some(Json::Int(n)) => Json::Int(*n),
            Some(Json::Float(bits)) => Json::Float(*bits),
            _ => return None,
        };
        match (a, b, c, d) {
            (Some(a), Some(b), Some(c), Some(d)) => Some(
                ExecutionStats {
                    total_keys_examined: a,
                    total_docs_examined: b,
                    total_quorum_docs_examined: c,
                    results_returned: d,
                    execution_time_ms: t,
                },
            ),
            _ => None,
        }
    }
}

/// The answer to a search: the documents found, a bookmark to continue
/// from, a warning, and statistics. A missing or null `docs` and an empty
/// one are told apart.
#[derive(Debug)]
pub struct SearchResult<T> {
    pub docs: Option<Vec<Document<T>>>,
    pub bookmark: Option<String>,
    pub warning: Option<String>,
    pub execution_stats: Option<ExecutionStats>,
}

/// Whether each value can be read as a document holding a `T`.
pub open spec fn all_docs_ok<T: DocumentType>(xs: Seq<JsonV>) -> bool {
    forall|i: int| 0 <= i < xs.len() ==> document_ok::<T>(#[trigger] xs[i])
}

/// Whether the `docs` member can be read.
pub open spec fn docs_ok<T: DocumentType>(m: Option<JsonV>) -> bool {
    match m {
        None => true,
        Some(JsonV::Null) => true,
        Some(JsonV::Array(xs)) => all_docs_ok::<T>(xs),
        _ => false,
    }
}

/// Whether the document at `i` holds what the value at `i` says.
pub open spec fn doc_agrees_at<T: DocumentType>(v: Seq<Document<T>>, xs: Seq<JsonV>, i: int) -> bool {
    document_agrees(v[i], xs[i])
}

/// Whether read documents hold what the `docs` member says.
pub open spec fn docs_agree<T: DocumentType>(d: Option<Vec<Document<T>>>, m: Option<JsonV>) -> bool {
    match (d, m) {
        (None, None) => true,
        (None, Some(JsonV::Null)) => true,
        (Some(v), Some(JsonV::Array(xs))) => v@.len() == xs.len() && forall|i: int|
            0 <= i < xs.len() ==> #[trigger] doc_agrees_at(v@, xs, i),
        _ => false,
    }
}

/// Whether the `execution_stats` member can be read.
pub open spec fn stats_member_ok(m: Option<JsonV>) -> bool {
    match m {
        None => true,
        Some(JsonV::Null) => true,
        Some(x) => stats_ok(x),
    }
}

/// Whether read statistics hold what the `execution_stats` member says.
pub open spec fn stats_member_agree(s: Option<ExecutionStats>, m: Option<JsonV>) -> bool {
    match (s, m) {
        (None, None) => true,
        (None, Some(JsonV::Null)) => true,
        (Some(s), Some(x)) => !(x is Null) && stats_agree(s, x),
        _ => false,
    }
}

/// Whether a value can be read as a search answer with records of type `T`.
pub open spec fn search_ok<T: DocumentType>(j: JsonV) -> bool {
    &&& j is Object
    &&& docs_ok::<T>(member(j, "docs"@))
    &&& opt_str_member(j, "bookmark"@) is Some
    &&& opt_str_member(j, "warning"@) is Some
    &&& stats_member_ok(member(j, "execution_stats"@))
}

/// Whether a search answer holds what the value says.
pub open spec fn search_agrees<T: DocumentType>(r: SearchResult<T>, j: JsonV) -> bool {
    &&& docs_agree(r.docs, member(j, "docs"@))
    &&& opt_str_member(j, "bookmark"@) == Some(opt_view(r.bookmark))
    &&& opt_str_member(j, "warning"@) == Some(opt_view(r.warning))
    &&& stats_member_agree(r.execution_stats, member(j, "execution_stats"@))
}

fn decode_docs<T: DocumentType>(m: Option<&Json>) -> (r: Option<Option<Vec<Document<T>>>>)
    ensures
        r is Some <==> docs_ok::<T>(match m {
            Some(x) => Some(x@),
            None => None,
        }),
        r matches Some(d) ==> docs_agree(d, match m {
            Some(x) => Some(x@),
            None => None,
        }),
{
    match m {
        None => Some(None),
        Some(Json::Null) => Some(None),
        Some(Json::Array(xs)) => {
            proof {
                lemma_array_view(*xs);
            }
            let ghost xv = values_view(xs@);
            let mut out: Vec<Document<T>> = Vec::new();
            let mut i: usize = 0;
            while i < xs.len()
                invariant
                    i <= xs@.len(),
                    xv == values_view(xs@),
                    m is Some,
                    m.unwrap()@ == JsonV::Array(xv),
                    out@.len() == i,
                    forall|k: int| 0 <= k < i ==> document_ok::<T>(#[trigger] xv[k]),
                    forall|k: int| 0 <= k < i ==> #[trigger] doc_agrees_at(out@, xv, k),
                decreases xs@.len() - i,
            {
                assert(xv[i as int] == xs@[i as int]@);
                match decode_document::<T>(&xs[i]) {
                    Ok(d) => {
                        let ghost before = out@;
                        out.push(d);
                        assert forall|k: int| 0 <= k < i + 1 implies #[trigger] doc_agrees_at(out@, xv, k) by {
                            if k < i {
                                assert(out@[k] == before[k]);
                                assert(doc_agrees_at(before, xv, k));
                            }
                        }
                    },
                    Err(_) => {
                        assert(!document_ok::<T>(xv[i as int]));
                        return None;
                    },
                }
                i = i + 1;
            }
            Some(Some(out))
        },
        _ => None,
    }
}

/// Reads a search answer whose records are of type `T`.
pub fn decode_search_result<T: DocumentType>(j: &Json) -> (r: Result<SearchResult<T>, DbError>)
    ensures
        r is Ok <==> search_ok::<T>(j@),
        r matches Ok(sr) ==> search_agrees(sr, j@),
        r matches Err(e) ==> e is Deserialization,
{
    match j {
        Json::Object(_) => {},
        _ => return Err(malformed()),
    }
    let docs = match decode_docs::<T>(j.get("docs")) {
        Some(d) => d,
        None => return Err(malformed()),
    };
    let bookmark = match j.opt_str("bookmark") {
        Some(b) => b,
        None => return Err(malformed()),
    };
    let warning = match j.opt_str("warning") {
        Some(w) => w,
        None => return Err(malformed()),
    };
    let execution_stats = match j.get("execution_stats") {
        None => None,
        Some(Json::Null) => None,
        Some(x) => match ExecutionStats::from_json(x) {
            Some(s) => Some(s),
            None => return Err(malformed()),
        },
    };
    Ok(SearchResult { docs, bookmark, warning, execution_stats })
}

/// Reads the response to a search. A status outside 2xx is a refusal;
/// otherwise the body is read as a search answer.
pub fn search_outcome<T: DocumentType>(status: u16, body: &Json) -> (r: Result<SearchResult<T>, DbError>)
    ensures
        !is_success(status) ==> r matches Err(DbError::StoreRejected(_)),
        is_success(status) ==> (r is Ok <==> search_ok::<T>(body@)),
        is_success(status) && !search_ok::<T>(body@) ==> r matches Err(DbError::Deserialization(_)),
        r matches Ok(sr) ==> search_agrees(sr, body@),
{
    if status < 200 || status > 299 {
        return Err(rejected());
    }
    decode_search_result(body)
}

/// Reads the response to a document fetch. A status outside 2xx (such as a
/// missing document) is a refusal; otherwise the body is read as a document.
pub fn document_outcome<T: DocumentType>(status: u16, body: &Json) -> (r: Result<Document<T>, DbError>)
    ensures
        !is_success(status) ==> r matches Err(DbError::StoreRejected(_)),
        is_success(status) ==> (r is Ok <==> document_ok::<T>(body@)),
        is_success(status) && !document_ok::<T>(body@) ==> r matches Err(DbError::Deserialization(_)),
        r matches Ok(d) ==> document_agrees(d, body@),
{
    if status < 200 || status > 299 {
        return Err(rejected());
    }
    decode_document(body)
}

} // verus!
