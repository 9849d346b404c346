//! The document store client: collection names, the requests made for each
//! operation, and how each response is read.

use vstd::prelude::*;
use vstd::string::StringExecFns;

use crate::error::DbError;
use crate::http::{headers_view, HTTPClient, RequestInfo, RequestType};
use crate::json::{member, req_int, req_str, Json, JsonV};

verus! {

broadcast use vstd::std_specs::vec::group_vec_axioms;

/// Which set of physical collections a deployment uses.
#[derive(Debug, PartialEq, Eq, Structural, Clone, Copy)]
pub enum Profile {
    Live,
    Testing,
}

/// The logical collections.
#[derive(Debug, PartialEq, Eq, Structural, Clone, Copy)]
pub enum Databases {
    MusicPacks,
    Palettes,
    Highscores,
    Speedruns,
    Users,
}

/// The physical name of a collection under a profile.
pub open spec fn collection_name(d: Databases, p: Profile) -> Seq<char> {
    let base = match d {
        Databases::MusicPacks => "modolumia_music_packs"@,
        Databases::Palettes => "modolumia_palettes"@,
        Databases::Highscores => "modolumia_highscores"@,
        Databases::Speedruns => "modolumia_speedruns"@,
        Databases::Users => "modolumia_users"@,
    };
    match p {
        Profile::Live => base,
        Profile::Testing => base + "_testing"@,
    }
}

impl Databases {
    /// The physical name of the collection under the profile.
    pub fn to_string(&self, profile: Profile) -> (r: String)
        ensures
            r@ == collection_name(*self, profile),
    {
        let mut s = match self {
            Databases::MusicPacks => String::from_str("modolumia_music_packs"),
            Databases::Palettes => String::from_str("modolumia_palettes"),
            Databases::Highscores => String::from_str("modolumia_highscores"),
            Databases::Speedruns => String::from_str("modolumia_speedruns"),
            Databases::Users => String::from_str("modolumia_users"),
        };
        if profile == Profile::Testing {
            s.append("_testing");
        }
        s
    }
}

/// The Base64 encoding (standard alphabet, padded) of a text's UTF-8 bytes.
pub uninterp spec fn base64_of(s: Seq<char>) -> Seq<char>;

/// Relies on `base64::encode`, which encodes the bytes it is given with the
/// standard alphabet and padding.
#[verifier::external_body]
fn encode_base64(s: &str) -> (r: String)
    ensures
        r@ == base64_of(s@),
{
    base64::encode(s)
}

/// The value of a basic authorization header, from encoded credentials.
pub fn basic_authorization(encoded: &str) -> (r: String)
    ensures
        r@ == "Basic "@ + encoded@,
{
    let mut s = String::from_str("Basic ");
    s.append(encoded);
    s
}

/// The value of a basic authorization header, from `user:password`
/// credentials.
pub fn encode_credentials(credentials: &str) -> (r: String)
    ensures
        r@ == "Basic "@ + base64_of(credentials@),
{
    let encoded = encode_base64(credentials);
    basic_authorization(encoded.as_str())
}

/// The store client: a base address, an HTTP client that carries the
/// authorization header, and the profile that names the collections.
#[derive(Debug)]
pub struct DBManager {
    hostname: String,
    http: HTTPClient,
    profile: Profile,
}

/// `base/name`.
pub open spec fn collection_url(base: Seq<char>, name: Seq<char>) -> Seq<char> {
    base + "/"@ + name
}

impl DBManager {
    pub closed spec fn host(&self) -> Seq<char> {
        self.hostname@
    }

    pub closed spec fn profile(&self) -> Profile {
        self.profile
    }

    /// The headers sent with every request.
    pub closed spec fn headers(&self) -> Seq<(Seq<char>, Seq<char>)> {
        self.http.fixed_headers()
    }

    /// A client for the store at `hostname`, authorized with `credentials`
    /// (`user:password`).
    pub fn new(hostname: String, credentials: &str, profile: Profile) -> (r: DBManager)
        ensures
            r.host() == hostname@,
            r.profile() == profile,
            r.headers() == seq![("Authorization"@, "Basic "@ + base64_of(credentials@))],
    {
        let headers = vec![(String::from_str("Authorization"), encode_credentials(credentials))];
        assert(headers_view(headers@) =~= seq![("Authorization"@, "Basic "@ + base64_of(credentials@))]);
        DBManager { hostname, http: HTTPClient::with_headers(headers), profile }
    }

    /// The HTTP client requests go through.
    pub fn http(&self) -> (r: &HTTPClient)
        ensures
            r.fixed_headers() == self.headers(),
    {
        &self.http
    }

    fn url_of(&self, database: Databases) -> (r: String)
        ensures
            r@ == collection_url(self.host(), collection_name(database, self.profile())),
    {
        let mut s = self.hostname.clone();
        s.append("/");
        let name = database.to_string(self.profile);
        s.append(name.as_str());
        s
    }

    /// The request that stores a new document; `body` is its JSON text.
    pub fn create_request(&self, database: Databases, body: String) -> (r: RequestInfo)
        ensures
            r.url@ == collection_url(self.host(), collection_name(database, self.profile())),
            r.method == RequestType::POST,
            r.data == Some(body),
            r.content_type matches Some(c) && c@ == "application/json"@,
    {
        RequestInfo::post(self.url_of(database), body).content_type(String::from_str("application/json"))
    }

    /// The request that runs a search; `body` is the JSON text of the query.
    pub fn search_request(&self, database: Databases, body: String) -> (r: RequestInfo)
        ensures
            r.url@ == collection_url(self.host(), collection_name(database, self.profile()))
                + "/_find"@,
            r.method == RequestType::POST,
            r.data == Some(body),
            r.content_type matches Some(c) && c@ == "application/json"@,
    {
        let mut url = self.url_of(database);
        url.append("/_find");
        RequestInfo::post(url, body).content_type(String::from_str("application/json"))
    }

    /// The request that fetches one document, without attachment bodies.
    pub fn document_request(&self, database: Databases, id: &str) -> (r: RequestInfo)
        ensures
            r.url@ == collection_url(self.host(), collection_name(database, self.profile()))
                + "/"@ + id@ + "?attachments=false"@,
            r.method == RequestType::GET,
            r.data is None,
            r.content_type is None,
    {
        let mut url = self.url_of(database);
        url.append("/");
        url.append(id);
        url.append("?attachments=false");
        RequestInfo::get(url)
    }

    /// The request that reads a collection's metadata.
    pub fn info_request(&self, database: Databases) -> (r: RequestInfo)
        ensures
            r.url@ == collection_url(self.host(), collection_name(database, self.profile())),
            r.method == RequestType::GET,
            r.data is None,
            r.content_type is None,
    {
        RequestInfo::get(self.url_of(database))
    }
}

/// Whether a status code reports success.
pub open spec fn is_success(status: u16) -> bool {
    200 <= status <= 299
}

/// Whether a creation acknowledgement has its three fields.
pub open spec fn creation_shape(j: JsonV) -> bool {
    &&& req_str(j, "id"@) is Some
    &&& member(j, "ok"@) matches Some(JsonV::Bool(_))
    &&& req_str(j, "rev"@) is Some
}

pub(crate) fn rejected() -> (r: DbError)
    ensures
        r is StoreRejected,
{
    DbError::StoreRejected(String::from_str("the store refused the request"))
}

pub(crate) fn malformed() -> (r: DbError)
    ensures
        r is Deserialization,
{
    DbError::Deserialization(String::from_str("the response does not have the expected shape"))
}

/// Reads the response to a creation request. It succeeds, with the new
/// document's id, exactly when the status is 200 or 201 and the store
/// acknowledges with `ok: true`.
pub fn creation_outcome(status: u16, body: &Json) -> (r: Result<String, DbError>)
    ensures
        status != 200 && status != 201 ==> r matches Err(DbError::StoreRejected(_)),
        (status == 200 || status == 201) && !creation_shape(body@) ==> r matches Err(
            DbError::Deserialization(_),
        ),
        (status == 200 || status == 201) && creation_shape(body@) && member(body@, "ok"@) == Some(
            JsonV::Bool(false),
        ) ==> r matches Err(DbError::StoreRejected(_)),
        (status == 200 || status == 201) && creation_shape(body@) && member(body@, "ok"@) == Some(
            JsonV::Bool(true),
        ) ==> (r matches Ok(id) && req_str(body@, "id"@) == Some(id@)),
{
    if status != 200 && status != 201 {
        return Err(rejected());
    }
    let id = body.str_member("id");
    let ok = body.bool_member("ok");
    let rev = body.str_member("rev");
    match (id, ok, rev) {
        (Some(id), Some(ok), Some(_)) => if ok {
            Ok(id)
        } else {
            Err(rejected())
        },
        _ => Err(malformed()),
    }
}

/// Reads the document count out of a collection's metadata.
pub fn size_outcome(body: &Json) -> (r: Result<u32, DbError>)
    ensures
        (req_int(body@, "doc_count"@) matches Some(n) && n <= u32::MAX) ==> r == Ok::<u32, DbError>(
            req_int(body@, "doc_count"@).unwrap() as u32,
        ),
        !(req_int(body@, "doc_count"@) matches Some(n) && n <= u32::MAX) ==> r matches Err(
            DbError::Deserialization(_),
        ),
{
    match body.int_member("doc_count") {
        Some(n) => if n <= 0xffff_ffffu64 {
            Ok(n as u32)
        } else {
            Err(malformed())
        },
        None => Err(malformed()),
    }
}

} // verus!
