//! Requests as the store client describes them, and the checks made on one
//! before it is handed to a transport.

use vstd::prelude::*;

use crate::error::DbError;

verus! {

/// The method of a request.
#[derive(Debug, PartialEq, Eq, Structural, Clone, Copy)]
pub enum RequestType {
    GET,
    POST,
    PUT,
}

/// A request: where it goes, its method, and the body and content type it
/// may carry.
#[derive(Debug)]
pub struct RequestInfo {
    pub url: String,
    pub content_type: Option<String>,
    pub method: RequestType,
    pub data: Option<String>,
}

impl RequestInfo {
    /// A GET request, without a body.
    pub fn get(path: String) -> (r: RequestInfo)
        ensures
            r.url == path,
            r.method == RequestType::GET,
            r.data is None,
            r.content_type is None,
    {
        RequestInfo { url: path, method: RequestType::GET, data: None, content_type: None }
    }

    /// A POST request with a body.
    pub fn post(path: String, data: String) -> (r: RequestInfo)
        ensures
            r.url == path,
            r.method == RequestType::POST,
            r.data == Some(data),
            r.content_type is None,
    {
        RequestInfo { url: path, data: Some(data), content_type: None, method: RequestType::POST }
    }

    /// A PUT request with a body.
    pub fn put(path: String, data: String) -> (r: RequestInfo)
        ensures
            r.url == path,
            r.method == RequestType::PUT,
            r.data == Some(data),
            r.content_type is None,
    {
        RequestInfo { url: path, data: Some(data), content_type: None, method: RequestType::PUT }
    }

    /// The same request with a content type.
    pub fn content_type(self, content_type: String) -> (r: RequestInfo)
        ensures
            r.url == self.url,
            r.method == self.method,
            r.data == self.data,
            r.content_type == Some(content_type),
    {
        let mut r = self;
        r.content_type = Some(content_type);
        r
    }
}

/// A request ready for the transport: the client's fixed headers are attached.
#[derive(Debug)]
pub struct OutboundRequest {
    pub method: RequestType,
    pub url: String,
    pub content_type: Option<String>,
    pub headers: Vec<(String, String)>,
    pub body: Option<String>,
}

/// What the transport hands back.
#[derive(Debug)]
pub struct HTTPResponse {
    pub body: String,
    pub headers: Vec<(String, String)>,
    pub status_code: u16,
}

/// A client that attaches a fixed set of headers to every request.
#[derive(Debug)]
pub struct HTTPClient {
    headers: Option<Vec<(String, String)>>,
}

/// The model of a header list.
pub open spec fn headers_view(h: Seq<(String, String)>) -> Seq<(Seq<char>, Seq<char>)> {
    Seq::new(h.len(), |i: int| (h[i].0@, h[i].1@))
}

impl HTTPClient {
    /// The headers attached to every request.
    pub closed spec fn fixed_headers(&self) -> Seq<(Seq<char>, Seq<char>)> {
        match self.headers {
            Some(h) => headers_view(h@),
            None => Seq::empty(),
        }
    }

    /// A client without headers.
    pub fn new() -> (r: HTTPClient)
        ensures
            r.fixed_headers() == Seq::<(Seq<char>, Seq<char>)>::empty(),
    {
        HTTPClient { headers: None }
    }

    /// A client that attaches these headers.
    pub fn with_headers(headers: Vec<(String, String)>) -> (r: HTTPClient)
        ensures
            r.fixed_headers() == headers_view(headers@),
    {
        HTTPClient { headers: Some(headers) }
    }

    /// Readies a request for the transport. A POST or PUT without a body is
    /// refused before anything is sent.
    pub fn prepare(&self, info: RequestInfo) -> (r: Result<OutboundRequest, DbError>)
        ensures
            (info.method != RequestType::GET && info.data is None) <==> r is Err,
            r matches Err(e) ==> e == DbError::MissingRequestBody,
            r matches Ok(o) ==> {
                &&& o.method == info.method
                &&& o.url == info.url
                &&& o.content_type == info.content_type
                &&& o.body == info.data
                &&& headers_view(o.headers@) == self.fixed_headers()
            },
    {
        if info.method != RequestType::GET && info.data.is_none() {
            return Err(DbError::MissingRequestBody);
        }
        let mut headers: Vec<(String, String)> = Vec::new();
        match &self.headers {
            Some(h) => {
                let mut i: usize = 0;
                while i < h.len()
                    invariant
                        i <= h@.len(),
                        headers@.len() == i,
                        forall|k: int| 0 <= k < i ==> headers@[k].0@ == h@[k].0@ && headers@[k].1@ == h@[k].1@,
                    decreases h@.len() - i,
                {
                    headers.push((h[i].0.clone(), h[i].1.clone()));
                    i = i + 1;
                }
                assert(headers_view(headers@) =~= headers_view(h@));
            },
            None => {
                assert(headers_view(headers@) =~= Seq::<(Seq<char>, Seq<char>)>::empty());
            },
        }
        Ok(OutboundRequest {
            method: info.method,
            url: info.url,
            content_type: info.content_type,
            headers,
            body: info.data,
        })
    }
}

} // verus!
