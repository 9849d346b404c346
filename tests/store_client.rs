use modolumia::documents::{DocumentType, MusicPack, Palette};
use modolumia::error::DbError;
use modolumia::http::{HTTPClient, RequestInfo, RequestType};
use modolumia::json::Json;
use modolumia::palettes::Search;
use modolumia::results::{decode_document, decode_search_result, document_outcome, search_outcome, Attachment};
use modolumia::store::{basic_authorization, creation_outcome, encode_credentials, size_outcome, DBManager, Databases, Profile};

fn text(s: &str) -> Json {
    Json::Str(s.to_string())
}

fn obj(entries: Vec<(&str, Json)>) -> Json {
    Json::Object(entries.into_iter().map(|(k, v)| (k.to_string(), v)).collect())
}

fn ack(ok: bool) -> Json {
    obj(vec![("id", text("doc-1")), ("ok", Json::Bool(ok)), ("rev", text("1-abc"))])
}

#[test]
fn creation_succeeds_on_ok_and_201() {
    assert_eq!(creation_outcome(201, &ack(true)), Ok("doc-1".to_string()));
    assert_eq!(creation_outcome(200, &ack(true)), Ok("doc-1".to_string()));
}

#[test]
fn creation_is_rejected_on_500_whatever_ok_says() {
    assert!(matches!(creation_outcome(500, &ack(true)), Err(DbError::StoreRejected(_))));
    assert!(matches!(creation_outcome(500, &ack(false)), Err(DbError::StoreRejected(_))));
    assert!(matches!(creation_outcome(202, &ack(true)), Err(DbError::StoreRejected(_))));
}

#[test]
fn creation_is_rejected_when_not_ok() {
    assert!(matches!(creation_outcome(201, &ack(false)), Err(DbError::StoreRejected(_))));
}

#[test]
fn creation_with_malformed_ack() {
    let body = obj(vec![("id", text("doc-1")), ("ok", Json::Bool(true))]);
    assert!(matches!(creation_outcome(201, &body), Err(DbError::Deserialization(_))));
    assert!(matches!(creation_outcome(201, &Json::Null), Err(DbError::Deserialization(_))));
}

#[test]
fn search_with_null_docs_differs_from_empty_docs() {
    let with_null = obj(vec![("docs", Json::Null), ("bookmark", text("x"))]);
    let r = decode_search_result::<Json>(&with_null).unwrap();
    assert!(r.docs.is_none());
    assert_eq!(r.bookmark, Some("x".to_string()));
    assert_eq!(r.warning, None);
    assert!(r.execution_stats.is_none());

    let with_empty = obj(vec![("docs", Json::Array(vec![])), ("bookmark", text("x"))]);
    let r = decode_search_result::<Json>(&with_empty).unwrap();
    assert_eq!(r.docs.map(|d| d.len()), Some(0));
}

#[test]
fn search_result_with_documents_and_stats() {
    let doc = obj(vec![
        ("_id", text("p1")),
        ("_rev", text("3-ff")),
        ("name", text("Sunset")),
        ("color", Json::Array(vec![Json::Int(1), Json::Int(2), Json::Int(3), Json::Int(4), Json::Int(5), Json::Int(6)])),
        ("author", text("ada")),
        ("description", text("warm")),
    ]);
    let stats = obj(vec![
        ("total_keys_examined", Json::Int(0)),
        ("total_docs_examined", Json::Int(7)),
        ("total_quorum_docs_examined", Json::Int(0)),
        ("results_returned", Json::Int(1)),
        ("execution_time_ms", Json::Float(2.5f64.to_bits())),
    ]);
    let body = obj(vec![("docs", Json::Array(vec![doc])), ("warning", text("no index")), ("execution_stats", stats)]);
    let r = search_outcome::<Palette>(200, &body).unwrap();
    let docs = r.docs.unwrap();
    assert_eq!(docs.len(), 1);
    assert_eq!(docs[0]._id, "p1");
    assert_eq!(docs[0]._rev, Some("3-ff".to_string()));
    assert_eq!(docs[0].fields.name, "Sunset");
    assert_eq!(docs[0].fields.color, [1, 2, 3, 4, 5, 6]);
    assert_eq!(r.warning, Some("no index".to_string()));
    assert_eq!(r.bookmark, None);
    let s = r.execution_stats.unwrap();
    assert_eq!(s.total_docs_examined, 7);
    assert_eq!(s.execution_time_ms, Json::Float(2.5f64.to_bits()));
}

#[test]
fn search_errors() {
    let body = obj(vec![("docs", text("nope"))]);
    assert!(matches!(search_outcome::<Json>(200, &body), Err(DbError::Deserialization(_))));
    assert!(matches!(search_outcome::<Json>(400, &obj(vec![])), Err(DbError::StoreRejected(_))));
    assert!(matches!(decode_search_result::<Json>(&Json::Array(vec![])), Err(DbError::Deserialization(_))));
    let bad_doc = obj(vec![("docs", Json::Array(vec![obj(vec![("name", text("no id"))])]))]);
    assert!(matches!(decode_search_result::<Json>(&bad_doc), Err(DbError::Deserialization(_))));
}

#[test]
fn document_payload_excludes_metadata() {
    let att = obj(vec![
        ("content_type", text("image/png")),
        ("digest", text("md5-xyz")),
        ("length", Json::Int(12)),
        ("revpos", Json::Int(2)),
        ("stub", Json::Bool(true)),
    ]);
    let body = obj(vec![
        ("_id", text("m1")),
        ("author", text("bo")),
        ("_attachments", obj(vec![("cover.png", att)])),
        ("description", text("loud")),
        ("file_location", text("/packs/m1.zip")),
    ]);
    let d = decode_document::<Json>(&body).unwrap();
    assert_eq!(d._id, "m1");
    assert_eq!(d._rev, None);
    assert_eq!(
        d.fields,
        obj(vec![("author", text("bo")), ("description", text("loud")), ("file_location", text("/packs/m1.zip"))])
    );
    let atts = d._attachments.unwrap();
    assert_eq!(atts.len(), 1);
    assert_eq!(atts[0].0, "cover.png");
    assert_eq!(atts[0].1.content_type, "image/png");
    assert_eq!(atts[0].1.length, Some(12));
    assert_eq!(atts[0].1.revpos, 2);
    assert_eq!(atts[0].1.stub, Some(true));
    assert_eq!(atts[0].1.encoding, None);
    assert!(decode_document::<MusicPack>(&body).is_ok());
    assert!(decode_document::<Palette>(&body).is_err());
}

#[test]
fn document_fetch_outcomes() {
    let missing = obj(vec![("error", text("not_found")), ("reason", text("missing"))]);
    assert!(matches!(document_outcome::<Json>(404, &missing), Err(DbError::StoreRejected(_))));
    assert!(matches!(document_outcome::<Json>(200, &missing), Err(DbError::Deserialization(_))));
    assert!(document_outcome::<Json>(200, &obj(vec![("_id", text("a"))])).is_ok());
}

#[test]
fn attachment_bounds() {
    let bad = obj(vec![("content_type", text("a")), ("digest", text("b")), ("revpos", Json::Int(256))]);
    assert!(Attachment::from_json(&bad).is_none());
    let with_data = obj(vec![
        ("content_type", text("a")),
        ("digest", text("b")),
        ("revpos", Json::Int(255)),
        ("data", Json::Array(vec![Json::Int(0), Json::Int(255)])),
    ]);
    assert_eq!(Attachment::from_json(&with_data).unwrap().data, Some(vec![0u8, 255u8]));
}

#[test]
fn palette_encodes_and_decodes() {
    let p = Palette::new("Dusk".to_string(), [1, 2, 3, 4, 5, 4294967295], "cy".to_string(), "dark".to_string());
    let j = p.to_json();
    assert_eq!(
        j,
        obj(vec![
            ("name", text("Dusk")),
            ("color", Json::Array(vec![Json::Int(1), Json::Int(2), Json::Int(3), Json::Int(4), Json::Int(5), Json::Int(4294967295)])),
            ("author", text("cy")),
            ("description", text("dark")),
        ])
    );
    let back = Palette::from_json(&j).unwrap();
    assert_eq!(back.color, p.color);
    assert_eq!(back.name, "Dusk");
    let too_big = obj(vec![
        ("name", text("x")),
        ("color", Json::Array(vec![Json::Int(1), Json::Int(2), Json::Int(3), Json::Int(4), Json::Int(5), Json::Int(4294967296)])),
        ("author", text("y")),
        ("description", text("z")),
    ]);
    assert!(Palette::from_json(&too_big).is_none());
}

#[test]
fn music_pack_encodes() {
    let m = MusicPack::new("a".to_string(), "b".to_string(), "c".to_string());
    let j = m.to_json();
    assert_eq!(j, obj(vec![("author", text("a")), ("description", text("b")), ("file_location", text("c"))]));
    assert!(MusicPack::from_json(&j).is_some());
}

#[test]
fn collection_names_per_profile() {
    assert_eq!(Databases::Palettes.to_string(Profile::Live), "modolumia_palettes");
    assert_eq!(Databases::Palettes.to_string(Profile::Testing), "modolumia_palettes_testing");
    assert_eq!(Databases::MusicPacks.to_string(Profile::Testing), "modolumia_music_packs_testing");
    assert_eq!(Databases::Highscores.to_string(Profile::Live), "modolumia_highscores");
    assert_eq!(Databases::Speedruns.to_string(Profile::Live), "modolumia_speedruns");
    assert_eq!(Databases::Users.to_string(Profile::Testing), "modolumia_users_testing");
}

#[test]
fn credentials_are_base64_encoded() {
    assert_eq!(encode_credentials("user:pass"), "Basic dXNlcjpwYXNz");
    assert_eq!(basic_authorization("abc"), "Basic abc");
}

#[test]
fn manager_requests() {
    let m = DBManager::new("http://db:5984".to_string(), "user:pass", Profile::Live);
    let c = m.create_request(Databases::Palettes, "{}".to_string());
    assert_eq!(c.url, "http://db:5984/modolumia_palettes");
    assert_eq!(c.method, RequestType::POST);
    assert_eq!(c.content_type, Some("application/json".to_string()));
    assert_eq!(c.data, Some("{}".to_string()));
    let s = m.search_request(Databases::MusicPacks, "{}".to_string());
    assert_eq!(s.url, "http://db:5984/modolumia_music_packs/_find");
    let d = m.document_request(Databases::Users, "u7");
    assert_eq!(d.url, "http://db:5984/modolumia_users/u7?attachments=false");
    assert_eq!(d.method, RequestType::GET);
    assert_eq!(m.info_request(Databases::Speedruns).url, "http://db:5984/modolumia_speedruns");
    let out = m.http().prepare(d).unwrap();
    assert_eq!(out.headers, vec![("Authorization".to_string(), "Basic dXNlcjpwYXNz".to_string())]);
}

#[test]
fn write_request_needs_a_body() {
    let client = HTTPClient::new();
    let mut req = RequestInfo::post("http://x/y".to_string(), "b".to_string());
    req.data = None;
    assert_eq!(client.prepare(req).unwrap_err(), DbError::MissingRequestBody);
    let mut put = RequestInfo::put("http://x/y".to_string(), "b".to_string());
    put.data = None;
    assert_eq!(client.prepare(put).unwrap_err(), DbError::MissingRequestBody);
    let ok = client.prepare(RequestInfo::get("http://x/y".to_string())).unwrap();
    assert!(ok.headers.is_empty());
    assert_eq!(ok.body, None);
    let with_type = HTTPClient::with_headers(vec![("A".to_string(), "1".to_string())])
        .prepare(RequestInfo::put("u".to_string(), "d".to_string()).content_type("text/plain".to_string()))
        .unwrap();
    assert_eq!(with_type.content_type, Some("text/plain".to_string()));
    assert_eq!(with_type.body, Some("d".to_string()));
    assert_eq!(with_type.headers.len(), 1);
}

#[test]
fn collection_size() {
    assert_eq!(size_outcome(&obj(vec![("doc_count", Json::Int(17))])), Ok(17));
    assert!(matches!(size_outcome(&obj(vec![("doc_count", Json::Int(1u64 << 32))])), Err(DbError::Deserialization(_))));
    assert!(matches!(size_outcome(&obj(vec![])), Err(DbError::Deserialization(_))));
}

#[test]
fn palette_search_query() {
    let q = Search { search_val: "sun".to_string() }.query();
    let regex = |f: &str| obj(vec![(f, obj(vec![("$regex", text("sun"))]))]);
    assert_eq!(
        q.to_json(),
        obj(vec![("selector", obj(vec![("$or", Json::Array(vec![regex("name"), regex("author")]))]))])
    );
}
