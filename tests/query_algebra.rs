use modolumia::error::DbError;
use modolumia::json::Json;
use modolumia::query::{SearchBuilder, SortTerm};
use modolumia::search::SearchTerm;

fn text(s: &str) -> Json {
    Json::Str(s.to_string())
}

fn obj(entries: Vec<(&str, Json)>) -> Json {
    Json::Object(entries.into_iter().map(|(k, v)| (k.to_string(), v)).collect())
}

#[test]
fn literal_leaves_serialize_to_themselves() {
    assert_eq!(SearchTerm::string("abc").serialize(), text("abc"));
    assert_eq!(SearchTerm::string("").serialize(), text(""));
    assert_eq!(SearchTerm::integer(42).serialize(), Json::Int(42));
    assert_eq!(SearchTerm::integer(u64::MAX).serialize(), Json::Int(u64::MAX));
    assert_eq!(SearchTerm::boolean(true).serialize(), Json::Bool(true));
    assert_eq!(SearchTerm::null().serialize(), Json::Null);
    let bits = 1.5f64.to_bits();
    assert_eq!(SearchTerm::float(bits).unwrap().serialize(), Json::Float(bits));
}

#[test]
fn operator_without_children_is_its_name() {
    assert_eq!(SearchTerm::or().serialize(), text("$or"));
}

#[test]
fn field_with_regex() {
    let t = SearchTerm::string("name").child(SearchTerm::regex().child(SearchTerm::string("^pal.*")));
    assert_eq!(t.serialize(), obj(vec![("name", obj(vec![("$regex", text("^pal.*"))]))]));
}

#[test]
fn or_keeps_child_order() {
    let t = SearchTerm::or()
        .child(SearchTerm::pair("status", "active"))
        .child(SearchTerm::pair("status", "pending"));
    let expected = obj(vec![(
        "$or",
        Json::Array(vec![obj(vec![("status", text("active"))]), obj(vec![("status", text("pending"))])]),
    )]);
    assert_eq!(t.serialize(), expected);
    let swapped = SearchTerm::or()
        .child(SearchTerm::pair("status", "pending"))
        .child(SearchTerm::pair("status", "active"));
    assert_ne!(swapped.serialize(), expected);
}

#[test]
fn or_of_leaves() {
    let t = SearchTerm::or().child(SearchTerm::integer(1)).child(SearchTerm::string("b"));
    assert_eq!(t.serialize(), obj(vec![("$or", Json::Array(vec![Json::Int(1), text("b")]))]));
}

#[test]
fn chained_operators_merge_into_one_object() {
    let t = SearchTerm::string("age")
        .child(SearchTerm::gte().child(SearchTerm::integer(18)))
        .child(SearchTerm::lt().child(SearchTerm::integer(65)));
    assert_eq!(
        t.serialize(),
        obj(vec![("age", obj(vec![("$gte", Json::Int(18)), ("$lt", Json::Int(65))]))])
    );
}

/// A repeated operator under one field keeps the first value written and
/// drops the later ones.
#[test]
fn duplicate_operator_keeps_first_value() {
    let t = SearchTerm::string("x")
        .child(SearchTerm::eq().child(SearchTerm::integer(1)))
        .child(SearchTerm::eq().child(SearchTerm::integer(2)));
    assert_eq!(t.serialize(), obj(vec![("x", obj(vec![("$eq", Json::Int(1))]))]));
}

#[test]
fn bare_value_among_operators_goes_under_its_own_key() {
    let t = SearchTerm::string("x")
        .child(SearchTerm::string("y"))
        .child(SearchTerm::ne().child(SearchTerm::integer(3)));
    assert_eq!(t.serialize(), obj(vec![("x", obj(vec![("y", text("y")), ("$ne", Json::Int(3))]))]));
}

#[test]
fn nested_operators() {
    let t = SearchTerm::and()
        .child(SearchTerm::string("x").child(SearchTerm::not().child(SearchTerm::eq().child(SearchTerm::integer(1)))))
        .child(SearchTerm::string("tags").child(SearchTerm::is_in().child(SearchTerm::string("a")).child(SearchTerm::string("b"))));
    let expected = obj(vec![(
        "$and",
        Json::Array(vec![
            obj(vec![("x", obj(vec![("$not", obj(vec![("$eq", Json::Int(1))]))]))]),
            obj(vec![("tags", obj(vec![("$in", Json::Array(vec![text("a"), text("b")]))]))]),
        ]),
    )]);
    assert_eq!(t.serialize(), expected);
}

#[test]
fn non_string_keys_use_their_text() {
    assert_eq!(
        SearchTerm::integer(507).child(SearchTerm::integer(1)).serialize(),
        obj(vec![("507", Json::Int(1))])
    );
    assert_eq!(
        SearchTerm::boolean(false).child(SearchTerm::integer(1)).serialize(),
        obj(vec![("false", Json::Int(1))])
    );
    assert_eq!(SearchTerm::null().child(SearchTerm::integer(0)).serialize(), obj(vec![("Null", Json::Int(0))]));
}

#[test]
fn operator_names() {
    let names = vec![
        (SearchTerm::and(), "$and"),
        (SearchTerm::nor(), "$nor"),
        (SearchTerm::all(), "$all"),
        (SearchTerm::lte(), "$lte"),
        (SearchTerm::gt(), "$gt"),
        (SearchTerm::nin(), "$nin"),
        (SearchTerm::size(), "$size"),
        (SearchTerm::modulo(), "$mod"),
    ];
    for (t, name) in names {
        assert_eq!(t.serialize(), text(name));
    }
    let m = SearchTerm::modulo().child(SearchTerm::integer(4)).child(SearchTerm::integer(0));
    assert_eq!(m.serialize(), obj(vec![("$mod", Json::Array(vec![Json::Int(4), Json::Int(0)]))]));
}

#[test]
fn non_finite_float_is_rejected() {
    assert_eq!(SearchTerm::float(f64::NAN.to_bits()).unwrap_err(), DbError::InvalidLiteral);
    assert_eq!(SearchTerm::float(f64::INFINITY.to_bits()).unwrap_err(), DbError::InvalidLiteral);
    assert_eq!(SearchTerm::float(f64::NEG_INFINITY.to_bits()).unwrap_err(), DbError::InvalidLiteral);
    assert!(SearchTerm::float(f64::MAX.to_bits()).is_ok());
    assert!(SearchTerm::float((-0.0f64).to_bits()).is_ok());
}

#[test]
fn builder_without_filter_has_null_selector() {
    let q = SearchBuilder::new().build();
    assert_eq!(q.to_json(), obj(vec![("selector", Json::Null)]));
}

#[test]
fn builder_writes_present_settings_in_order() {
    let q = SearchBuilder::new()
        .execution_stats(true)
        .skip(5)
        .filter(SearchTerm::pair("kind", "palette"))
        .limit(10)
        .sort(vec![SortTerm::ascending("name".to_string()), SortTerm::descending("author".to_string())])
        .fields(vec!["name".to_string(), "color".to_string()])
        .r(2)
        .bookmark("page2".to_string())
        .update(false)
        .stable(true)
        .stale(false)
        .build();
    let expected = obj(vec![
        ("selector", obj(vec![("kind", text("palette"))])),
        ("limit", Json::Int(10)),
        ("skip", Json::Int(5)),
        ("sort", Json::Array(vec![obj(vec![("name", text("asc"))]), obj(vec![("author", text("desc"))])])),
        ("fields", Json::Array(vec![text("name"), text("color")])),
        ("r", Json::Int(2)),
        ("bookmark", text("page2")),
        ("update", Json::Bool(false)),
        ("stable", Json::Bool(true)),
        ("stale", Json::Bool(false)),
        ("execution_stats", Json::Bool(true)),
    ]);
    assert_eq!(q.to_json(), expected);
}

#[test]
fn builder_leaves_out_absent_settings() {
    let q = SearchBuilder::new().skip(3).build();
    assert_eq!(q.to_json(), obj(vec![("selector", Json::Null), ("skip", Json::Int(3))]));
}

#[test]
fn sort_term_json() {
    assert_eq!(SortTerm::ascending("a".to_string()).to_json(), obj(vec![("a", text("asc"))]));
    assert_eq!(SortTerm::descending("b".to_string()).to_json(), obj(vec![("b", text("desc"))]));
}

#[test]
fn duplicate_is_an_independent_copy() {
    let base = SearchTerm::string("age").child(SearchTerm::gte().child(SearchTerm::integer(18)));
    let copy = base.duplicate();
    let extended = base.child(SearchTerm::lt().child(SearchTerm::integer(65)));
    assert_eq!(copy.serialize(), obj(vec![("age", obj(vec![("$gte", Json::Int(18))]))]));
    assert_eq!(
        extended.serialize(),
        obj(vec![("age", obj(vec![("$gte", Json::Int(18)), ("$lt", Json::Int(65))]))])
    );
}
