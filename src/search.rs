//! The query algebra: a tree of selector nodes and its serialization to the
//! store's nested-JSON selector grammar.

use vstd::prelude::*;
use vstd::string::StringExecFns;

use crate::error::DbError;
use crate::json::{
    decimal, decimal_text, entries_view, has_key, lemma_array_view, lemma_object_view,
    values_view, Json, JsonV,
};

verus! {

broadcast use vstd::std_specs::vec::group_vec_axioms;

/// The model of a query node: its key or literal, whether its operand is a
/// JSON array, and its children in the order they were added.
pub struct TermV {
    pub value: JsonV,
    pub is_arr: bool,
    pub children: Seq<TermV>,
}

/// A node without children.
pub open spec fn leaf_v(value: JsonV, is_arr: bool) -> TermV {
    TermV { value, is_arr, children: Seq::empty() }
}

/// The node with one more child at the end.
pub open spec fn add_child(t: TermV, c: TermV) -> TermV {
    TermV { value: t.value, is_arr: t.is_arr, children: t.children.push(c) }
}

/// The text under which a node's key or literal names an object entry. A
/// string names itself; `true`, `false`, `Null` and decimal numerals stand for
/// the other scalars. A float, array or object names nothing and gives the
/// empty text.
pub open spec fn key_text(v: JsonV) -> Seq<char> {
    match v {
        JsonV::Str(s) => s,
        JsonV::Bool(b) => if b {
            seq!['t', 'r', 'u', 'e']
        } else {
            seq!['f', 'a', 'l', 's', 'e']
        },
        JsonV::Null => seq!['N', 'u', 'l', 'l'],
        JsonV::Int(n) => decimal(n as nat),
        _ => Seq::empty(),
    }
}

/// Adds an entry unless the key is already there: the first value written wins.
pub open spec fn add_first(acc: Seq<(Seq<char>, JsonV)>, k: Seq<char>, v: JsonV) -> Seq<
    (Seq<char>, JsonV),
> {
    if has_key(acc, k) {
        acc
    } else {
        acc.push((k, v))
    }
}

/// Adds each entry in order, the first value written under a key winning.
pub open spec fn add_all(acc: Seq<(Seq<char>, JsonV)>, es: Seq<(Seq<char>, JsonV)>) -> Seq<
    (Seq<char>, JsonV),
>
    decreases es.len(),
{
    if es.len() == 0 {
        acc
    } else {
        add_first(add_all(acc, es.drop_last()), es.last().0, es.last().1)
    }
}

/// Folds the representations of a field's operator children into one object:
/// an object contributes its entries, a bare value goes under its child's key,
/// and on a repeated key the first value written is kept.
pub open spec fn merge(reprs: Seq<JsonV>, keys: Seq<Seq<char>>) -> Seq<(Seq<char>, JsonV)>
    decreases reprs.len(),
{
    if reprs.len() == 0 {
        Seq::empty()
    } else {
        let acc = merge(reprs.drop_last(), keys);
        let last = reprs.len() - 1;
        match reprs[last] {
            JsonV::Object(es) => add_all(acc, es),
            other => add_first(acc, keys[last], other),
        }
    }
}

/// What a node with children holds under its own key, given the
/// representations and keys of its children.
pub open spec fn contents(is_arr: bool, reprs: Seq<JsonV>, keys: Seq<Seq<char>>) -> JsonV {
    if is_arr {
        JsonV::Array(reprs)
    } else if reprs.len() == 1 {
        reprs[0]
    } else {
        JsonV::Object(merge(reprs, keys))
    }
}

/// The keys of a sequence of nodes.
pub open spec fn keys_of(cs: Seq<TermV>) -> Seq<Seq<char>> {
    Seq::new(cs.len(), |i: int| key_text(cs[i].value))
}

/// The selector JSON of a node: a leaf is its literal; a node with children
/// is a one-entry object from its key to its contents.
pub open spec fn serialized(t: TermV) -> JsonV
    decreases t, 1nat, 0nat,
{
    if t.children.len() == 0 {
        t.value
    } else {
        JsonV::Object(
            seq![(key_text(t.value), contents(t.is_arr, child_reprs(t, t.children.len()), keys_of(t.children)))],
        )
    }
}

/// The selector JSON of the first `n` children of a node.
pub open spec fn child_reprs(t: TermV, n: nat) -> Seq<JsonV>
    decreases t, 0nat, n,
{
    if n == 0 || n > t.children.len() {
        Seq::empty()
    } else {
        child_reprs(t, (n - 1) as nat).push(serialized(t.children[n - 1]))
    }
}

/// A leaf serializes to its own literal.
pub proof fn lemma_literal_round_trip(v: JsonV, is_arr: bool)
    ensures
        serialized(leaf_v(v, is_arr)) == v,
{
}

/// An operator with one leaf operand serializes to `{op: operand}`.
pub proof fn lemma_operator_on_leaf(op: Seq<char>, is_arr: bool, v: JsonV)
    requires
        !is_arr,
    ensures
        serialized(add_child(leaf_v(JsonV::Str(op), is_arr), leaf_v(v, false))) == JsonV::Object(
            seq![(op, v)],
        ),
{
    let t = add_child(leaf_v(JsonV::Str(op), is_arr), leaf_v(v, false));
    assert(t.children =~= seq![leaf_v(v, false)]);
    assert(child_reprs(t, 0) == Seq::<JsonV>::empty());
    assert(serialized(t.children[0]) == v);
    assert(child_reprs(t, 1) =~= seq![v]);
}

/// A field with a regular-expression condition serializes to
/// `{name: {"$regex": pattern}}`.
pub proof fn lemma_field_regex(name: Seq<char>, pattern: Seq<char>)
    requires
        pattern.len() > 0,
    ensures
        serialized(
            add_child(
                leaf_v(JsonV::Str(name), false),
                add_child(leaf_v(JsonV::Str("$regex"@), false), leaf_v(JsonV::Str(pattern), false)),
            ),
        ) == JsonV::Object(
            seq![(name, JsonV::Object(seq![("$regex"@, JsonV::Str(pattern))]))],
        ),
{
    let r = add_child(leaf_v(JsonV::Str("$regex"@), false), leaf_v(JsonV::Str(pattern), false));
    lemma_operator_on_leaf("$regex"@, false, JsonV::Str(pattern));
    let t = add_child(leaf_v(JsonV::Str(name), false), r);
    assert(t.children =~= seq![r]);
    assert(child_reprs(t, 0) == Seq::<JsonV>::empty());
    assert(child_reprs(t, 1) =~= seq![serialized(r)]);
}

/// An array operator serializes its children into a JSON array in the order
/// they were added.
pub proof fn lemma_array_operator_order(op: Seq<char>, a: TermV, b: TermV)
    ensures
        serialized(add_child(add_child(leaf_v(JsonV::Str(op), true), a), b)) == JsonV::Object(
            seq![(op, JsonV::Array(seq![serialized(a), serialized(b)]))],
        ),
{
    let t = add_child(add_child(leaf_v(JsonV::Str(op), true), a), b);
    assert(t.children =~= seq![a, b]);
    assert(child_reprs(t, 0) == Seq::<JsonV>::empty());
    assert(child_reprs(t, 1) =~= seq![serialized(a)]);
    assert(child_reprs(t, 2) =~= seq![serialized(a), serialized(b)]);
}

/// The node `field(name).child(op1(v1)).child(op2(v2))`.
pub open spec fn field_with_two(
    name: Seq<char>,
    op1: Seq<char>,
    v1: JsonV,
    op2: Seq<char>,
    v2: JsonV,
) -> TermV {
    add_child(
        add_child(
            leaf_v(JsonV::Str(name), false),
            add_child(leaf_v(JsonV::Str(op1), false), leaf_v(v1, false)),
        ),
        add_child(leaf_v(JsonV::Str(op2), false), leaf_v(v2, false)),
    )
}

proof fn lemma_field_with_two(name: Seq<char>, op1: Seq<char>, v1: JsonV, op2: Seq<char>, v2: JsonV)
    ensures
        serialized(field_with_two(name, op1, v1, op2, v2)) == JsonV::Object(
            seq![(name, JsonV::Object(add_first(seq![(op1, v1)], op2, v2)))],
        ),
{
    let c1 = add_child(leaf_v(JsonV::Str(op1), false), leaf_v(v1, false));
    let c2 = add_child(leaf_v(JsonV::Str(op2), false), leaf_v(v2, false));
    lemma_operator_on_leaf(op1, false, v1);
    lemma_operator_on_leaf(op2, false, v2);
    let t = field_with_two(name, op1, v1, op2, v2);
    assert(t.children =~= seq![c1, c2]);
    assert(child_reprs(t, 0) == Seq::<JsonV>::empty());
    assert(child_reprs(t, 1) =~= seq![serialized(c1)]);
    let reprs = seq![JsonV::Object(seq![(op1, v1)]), JsonV::Object(seq![(op2, v2)])];
    assert(child_reprs(t, 2) =~= reprs);
    let keys = keys_of(t.children);
    let e1 = seq![(op1, v1)];
    let e2 = seq![(op2, v2)];
    assert(reprs.drop_last() =~= seq![JsonV::Object(e1)]);
    assert(reprs.drop_last().drop_last() =~= Seq::<JsonV>::empty());
    assert(e1.drop_last() =~= Seq::<(Seq<char>, JsonV)>::empty());
    assert(e2.drop_last() =~= Seq::<(Seq<char>, JsonV)>::empty());
    assert(!has_key(Seq::<(Seq<char>, JsonV)>::empty(), op1));
    assert(add_first(Seq::empty(), op1, v1) =~= e1);
    assert(add_all(Seq::empty(), e1.drop_last()) == Seq::<(Seq<char>, JsonV)>::empty());
    assert(add_all(Seq::empty(), e1) == e1);
    assert(merge(reprs.drop_last().drop_last(), keys) == Seq::<(Seq<char>, JsonV)>::empty());
    assert(reprs.drop_last()[0] == JsonV::Object(e1));
    assert(merge(reprs.drop_last(), keys) == e1);
    assert(add_all(e1, e2.drop_last()) == e1);
    assert(add_all(e1, e2) == add_first(e1, op2, v2));
    assert(merge(reprs, keys) == add_first(e1, op2, v2));
}

/// Two conditions with different operators on one field merge into one
/// object: `{name: {op1: v1, op2: v2}}`.
pub proof fn lemma_chained_operators_merge(
    name: Seq<char>,
    op1: Seq<char>,
    v1: JsonV,
    op2: Seq<char>,
    v2: JsonV,
)
    requires
        op1 != op2,
    ensures
        serialized(field_with_two(name, op1, v1, op2, v2)) == JsonV::Object(
            seq![(name, JsonV::Object(seq![(op1, v1), (op2, v2)]))],
        ),
{
    lemma_field_with_two(name, op1, v1, op2, v2);
    let e1 = seq![(op1, v1)];
    assert(!has_key(e1, op2));
    assert(e1.push((op2, v2)) =~= seq![(op1, v1), (op2, v2)]);
}

/// Two conditions with the same operator on one field keep the first value
/// written: `{name: {op: v1}}`.
pub proof fn lemma_duplicate_operator_first_wins(
    name: Seq<char>,
    op: Seq<char>,
    v1: JsonV,
    v2: JsonV,
)
    ensures
        serialized(field_with_two(name, op, v1, op, v2)) == JsonV::Object(
            seq![(name, JsonV::Object(seq![(op, v1)]))],
        ),
{
    lemma_field_with_two(name, op, v1, op, v2);
    let e1 = seq![(op, v1)];
    assert(e1[0].0 == op);
    assert(has_key(e1, op));
}

/// A node of a selector: a literal, a field name, or an operator, with the
/// children added to it in order.
#[derive(Debug)]
pub struct SearchTerm {
    children: Option<Vec<SearchTerm>>,
    value: Json,
    is_arr: bool,
}

spec fn term_view(t: SearchTerm) -> TermV
    decreases t,
{
    TermV {
        value: t.value@,
        is_arr: t.is_arr,
        children: match t.children {
            Some(v) => Seq::new(
                v@.len(),
                |i: int|
                    if 0 <= i < v@.len() {
                        term_view(v@[i])
                    } else {
                        leaf_v(JsonV::Null, false)
                    },
            ),
            None => Seq::empty(),
        },
    }
}

impl View for SearchTerm {
    type V = TermV;

    closed spec fn view(&self) -> TermV {
        term_view(*self)
    }
}

fn key_string(v: &Json) -> (r: String)
    ensures
        r@ == key_text(v@),
{
    proof {
        reveal_strlit("true");
        reveal_strlit("false");
        reveal_strlit("Null");
    }
    match v {
        Json::Str(s) => s.clone(),
        Json::Bool(b) => if *b {
            let r = String::from_str("true");
            assert(r@ =~= key_text(v@));
            r
        } else {
            let r = String::from_str("false");
            assert(r@ =~= key_text(v@));
            r
        },
        Json::Null => {
            let r = String::from_str("Null");
            assert(r@ =~= key_text(v@));
            r
        },
        Json::Int(n) => decimal_text(*n),
        _ => String::new(),
    }
}

fn add_first_exec(acc: &mut Vec<(String, Json)>, k: String, v: Json)
    ensures
        entries_view(final(acc)@) == add_first(entries_view(old(acc)@), k@, v@),
{
    let ghost es = entries_view(acc@);
    let mut found = false;
    let mut j: usize = 0;
    while j < acc.len()
        invariant
            j <= acc@.len(),
            es == entries_view(acc@),
            found ==> has_key(es, k@),
            !found ==> forall|m: int| 0 <= m < j ==> es[m].0 != k@,
        decreases acc@.len() - j,
    {
        if acc[j].0 == k {
            found = true;
            assert(es[j as int].0 == k@);
        }
        j = j + 1;
    }
    if !found {
        acc.push((k, v));
        assert(entries_view(acc@) =~= es.push((k@, v@)));
    }
}

fn add_all_exec(acc: &mut Vec<(String, Json)>, es: &Vec<(String, Json)>)
    ensures
        entries_view(final(acc)@) == add_all(entries_view(old(acc)@), entries_view(es@)),
{
    let ghost start = entries_view(acc@);
    let ghost ev = entries_view(es@);
    let mut j: usize = 0;
    while j < es.len()
        invariant
            j <= es@.len(),
            ev == entries_view(es@),
            entries_view(acc@) == add_all(start, ev.take(j as int)),
        decreases es@.len() - j,
    {
        add_first_exec(acc, es[j].0.clone(), es[j].1.duplicate());
        assert(ev.take(j + 1).drop_last() =~= ev.take(j as int));
        j = j + 1;
    }
    assert(ev.take(j as int) =~= ev);
}

fn merge_exec(reprs: &Vec<Json>, cs: &Vec<SearchTerm>) -> (r: Vec<(String, Json)>)
    requires
        reprs@.len() == cs@.len(),
    ensures
        entries_view(r@) == merge(
            values_view(reprs@),
            Seq::new(cs@.len(), |k: int| key_text(cs@[k]@.value)),
        ),
{
    let ghost rv = values_view(reprs@);
    let ghost keys = Seq::new(cs@.len(), |k: int| key_text(cs@[k]@.value));
    let mut acc: Vec<(String, Json)> = Vec::new();
    let mut i: usize = 0;
    assert(entries_view(acc@) =~= merge(rv.take(0), keys));
    while i < reprs.len()
        invariant
            i <= reprs@.len(),
            reprs@.len() == cs@.len(),
            rv == values_view(reprs@),
            keys == Seq::new(cs@.len(), |k: int| key_text(cs@[k]@.value)),
            entries_view(acc@) == merge(rv.take(i as int), keys),
        decreases reprs@.len() - i,
    {
        assert(rv.take(i + 1).drop_last() =~= rv.take(i as int));
        match &reprs[i] {
            Json::Object(es) => {
                proof {
                    lemma_object_view(*es);
                }
                add_all_exec(&mut acc, es);
            },
            other => {
                let key = key_string(&cs[i].value);
                proof {
                    assert(cs@[i as int]@.value == cs@[i as int].value@);
                }
                add_first_exec(&mut acc, key, other.duplicate());
            },
        }
        i = i + 1;
    }
    assert(rv.take(i as int) =~= rv);
    acc
}

/// Whether a float's IEEE-754 binary64 bit pattern stands for a finite
/// number: its exponent field is not all ones.
pub open spec fn is_finite_bits(bits: u64) -> bool {
    (bits >> 52u64) & 0x7ffu64 != 0x7ffu64
}

impl SearchTerm {
    fn node(value: Json, is_arr: bool) -> (r: SearchTerm)
        ensures
            r@ == leaf_v(value@, is_arr),
    {
        let r = SearchTerm { children: None, value, is_arr };
        assert(r@.children =~= Seq::empty());
        r
    }

    fn operator(name: &str, is_arr: bool) -> (r: SearchTerm)
        ensures
            r@ == leaf_v(JsonV::Str(name@), is_arr),
    {
        SearchTerm::node(Json::Str(name.to_owned()), is_arr)
    }

    /// Adds a child after the ones already there.
    pub fn child(self, value: SearchTerm) -> (r: SearchTerm)
        ensures
            r@ == add_child(self@, value@),
    {
        let ghost old_children = self@.children;
        let SearchTerm { children, value: v, is_arr } = self;
        let mut cs = match children {
            Some(cs) => cs,
            None => Vec::new(),
        };
        assert(cs@.len() == old_children.len());
        assert forall|i: int| 0 <= i < cs@.len() implies term_view(cs@[i]) == old_children[i] by {}
        cs.push(value);
        let r = SearchTerm { children: Some(cs), value: v, is_arr };
        assert(r@.children =~= old_children.push(value@));
        r
    }

    /// A deep copy.
    pub fn duplicate(&self) -> (r: SearchTerm)
        ensures
            r@ == self@,
        decreases self,
    {
        let children = match &self.children {
            None => None,
            Some(cs) => {
                let mut out: Vec<SearchTerm> = Vec::new();
                let mut i: usize = 0;
                while i < cs.len()
                    invariant
                        *self == (SearchTerm { children: Some(*cs), value: self.value, is_arr: self.is_arr }),
                        i <= cs@.len(),
                        out@.len() == i,
                        forall|k: int| 0 <= k < i ==> out@[k]@ == cs@[k]@,
                    decreases cs@.len() - i,
                {
                    proof {
                        assert(decreases_to!(*self => (*self).children));
                        assert(decreases_to!((*self).children => (*self).children->Some_0));
                        assert(decreases_to!(*cs => cs[i as int]));
                    }
                    out.push(cs[i].duplicate());
                    i = i + 1;
                }
                Some(out)
            },
        };
        let r = SearchTerm { children, value: self.value.duplicate(), is_arr: self.is_arr };
        assert(r@.children =~= self@.children);
        r
    }

    /// A field holding a string: `{key: value}`.
    pub fn pair(key: &str, value: &str) -> (r: SearchTerm)
        ensures
            r@ == add_child(leaf_v(JsonV::Str(key@), false), leaf_v(JsonV::Str(value@), false)),
    {
        SearchTerm::string(key).child(SearchTerm::string(value))
    }

    /// A string literal, or the name of a field when children are added.
    pub fn string(val: &str) -> (r: SearchTerm)
        ensures
            r@ == leaf_v(JsonV::Str(val@), false),
            serialized(r@) == JsonV::Str(val@),
    {
        SearchTerm::node(Json::Str(val.to_owned()), false)
    }

    /// An integer literal.
    pub fn integer(val: u64) -> (r: SearchTerm)
        ensures
            r@ == leaf_v(JsonV::Int(val), false),
            serialized(r@) == JsonV::Int(val),
    {
        SearchTerm::node(Json::Int(val), false)
    }

    /// A float literal, from the IEEE-754 binary64 bit pattern of the number.
    /// NaN and the infinities are refused.
    pub fn float(bits: u64) -> (r: Result<SearchTerm, DbError>)
        ensures
            is_finite_bits(bits) ==> (r matches Ok(t) && t@ == leaf_v(JsonV::Float(bits), false)
                && serialized(t@) == JsonV::Float(bits)),
            !is_finite_bits(bits) ==> r == Err::<SearchTerm, DbError>(DbError::InvalidLiteral),
    {
        if (bits >> 52u64) & 0x7ffu64 != 0x7ffu64 {
            Ok(SearchTerm::node(Json::Float(bits), false))
        } else {
            Err(DbError::InvalidLiteral)
        }
    }

    /// A boolean literal.
    pub fn boolean(val: bool) -> (r: SearchTerm)
        ensures
            r@ == leaf_v(JsonV::Bool(val), false),
            serialized(r@) == JsonV::Bool(val),
    {
        SearchTerm::node(Json::Bool(val), false)
    }

    /// The null literal.
    pub fn null() -> (r: SearchTerm)
        ensures
            r@ == leaf_v(JsonV::Null, false),
            serialized(r@) == JsonV::Null,
    {
        SearchTerm::node(Json::Null, false)
    }

    /// The selector JSON of this node.
    pub fn serialize(&self) -> (r: Json)
        ensures
            r@ == serialized(self@),
        decreases self,
    {
        match &self.children {
            None => self.value.duplicate(),
            Some(cs) => {
                if cs.len() == 0 {
                    return self.value.duplicate();
                }
                let ghost t = self@;
                assert(t.children.len() == cs@.len());
                let mut reprs: Vec<Json> = Vec::new();
                let mut i: usize = 0;
                assert(values_view(reprs@) =~= child_reprs(t, 0));
                while i < cs.len()
                    invariant
                        *self == (SearchTerm { children: Some(*cs), value: self.value, is_arr: self.is_arr }),
                        t == self@,
                        t.children.len() == cs@.len(),
                        i <= cs@.len(),
                        reprs@.len() == i,
                        values_view(reprs@) == child_reprs(t, i as nat),
                    decreases cs@.len() - i,
                {
                    proof {
                        assert(decreases_to!(*self => (*self).children));
                        assert(decreases_to!((*self).children => (*self).children->Some_0));
                        assert(decreases_to!(*cs => cs[i as int]));
                        assert(term_view(cs@[i as int]) == t.children[i as int]);
                    }
                    let x = cs[i].serialize();
                    reprs.push(x);
                    assert(values_view(reprs@) =~= child_reprs(t, (i + 1) as nat));
                    i = i + 1;
                }
                let ghost rv = values_view(reprs@);
                let ghost keys = Seq::new(cs@.len(), |k: int| key_text(cs@[k]@.value));
                assert(keys =~= keys_of(t.children)) by {
                    assert forall|k: int| 0 <= k < cs@.len() implies cs@[k]@ == t.children[k] by {}
                }
                let inner = if self.is_arr {
                    proof {
                        lemma_array_view(reprs);
                    }
                    Json::Array(reprs)
                } else if reprs.len() == 1 {
                    match reprs.pop() {
                        Some(x) => x,
                        None => Json::Null,
                    }
                } else {
                    let es = merge_exec(&reprs, cs);
                    proof {
                        lemma_object_view(es);
                    }
                    Json::Object(es)
                };
                assert(inner@ == contents(t.is_arr, rv, keys));
                let key = key_string(&self.value);
                let out = vec![(key, inner)];
                proof {
                    lemma_object_view(out);
                    assert(entries_view(out@) =~= seq![(key_text(t.value), contents(t.is_arr, rv, keys))]);
                }
                Json::Object(out)
            },
        }
    }

    /// All of the conditions hold.
    pub fn and() -> (r: SearchTerm)
        ensures
            r@ == leaf_v(JsonV::Str("$and"@), true),
    {
        SearchTerm::operator("$and", true)
    }

    /// Any of the conditions holds.
    pub fn or() -> (r: SearchTerm)
        ensures
            r@ == leaf_v(JsonV::Str("$or"@), true),
    {
        SearchTerm::operator("$or", true)
    }

    /// None of the conditions holds.
    pub fn nor() -> (r: SearchTerm)
        ensures
            r@ == leaf_v(JsonV::Str("$nor"@), true),
    {
        SearchTerm::operator("$nor", true)
    }

    /// The array holds all of the values.
    pub fn all() -> (r: SearchTerm)
        ensures
            r@ == leaf_v(JsonV::Str("$all"@), true),
    {
        SearchTerm::operator("$all", true)
    }

    /// The condition does not hold.
    pub fn not() -> (r: SearchTerm)
        ensures
            r@ == leaf_v(JsonV::Str("$not"@), false),
    {
        SearchTerm::operator("$not", false)
    }

    /// The value is less than the operand.
    pub fn lt() -> (r: SearchTerm)
        ensures
            r@ == leaf_v(JsonV::Str("$lt"@), false),
    {
        SearchTerm::operator("$lt", false)
    }

    /// The value is less than or equal to the operand.
    pub fn lte() -> (r: SearchTerm)
        ensures
            r@ == leaf_v(JsonV::Str("$lte"@), false),
    {
        SearchTerm::operator("$lte", false)
    }

    /// The value equals the operand.
    pub fn eq() -> (r: SearchTerm)
        ensures
            r@ == leaf_v(JsonV::Str("$eq"@), false),
    {
        SearchTerm::operator("$eq", false)
    }

    /// The value differs from the operand.
    pub fn ne() -> (r: SearchTerm)
        ensures
            r@ == leaf_v(JsonV::Str("$ne"@), false),
    {
        SearchTerm::operator("$ne", false)
    }

    /// The value is greater than the operand.
    pub fn gt() -> (r: SearchTerm)
        ensures
            r@ == leaf_v(JsonV::Str("$gt"@), false),
    {
        SearchTerm::operator("$gt", false)
    }

    /// The value is greater than or equal to the operand.
    pub fn gte() -> (r: SearchTerm)
        ensures
            r@ == leaf_v(JsonV::Str("$gte"@), false),
    {
        SearchTerm::operator("$gte", false)
    }

    /// The value is one of the listed values.
    pub fn is_in() -> (r: SearchTerm)
        ensures
            r@ == leaf_v(JsonV::Str("$in"@), true),
    {
        SearchTerm::operator("$in", true)
    }

    /// The value is none of the listed values.
    pub fn nin() -> (r: SearchTerm)
        ensures
            r@ == leaf_v(JsonV::Str("$nin"@), true),
    {
        SearchTerm::operator("$nin", true)
    }

    /// The array has the given length.
    pub fn size() -> (r: SearchTerm)
        ensures
            r@ == leaf_v(JsonV::Str("$size"@), false),
    {
        SearchTerm::operator("$size", false)
    }

    /// The value divided by the first operand leaves the second as remainder.
    pub fn modulo() -> (r: SearchTerm)
        ensures
            r@ == leaf_v(JsonV::Str("$mod"@), true),
    {
        SearchTerm::operator("$mod", true)
    }

    /// The string matches the regular expression (Erlang syntax).
    pub fn regex() -> (r: SearchTerm)
        ensures
            r@ == leaf_v(JsonV::Str("$regex"@), false),
    {
        SearchTerm::operator("$regex", false)
    }
}

} // verus!
