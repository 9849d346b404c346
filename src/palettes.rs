//! The palette search offered to the web layer.

use vstd::prelude::*;

use crate::json::JsonV;
use crate::query::{empty_query, QueryV, SearchBuilder, SearchInfo};
use crate::search::{add_child, leaf_v, SearchTerm, TermV};

verus! {

/// A palette search request: the text looked for.
#[derive(Debug)]
pub struct Search {
    pub search_val: String,
}

/// The condition that a field matches a regular expression.
pub open spec fn field_regex(field: Seq<char>, pattern: Seq<char>) -> TermV {
    add_child(
        leaf_v(JsonV::Str(field), false),
        add_child(leaf_v(JsonV::Str("$regex"@), false), leaf_v(JsonV::Str(pattern), false)),
    )
}

/// Palettes whose name or author matches the pattern.
pub open spec fn palette_selector(pattern: Seq<char>) -> TermV {
    add_child(
        add_child(leaf_v(JsonV::Str("$or"@), true), field_regex("name"@, pattern)),
        field_regex("author"@, pattern),
    )
}

fn regex_on(field: &str, pattern: &str) -> (r: SearchTerm)
    ensures
        r@ == field_regex(field@, pattern@),
{
    SearchTerm::string(field).child(SearchTerm::regex().child(SearchTerm::string(pattern)))
}

impl Search {
    /// The query for palettes whose name or author matches the text as a
    /// regular expression.
    pub fn query(&self) -> (r: SearchInfo)
        ensures
            r@ == (QueryV { selector: palette_selector(self.search_val@), ..empty_query() }),
    {
        let pattern = self.search_val.as_str();
        let term = SearchTerm::or().child(regex_on("name", pattern)).child(regex_on("author", pattern));
        SearchBuilder::new().filter(term).build()
    }
}

} // verus!
