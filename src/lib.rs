//! A typed client core for a Mango-style document store: a query algebra that
//! serializes to the store's selector grammar, a query builder, and the
//! decisions the store client makes around each request.

pub mod documents;
pub mod error;
pub mod http;
pub mod json;
pub mod palettes;
pub mod query;
pub mod results;
pub mod search;
pub mod store;
