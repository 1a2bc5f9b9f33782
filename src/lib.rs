// A client for a document-search engine's REST dialect: operations render to
// requests (path, query string, JSON body), and answers decode into typed results.
pub mod common;
pub mod delete;
pub mod error;
pub mod json;
pub mod search;
