//! Verified core of a retrieval-augmented conversational assistant for a
//! lexicon service: a text-embedding front end (tokenization batching and
//! shape handling), a tool-calling chat orchestrator with classified
//! retry/backoff, and the search tool adapter that prepares queries and
//! renders ranked results for the model.
pub mod auth;
pub mod cache_key;
pub mod chars;
pub mod chat;
pub mod embed;
pub mod error;
pub mod jsonout;
pub mod notify;
pub mod numfmt;
pub mod orchestrator;
pub mod sanitize;
pub mod search;
pub mod text;
