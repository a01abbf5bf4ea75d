//! Verified core of the wiki's MCP endpoint: authorization parsing,
//! access control, path rules, page editing and the bookkeeping
//! around tool results.

pub mod errors;
pub mod text;
pub mod paths;
pub mod access;
pub mod seqs;
pub mod service;
pub mod editing;
pub mod model;
pub mod auth;
pub mod pages;
pub mod audit;
pub mod markdown;
pub mod store;
pub mod reads;
pub mod writes;
pub mod convert;
pub mod search;
pub mod handler;
pub mod entries;
pub mod server;
pub mod sessions;
pub mod resources;
pub mod prompts;
pub mod sorting;
