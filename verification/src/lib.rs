//! Caching and routing core of an AI gateway.
//!
//! For every generation request the gateway decides whether a stored answer
//! can be served from a layered cache, which generation strategy to use when
//! it cannot, and how the answer is framed for delivery.
//!
//! The library does no input or output and reads no clock. Whatever waits
//! on the network, the disk or an engine is the caller's: the library says
//! what to do next, the caller does it and hands the outcome back. Every
//! function is verified against its contract; the few calls into other
//! crates stand behind declarations that state what is taken on trust.

pub mod ai_service;
pub mod cache_repo;
pub mod cache_service;
pub mod chat;
pub mod config;
pub mod hashing;
pub mod instant;
pub mod json;
pub mod logs;
pub mod lru_store;
pub mod memory_tier;
pub mod model_service;
pub mod models;
pub mod prompts;
pub mod ranking;
pub mod redis_repo;
pub mod scripts;
pub mod search_service;
pub mod stream;
pub mod text;
