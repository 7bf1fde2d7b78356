//! A post-extraction value filter engine for grok-style field extraction.
//!
//! After a pattern pulls raw byte spans out of a log line, each extracted
//! field may be piped through named *filters* that coerce it into a typed
//! value. This crate provides the two halves of that engine:
//!
//! * the *resolver* ([`resolve::resolve`]), which turns a parsed filter
//!   invocation (name plus literal arguments) into a validated
//!   [`filter::GrokFilter`] at pattern-compile time, and
//! * the *applicator* ([`apply::apply_filter`]), which applies a resolved
//!   filter to a dynamically typed [`value::Value`] at match time.
//!
//! Everything the engine decides is verified. The only operations it does
//! not perform itself are the host's IEEE-754 float operations (parsing,
//! multiplication, formatting) and JSON decoding: floats are carried as
//! raw bit patterns ([`value::FloatBits`]), and whenever such an operation
//! is needed the applicator hands the caller an explicit request
//! ([`apply::ApplyStep`]); the verified `finish_*` functions then state
//! exactly what the engine returns for every possible host answer.

pub mod apply;
pub mod digits;
pub mod filter;
pub mod resolve;
pub mod text;
pub mod value;
