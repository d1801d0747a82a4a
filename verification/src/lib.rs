//! Core of a scheduled web-scraping engine.
//!
//! The library covers the logic of the engine: turning schedule strings into
//! six-field cron expressions, keeping one live timer handle per job in a
//! registry, deciding what a fetch plan looks like, extracting data from
//! fetched content with a CSS selector or a regular expression, and wrapping
//! every run into a uniform outcome record.  Network, timer and storage I/O
//! stay with the host program, which feeds plain values in and out.

pub mod email;
pub mod export;
pub mod extract;
pub mod models;
pub mod pipeline;
pub mod registry;
pub mod schedule;
pub mod scheduler;
pub mod text;
