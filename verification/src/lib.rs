//! Searching and summarising tabular business records.
pub mod analytics;
pub mod assembly;
pub mod build_info;
pub mod calendar;
pub mod copies;
pub mod counting;
pub mod digest;
pub mod engines;
pub mod export;
pub mod figures;
pub mod import;
pub mod launcher;
pub mod number;
pub mod olap;
pub mod ordered;
pub mod paths;
pub mod phase;
pub mod platform;
pub mod presentation;
pub mod query;
pub mod records;
pub mod reports;
pub mod sample;
pub mod schema;
pub mod store;
pub mod table;
pub mod text;
pub mod wording;
