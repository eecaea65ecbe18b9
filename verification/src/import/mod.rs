//! Reading source tables: cells, header detection, column mapping and rows.
pub mod alias_keys;
pub mod aliases;
pub mod cells;
pub mod columns;
pub mod delimited;
pub mod detection;
pub mod fingerprint;
pub mod mapping;
pub mod meanings;
pub mod options;
pub mod preview;
pub mod rows;
pub mod sampling;
pub mod summary;
pub mod workbook;
