//! The columnar projection of the store: its filters, statements and identity.
pub mod answers;
pub mod benchmark;
pub mod building;
pub mod contract;
pub mod filter;
pub mod measures;
pub mod meta;
pub mod prices;
pub mod projection;
pub mod sections;
pub mod sql;
pub mod statements;
