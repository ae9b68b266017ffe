//! Personal finance ledger: categories, calendar arithmetic, spreadsheet
//! import rules and the row encoding of the ledger's records.
pub mod calendar;
pub mod import;
pub mod ledger;
pub mod models;
pub mod text;
