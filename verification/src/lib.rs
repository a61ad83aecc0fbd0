//! Core of a terminal mod browser: discovery-result parsing, a tagged view
//! over the loaded collections, and the pagination/selection model that the
//! presentation layer queries cell by cell.
pub mod entry;
pub mod pager;
pub mod text;
pub mod views;
