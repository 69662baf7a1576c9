//! Exporting spreadsheet workbooks as delimited text.
//!
//! The workbook container itself is decoded by the `ooxml` crate and the
//! records are encoded by the `csv` crate; what this library states and
//! proves is everything in between: how a delimiter token is read, how a
//! sheet is selected by index or name, which sheets survive the name
//! filter, which of the four run modes the options resolve to, where each
//! sheet's output goes, and how rows become fixed- or natural-width
//! records.

pub mod cli;
pub mod delimiter;
pub mod export;
pub mod name_filter;
pub mod plan;
pub mod sheet_selector;
pub mod workbook;
