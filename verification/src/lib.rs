//! Spreadsheet addressing and grid access.
//!
//! The heart of the crate is the coordinate codec in [`compat::utils`]:
//! conversion between column letters (`"A"`, `"AA"`, ...) and 1-indexed
//! column numbers in the bijective base-26 system spreadsheets use, and
//! between full cell references (`"AA100"`) and `(row, column)` pairs.
//! On top of it, [`compat`] offers a bounds-checked, 1-indexed view of a
//! worksheet's cell data. Chart, style and validation configuration types
//! round the crate out.

pub mod charts;
pub mod compat;
pub mod error;
pub mod styles;
pub mod validation;

pub use error::Error;
