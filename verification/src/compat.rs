//! Worksheet access in the style of the common Python spreadsheet API:
//! A1-notation coordinates and 1-indexed rows and columns.

pub mod cell;
pub mod utils;
pub mod worksheet;

pub use cell::{Cell, CellValue};
pub use utils::{
    column_index_from_string, coordinate_from_string, coordinate_to_string, get_column_letter,
};
pub use worksheet::{RowIterator, Worksheet};

