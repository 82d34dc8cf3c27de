//! A single worksheet cell: its 1-indexed position and its value.
//!
//! A numeric cell value is carried as the IEEE-754 bit pattern of the
//! 64-bit float (`f64::to_bits`), so the crate's core stays within plain
//! integers; callers that need the float itself convert at the boundary
//! with `f64::from_bits`, which is lossless in both directions.

use vstd::prelude::*;

use crate::compat::utils;

verus! {

/// The value held by one cell.
#[derive(Debug, Clone, PartialEq)]
pub enum CellValue {
    /// Text
    String(String),
    /// A 64-bit float, by its IEEE-754 bit pattern
    Number(u64),
    /// A boolean
    Boolean(bool),
    /// No value
    Empty,
}

/// One cell: 1-indexed row and column, and the value stored there.
#[derive(Debug, Clone)]
pub struct Cell {
    /// Row number (1-indexed)
    row: usize,
    /// Column number (1-indexed)
    column: usize,
    /// Cell value
    value: CellValue,
}

impl Cell {
    /// The cell's row, as contracts see it.
    pub closed spec fn spec_row(&self) -> int {
        self.row as int
    }

    /// The cell's column, as contracts see it.
    pub closed spec fn spec_column(&self) -> int {
        self.column as int
    }

    /// The cell's value, as contracts see it.
    pub closed spec fn spec_value(&self) -> CellValue {
        self.value
    }

    /// Make a cell from its 1-indexed position and value.
    pub fn new(row: usize, column: usize, value: CellValue) -> (c: Cell)
        ensures
            c.spec_row() == row,
            c.spec_column() == column,
            c.spec_value() == value,
    {
        Cell { row, column, value }
    }

    /// The cell's row number (1-indexed).
    pub fn row(&self) -> (r: usize)
        ensures
            r as int == self.spec_row(),
    {
        self.row
    }

    /// The cell's column number (1-indexed).
    pub fn column(&self) -> (r: usize)
        ensures
            r as int == self.spec_column(),
    {
        self.column
    }

    /// The cell's address in A1 notation, from its row and column.
    pub fn coordinate(&self) -> (r: String)
        ensures
            r@ == utils::coord_string(self.spec_row(), self.spec_column()),
    {
        utils::coordinate_to_string(self.row, self.column)
    }

    /// The cell's value.
    pub fn value(&self) -> (v: &CellValue)
        ensures
            *v == self.spec_value(),
    {
        &self.value
    }

    /// Replace the cell's value.
    pub fn set_value(&mut self, value: CellValue)
        ensures
            final(self).spec_row() == old(self).spec_row(),
            final(self).spec_column() == old(self).spec_column(),
            final(self).spec_value() == value,
    {
        self.value = value;
    }
}

} // verus!
