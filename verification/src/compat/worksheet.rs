//! A 1-indexed, bounds-checked view of one worksheet's cell data.
//!
//! The cell data itself lives in a `calamine` range: a rectangular,
//! 0-indexed store of raw cell values. This module declares that store
//! to the verifier as an opaque type whose size and normalized contents
//! are named by [`grid_size`] and [`grid_cells`], and builds the checked
//! accessors and the row iterator on top of those names.

use vstd::prelude::*;

use calamine::{Data, DataType, Range};

use crate::compat::cell::{Cell, CellValue};
use crate::compat::utils;
use crate::error::Error;

verus! {

#[verifier::external_type_specification]
#[verifier::external_body]
#[verifier::reject_recursive_types(T)]
pub struct ExRange<T>(Range<T>);

#[verifier::external_type_specification]
#[verifier::external_body]
pub struct ExData(Data);

/// The size `(rows, columns)` of the bounding box of a range's data;
/// `(0, 0)` for an empty range.
pub uninterp spec fn grid_size(r: Range<Data>) -> (nat, nat);

/// The contents of a range's bounding box, keyed by 0-indexed
/// `(row, column)`, after normalization: text, numbers (by bit pattern)
/// and booleans keep their value, while empty cells, error cells and
/// date/time cells are all the empty value.
pub uninterp spec fn grid_cells(r: Range<Data>) -> Map<(int, int), CellValue>;

/// Relies on calamine's `Range::get_size`: the `(height, width)` of the
/// range's bounding box.
#[verifier::external_body]
fn range_size(r: &Range<Data>) -> (sz: (usize, usize))
    ensures
        sz.0 as nat == grid_size(*r).0,
        sz.1 as nat == grid_size(*r).1,
{
    r.get_size()
}

/// Relies on calamine's `Range::get`: `Some` exactly for a 0-indexed
/// relative position inside the bounding box, `None` outside it. The raw
/// value is converted to the crate's [`CellValue`]: strings, floats (by
/// bit pattern, via `f64::to_bits`), integers (as floats, via
/// `DataType::as_f64`) and booleans keep their value; empty, error and
/// date/time cells become [`CellValue::Empty`].
#[verifier::external_body]
fn range_get(r: &Range<Data>, row0: usize, col0: usize) -> (v: Option<CellValue>)
    ensures
        v matches Some(c) ==> (row0 as nat) < grid_size(*r).0 && (col0 as nat) < grid_size(
            *r,
        ).1 && c == grid_cells(*r)[(row0 as int, col0 as int)],
        v is None ==> (row0 as nat) >= grid_size(*r).0 || (col0 as nat) >= grid_size(*r).1,
{
    match r.get((row0, col0)) {
        None => None,
        Some(d) => Some(match d {
            Data::String(s) => CellValue::String(s.clone()),
            Data::Float(f) => CellValue::Number(f.to_bits()),
            Data::Int(_) => match d.as_f64() {
                Some(f) => CellValue::Number(f.to_bits()),
                None => CellValue::Empty,
            },
            Data::Bool(b) => CellValue::Boolean(*b),
            Data::Empty | Data::Error(_) | Data::DateTime(_) | Data::DateTimeIso(_)
            | Data::DurationIso(_) => CellValue::Empty,
        }),
    }
}

/// One worksheet: a name and its cell data.
pub struct Worksheet {
    /// Worksheet name/title
    title: String,
    /// Cell data range
    range: Range<Data>,
}

/// The first column an iteration over columns `[min_col, max_col]`
/// actually yields: column 0 is not addressable, so an iteration that
/// starts there skips it.
pub open spec fn first_col(min_col: int) -> int {
    if min_col >= 1 {
        min_col
    } else {
        1
    }
}

/// How many cells a row yields when iterating columns
/// `[min_col, max_col]` of row `row`: one per addressable column, none
/// at all for the unaddressable row 0.
pub open spec fn cols_yielded(min_col: int, max_col: int, row: int) -> int {
    if row < 1 || max_col < first_col(min_col) {
        0
    } else {
        max_col - first_col(min_col) + 1
    }
}

impl Worksheet {
    /// The worksheet's title, as contracts see it.
    pub closed spec fn spec_title(&self) -> Seq<char> {
        self.title@
    }

    /// The worksheet's underlying cell store, as contracts see it.
    pub closed spec fn spec_range(&self) -> Range<Data> {
        self.range
    }

    /// The number of populated rows.
    pub open spec fn spec_rows(&self) -> nat {
        grid_size(self.spec_range()).0
    }

    /// The number of populated columns.
    pub open spec fn spec_cols(&self) -> nat {
        grid_size(self.spec_range()).1
    }

    /// The value at a 1-indexed position: the stored value inside the
    /// populated box, the empty value outside it.
    pub open spec fn spec_value_at(&self, row: int, col: int) -> CellValue {
        if 1 <= row <= self.spec_rows() && 1 <= col <= self.spec_cols() {
            grid_cells(self.spec_range())[(row - 1, col - 1)]
        } else {
            CellValue::Empty
        }
    }

    /// Wrap a named cell range as a worksheet.
    pub fn new(title: &str, range: Range<Data>) -> (ws: Worksheet)
        ensures
            ws.spec_title() == title@,
            ws.spec_range() == range,
    {
        Worksheet { title: title.to_owned(), range }
    }

    /// The worksheet's title.
    pub fn title(&self) -> (t: &str)
        ensures
            t@ == self.spec_title(),
    {
        self.title.as_str()
    }

    /// The number of populated rows (0 for an empty sheet).
    pub fn max_row(&self) -> (r: usize)
        ensures
            r as nat == self.spec_rows(),
    {
        let sz = range_size(&self.range);
        sz.0
    }

    /// The number of populated columns (0 for an empty sheet).
    pub fn max_column(&self) -> (r: usize)
        ensures
            r as nat == self.spec_cols(),
    {
        let sz = range_size(&self.range);
        sz.1
    }

    /// The populated size as a `(rows, columns)` pair.
    pub fn dimensions(&self) -> (r: (usize, usize))
        ensures
            r.0 as nat == self.spec_rows(),
            r.1 as nat == self.spec_cols(),
    {
        range_size(&self.range)
    }

    /// The cell at a 1-indexed `(row, column)` position.
    ///
    /// Fails with [`Error::InvalidCellReference`] when the row or the
    /// column is 0; the error carries the malformed reference text. A
    /// position beyond the populated box is not an error: it yields a
    /// cell with the empty value.
    pub fn cell(&self, row: usize, column: usize) -> (r: Result<Cell, Error>)
        ensures
            match r {
                Ok(c) => {
                    &&& row >= 1 && column >= 1
                    &&& c.spec_row() == row
                    &&& c.spec_column() == column
                    &&& c.spec_value() == self.spec_value_at(row as int, column as int)
                },
                Err(e) => {
                    &&& row == 0 || column == 0
                    &&& e matches Error::InvalidCellReference { reference } && reference@
                        == utils::coord_string(row as int, column as int)
                },
            },
    {
        if row == 0 || column == 0 {
            let text = utils::coordinate_to_string(row, column);
            return Err(Error::invalid_cell_reference(text.as_str()));
        }
        let value = match range_get(&self.range, row - 1, column - 1) {
            Some(v) => v,
            None => CellValue::Empty,
        };
        Ok(Cell::new(row, column, value))
    }

    /// The cell named by an A1-notation reference like `"B2"`.
    ///
    /// Propagates [`Error::InvalidCellReference`] from parsing unchanged;
    /// a well-formed reference beyond the populated box yields a cell
    /// with the empty value.
    pub fn get_cell(&self, coord: &str) -> (r: Result<Cell, Error>)
        ensures
            match r {
                Ok(c) => {
                    &&& utils::valid_coord(coord@)
                    &&& utils::coord_row(coord@) <= usize::MAX
                    &&& utils::coord_col(coord@) <= usize::MAX
                    &&& c.spec_row() == utils::coord_row(coord@)
                    &&& c.spec_column() == utils::coord_col(coord@)
                    &&& c.spec_value() == self.spec_value_at(
                        utils::coord_row(coord@),
                        utils::coord_col(coord@),
                    )
                },
                Err(e) => {
                    &&& (!utils::valid_coord(coord@) || utils::coord_row(coord@) > usize::MAX
                        || utils::coord_col(coord@) > usize::MAX)
                    &&& e matches Error::InvalidCellReference { reference } && reference@
                        == coord@
                },
            },
    {
        match utils::coordinate_from_string(coord) {
            Ok((row, col)) => self.cell(row, col),
            Err(e) => Err(e),
        }
    }

    /// A fresh iterator over the rows `[min_row, max_row]`, each row
    /// holding the cells of columns `[min_col, max_col]`.
    ///
    /// The bound `max_row < usize::MAX` leaves room for the cursor to
    /// pass the last row.
    pub fn iter_rows<'a>(
        &'a self,
        min_row: usize,
        max_row: usize,
        min_col: usize,
        max_col: usize,
    ) -> (it: RowIterator<'a>)
        requires
            max_row < usize::MAX,
        ensures
            it.spec_sheet() == *self,
            it.spec_current() == min_row,
            it.spec_max_row() == max_row,
            it.spec_min_col() == min_col,
            it.spec_max_col() == max_col,
    {
        RowIterator { worksheet: self, current_row: min_row, max_row, min_col, max_col }
    }
}

/// A cursor over a rectangular block of worksheet rows. Each step yields
/// one row's cells; cells whose coordinates fail validation (row 0 or
/// column 0) are skipped rather than aborting the iteration.
pub struct RowIterator<'a> {
    worksheet: &'a Worksheet,
    current_row: usize,
    max_row: usize,
    min_col: usize,
    max_col: usize,
}

impl<'a> RowIterator<'a> {
    /// The worksheet being iterated, as contracts see it.
    pub closed spec fn spec_sheet(&self) -> Worksheet {
        *self.worksheet
    }

    /// The row the cursor stands on.
    pub closed spec fn spec_current(&self) -> int {
        self.current_row as int
    }

    /// The last row to yield.
    pub closed spec fn spec_max_row(&self) -> int {
        self.max_row as int
    }

    /// The first column of each yielded row.
    pub closed spec fn spec_min_col(&self) -> int {
        self.min_col as int
    }

    /// The last column of each yielded row.
    pub closed spec fn spec_max_col(&self) -> int {
        self.max_col as int
    }

    /// The cells of one yielded row are exactly the checked lookups for
    /// the addressable columns of that row, in column order.
    pub open spec fn row_matches(&self, row: int, cells: Seq<Cell>) -> bool {
        let lo = first_col(self.spec_min_col());
        &&& cells.len() == cols_yielded(self.spec_min_col(), self.spec_max_col(), row)
        &&& forall|j: int|
            0 <= j < cells.len() ==> {
                &&& (#[trigger] cells[j]).spec_row() == row
                &&& cells[j].spec_column() == lo + j
                &&& cells[j].spec_value() == self.spec_sheet().spec_value_at(row, lo + j)
            }
    }

    /// Yield the next row, or `None` once the cursor has passed the last
    /// row. The cursor advances by one per yielded row and is otherwise
    /// untouched.
    pub fn next(&mut self) -> (r: Option<Vec<Cell>>)
        requires
            old(self).spec_max_row() < usize::MAX,
        ensures
            final(self).spec_sheet() == old(self).spec_sheet(),
            final(self).spec_max_row() == old(self).spec_max_row(),
            final(self).spec_min_col() == old(self).spec_min_col(),
            final(self).spec_max_col() == old(self).spec_max_col(),
            match r {
                None => {
                    &&& old(self).spec_current() > old(self).spec_max_row()
                    &&& final(self).spec_current() == old(self).spec_current()
                },
                Some(cells) => {
                    &&& old(self).spec_current() <= old(self).spec_max_row()
                    &&& final(self).spec_current() == old(self).spec_current() + 1
                    &&& old(self).row_matches(old(self).spec_current(), cells@)
                },
            },
    {
        if self.current_row > self.max_row {
            return None;
        }
        let row = self.current_row;
        let ghost lo = first_col(self.spec_min_col());
        let mut row_cells: Vec<Cell> = Vec::new();
        let mut col = self.min_col;
        while col <= self.max_col
            invariant_except_break
                self.min_col <= col,
                col <= self.max_col || col == self.min_col,
                row == self.current_row,
                lo == first_col(self.spec_min_col()),
                row_cells@.len() == cols_yielded(self.spec_min_col(), col as int - 1, row as int),
                forall|j: int|
                    0 <= j < row_cells@.len() ==> {
                        &&& (#[trigger] row_cells@[j]).spec_row() == row as int
                        &&& row_cells@[j].spec_column() == lo + j
                        &&& row_cells@[j].spec_value() == self.spec_sheet().spec_value_at(
                            row as int,
                            lo + j,
                        )
                    },
            ensures
                row == self.current_row,
                lo == first_col(self.spec_min_col()),
                row_cells@.len() == cols_yielded(
                    self.spec_min_col(),
                    self.spec_max_col(),
                    row as int,
                ),
                forall|j: int|
                    0 <= j < row_cells@.len() ==> {
                        &&& (#[trigger] row_cells@[j]).spec_row() == row as int
                        &&& row_cells@[j].spec_column() == lo + j
                        &&& row_cells@[j].spec_value() == self.spec_sheet().spec_value_at(
                            row as int,
                            lo + j,
                        )
                    },
            decreases self.max_col - col,
        {
            let ghost prev = row_cells@;
            let ghost c_int = col as int;
            match self.worksheet.cell(row, col) {
                Ok(c) => {
                    proof {
                        // this column is addressable, so it is yielded:
                        // the row vector so far holds columns [lo, col)
                        assert(c_int >= lo);
                        assert(prev.len() == c_int - lo);
                        assert(cols_yielded(self.spec_min_col(), c_int, row as int) == c_int - lo
                            + 1);
                    }
                    row_cells.push(c);
                    proof {
                        assert(row_cells@ =~= prev.push(c));
                        assert(row_cells@[prev.len() as int] == c);
                        assert(forall|j: int| 0 <= j < prev.len() ==> row_cells@[j] == prev[j]);
                    }
                },
                Err(_) => {
                    proof {
                        assert(row == 0 || col == 0);
                        assert(cols_yielded(self.spec_min_col(), c_int, row as int) == prev.len());
                    }
                },
            }
            proof {
                assert(row_cells@.len() == cols_yielded(
                    self.spec_min_col(),
                    col as int,
                    row as int,
                ));
            }
            if col == self.max_col {
                break;
            }
            col = col + 1;
        }
        self.current_row = row + 1;
        Some(row_cells)
    }

    /// Drain the iterator into a vector of rows: one entry per row in
    /// `[current, max_row]`, in row order.
    pub fn collect_rows(self) -> (rows: Vec<Vec<Cell>>)
        requires
            self.spec_max_row() < usize::MAX,
        ensures
            rows@.len() == if self.spec_current() > self.spec_max_row() {
                0int
            } else {
                self.spec_max_row() - self.spec_current() + 1
            },
            forall|i: int|
                0 <= i < rows@.len() ==> self.row_matches(
                    self.spec_current() + i,
                    (#[trigger] rows@[i])@,
                ),
    {
        let ghost start = self.spec_current();
        let ghost orig = self;
        let mut it = self;
        let mut rows: Vec<Vec<Cell>> = Vec::new();
        loop
            invariant
                it.spec_sheet() == orig.spec_sheet(),
                it.spec_max_row() == orig.spec_max_row(),
                it.spec_min_col() == orig.spec_min_col(),
                it.spec_max_col() == orig.spec_max_col(),
                it.spec_max_row() < usize::MAX,
                start <= it.spec_current(),
                it.spec_current() <= it.spec_max_row() + 1 || rows@.len() == 0,
                rows@.len() == it.spec_current() - start,
                forall|i: int|
                    0 <= i < rows@.len() ==> orig.row_matches(start + i, (#[trigger] rows@[i])@),
            ensures
                it.spec_max_row() == orig.spec_max_row(),
                it.spec_current() > it.spec_max_row(),
                rows@.len() == it.spec_current() - start,
                it.spec_current() <= it.spec_max_row() + 1 || rows@.len() == 0,
                forall|i: int|
                    0 <= i < rows@.len() ==> orig.row_matches(start + i, (#[trigger] rows@[i])@),
            decreases
                    if it.spec_current() > it.spec_max_row() {
                        0int
                    } else {
                        it.spec_max_row() + 1 - it.spec_current()
                    },
        {
            match it.next() {
                Some(cells) => rows.push(cells),
                None => break,
            }
        }
        rows
    }
}

} // verus!
