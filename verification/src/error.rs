//! Error type shared by the crate.
//!
//! Every fallible operation of the crate reports one of these variants;
//! each carries the text needed to explain what was rejected.

use vstd::prelude::*;

verus! {

/// Error cases for spreadsheet operations.
#[derive(Debug, Clone, PartialEq)]
pub enum Error {
    /// The file's contents are not a valid workbook.
    InvalidFormat {
        /// Explanation of why the format is invalid
        reason: String,
    },
    /// A sheet of the given name does not exist.
    SheetNotFound {
        /// Name of the sheet that wasn't found
        name: String,
    },
    /// A cell reference is malformed or out of range.
    InvalidCellReference {
        /// The offending cell reference text
        reference: String,
    },
    /// A cell range is malformed.
    InvalidRange {
        /// The offending range text
        range: String,
    },
    /// Any other error, described in plain text.
    Other(String),
}

impl Error {
    /// Build an `InvalidFormat` error.
    pub fn invalid_format(reason: &str) -> (e: Error)
        ensures
            e matches Error::InvalidFormat { reason: r } && r@ == reason@,
    {
        Error::InvalidFormat { reason: reason.to_owned() }
    }

    /// Build a `SheetNotFound` error.
    pub fn sheet_not_found(name: &str) -> (e: Error)
        ensures
            e matches Error::SheetNotFound { name: n } && n@ == name@,
    {
        Error::SheetNotFound { name: name.to_owned() }
    }

    /// Build an `InvalidCellReference` error.
    pub fn invalid_cell_reference(reference: &str) -> (e: Error)
        ensures
            e matches Error::InvalidCellReference { reference: r } && r@ == reference@,
    {
        Error::InvalidCellReference { reference: reference.to_owned() }
    }

    /// Build an `InvalidRange` error.
    pub fn invalid_range(range: &str) -> (e: Error)
        ensures
            e matches Error::InvalidRange { range: r } && r@ == range@,
    {
        Error::InvalidRange { range: range.to_owned() }
    }

    /// The error rendered as one line of text: a fixed phrase for the
    /// variant, then the text it carries.
    pub fn message(&self) -> (m: String)
        ensures
            match self {
                Error::InvalidFormat { reason } => m@ == "Invalid Excel format: "@ + reason@,
                Error::SheetNotFound { name } => m@ == "Sheet not found: "@ + name@,
                Error::InvalidCellReference { reference } => m@ == "Invalid cell reference: "@
                    + reference@,
                Error::InvalidRange { range } => m@ == "Invalid range: "@ + range@,
                Error::Other(text) => m@ == "Error: "@ + text@,
            },
    {
        match self {
            Error::InvalidFormat { reason } => String::from_str("Invalid Excel format: ").concat(
                reason.as_str(),
            ),
            Error::SheetNotFound { name } => String::from_str("Sheet not found: ").concat(
                name.as_str(),
            ),
            Error::InvalidCellReference { reference } => String::from_str(
                "Invalid cell reference: ",
            ).concat(reference.as_str()),
            Error::InvalidRange { range } => String::from_str("Invalid range: ").concat(
                range.as_str(),
            ),
            Error::Other(text) => String::from_str("Error: ").concat(text.as_str()),
        }
    }
}

} // verus!
