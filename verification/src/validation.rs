//! Data validation rules for worksheet cells: allowed-value lists,
//! numeric and date ranges, text lengths, custom formulas, and the
//! error and input messages shown around them.

pub mod types;

pub use types::{
    DataValidation, DateValidation, ListValidation, NumberValidation, TextValidation,
    ValidationError, ValidationErrorStyle, ValidationRule, ValidationWarning,
};
