//! The validation rule types.
//!
//! Numeric and date bounds are 64-bit float values carried as their
//! IEEE-754 bit patterns (`f64::to_bits`), so the crate's core stays
//! within plain integers; callers convert at the boundary with
//! `f64::from_bits`, which is lossless in both directions. Dates use
//! the spreadsheet serial-number convention.

use vstd::prelude::*;

verus! {

/// How a failed validation is presented.
#[derive(Debug, Clone, Copy, PartialEq, Eq, Structural)]
pub enum ValidationErrorStyle {
    /// Stop - prevents invalid data entry
    Stop,
    /// Warning - shows warning but allows entry
    Warning,
    /// Information - shows info message but allows entry
    Information,
}

impl Default for ValidationErrorStyle {
    /// The default presentation stops invalid entry.
    fn default() -> (r: Self)
        ensures
            r == ValidationErrorStyle::Stop,
    {
        ValidationErrorStyle::Stop
    }
}

/// A list validation: the allowed values, and whether the cell shows a
/// dropdown of them.
#[derive(Debug, Clone, PartialEq)]
pub struct ListValidation {
    /// List of allowed values
    values: Vec<String>,
    /// Show dropdown in cell
    show_dropdown: bool,
}

impl ListValidation {
    /// The allowed values, as contracts see them.
    pub closed spec fn spec_values(&self) -> Seq<String> {
        self.values@
    }

    /// Whether the dropdown is shown, as contracts see it.
    pub closed spec fn spec_show_dropdown(&self) -> bool {
        self.show_dropdown
    }

    /// A list validation over the given values, with the dropdown on.
    pub fn new(values: Vec<String>) -> (r: ListValidation)
        ensures
            r.spec_values() == values@,
            r.spec_show_dropdown(),
    {
        ListValidation { values, show_dropdown: true }
    }

    /// Switch the dropdown on or off.
    pub fn show_dropdown(self, show: bool) -> (r: ListValidation)
        ensures
            r.spec_values() == self.spec_values(),
            r.spec_show_dropdown() == show,
    {
        ListValidation { show_dropdown: show, ..self }
    }

    /// The allowed values.
    pub fn get_values(&self) -> (r: &Vec<String>)
        ensures
            r@ == self.spec_values(),
    {
        &self.values
    }

    /// Whether the dropdown is shown.
    pub fn is_dropdown_shown(&self) -> (r: bool)
        ensures
            r == self.spec_show_dropdown(),
    {
        self.show_dropdown
    }
}

/// A numeric range validation: optional inclusive bounds, as bit
/// patterns of 64-bit floats.
#[derive(Debug, Clone, PartialEq)]
pub struct NumberValidation {
    /// Minimum value (inclusive), as an IEEE-754 bit pattern
    min: Option<u64>,
    /// Maximum value (inclusive), as an IEEE-754 bit pattern
    max: Option<u64>,
}

impl NumberValidation {
    /// The lower bound, as contracts see it.
    pub closed spec fn spec_min(&self) -> Option<u64> {
        self.min
    }

    /// The upper bound, as contracts see it.
    pub closed spec fn spec_max(&self) -> Option<u64> {
        self.max
    }

    /// A validation with both bounds, given as float bit patterns.
    pub fn range(min_bits: u64, max_bits: u64) -> (r: NumberValidation)
        ensures
            r.spec_min() == Some(min_bits),
            r.spec_max() == Some(max_bits),
    {
        NumberValidation { min: Some(min_bits), max: Some(max_bits) }
    }

    /// A validation with a lower bound only.
    pub fn min(min_bits: u64) -> (r: NumberValidation)
        ensures
            r.spec_min() == Some(min_bits),
            r.spec_max() is None,
    {
        NumberValidation { min: Some(min_bits), max: None }
    }

    /// A validation with an upper bound only.
    pub fn max(max_bits: u64) -> (r: NumberValidation)
        ensures
            r.spec_min() is None,
            r.spec_max() == Some(max_bits),
    {
        NumberValidation { min: None, max: Some(max_bits) }
    }

    /// The lower bound's bit pattern, if one is set.
    pub fn get_min(&self) -> (r: Option<u64>)
        ensures
            r == self.spec_min(),
    {
        self.min
    }

    /// The upper bound's bit pattern, if one is set.
    pub fn get_max(&self) -> (r: Option<u64>)
        ensures
            r == self.spec_max(),
    {
        self.max
    }
}

/// A date range validation: optional inclusive bounds as spreadsheet
/// serial dates, carried as float bit patterns.
#[derive(Debug, Clone, PartialEq)]
pub struct DateValidation {
    /// Minimum date (serial number), as an IEEE-754 bit pattern
    min: Option<u64>,
    /// Maximum date (serial number), as an IEEE-754 bit pattern
    max: Option<u64>,
}

impl DateValidation {
    /// The lower bound, as contracts see it.
    pub closed spec fn spec_min(&self) -> Option<u64> {
        self.min
    }

    /// The upper bound, as contracts see it.
    pub closed spec fn spec_max(&self) -> Option<u64> {
        self.max
    }

    /// A validation with both bounds, given as float bit patterns.
    pub fn range(min_bits: u64, max_bits: u64) -> (r: DateValidation)
        ensures
            r.spec_min() == Some(min_bits),
            r.spec_max() == Some(max_bits),
    {
        DateValidation { min: Some(min_bits), max: Some(max_bits) }
    }

    /// A validation with a lower bound only.
    pub fn min(min_bits: u64) -> (r: DateValidation)
        ensures
            r.spec_min() == Some(min_bits),
            r.spec_max() is None,
    {
        DateValidation { min: Some(min_bits), max: None }
    }

    /// A validation with an upper bound only.
    pub fn max(max_bits: u64) -> (r: DateValidation)
        ensures
            r.spec_min() is None,
            r.spec_max() == Some(max_bits),
    {
        DateValidation { min: None, max: Some(max_bits) }
    }

    /// The lower bound's bit pattern, if one is set.
    pub fn get_min(&self) -> (r: Option<u64>)
        ensures
            r == self.spec_min(),
    {
        self.min
    }

    /// The upper bound's bit pattern, if one is set.
    pub fn get_max(&self) -> (r: Option<u64>)
        ensures
            r == self.spec_max(),
    {
        self.max
    }
}

/// A text length validation: optional inclusive length bounds.
#[derive(Debug, Clone, PartialEq, Eq)]
pub struct TextValidation {
    /// Minimum length
    min_length: Option<usize>,
    /// Maximum length
    max_length: Option<usize>,
}

impl TextValidation {
    /// The lower length bound, as contracts see it.
    pub closed spec fn spec_min_length(&self) -> Option<usize> {
        self.min_length
    }

    /// The upper length bound, as contracts see it.
    pub closed spec fn spec_max_length(&self) -> Option<usize> {
        self.max_length
    }

    /// A validation with both length bounds.
    pub fn range(min_length: usize, max_length: usize) -> (r: TextValidation)
        ensures
            r.spec_min_length() == Some(min_length),
            r.spec_max_length() == Some(max_length),
    {
        TextValidation { min_length: Some(min_length), max_length: Some(max_length) }
    }

    /// A validation with a minimum length only.
    pub fn min_length(min_length: usize) -> (r: TextValidation)
        ensures
            r.spec_min_length() == Some(min_length),
            r.spec_max_length() is None,
    {
        TextValidation { min_length: Some(min_length), max_length: None }
    }

    /// A validation with a maximum length only.
    pub fn max_length(max_length: usize) -> (r: TextValidation)
        ensures
            r.spec_min_length() is None,
            r.spec_max_length() == Some(max_length),
    {
        TextValidation { min_length: None, max_length: Some(max_length) }
    }

    /// The minimum length, if one is set.
    pub fn get_min_length(&self) -> (r: Option<usize>)
        ensures
            r == self.spec_min_length(),
    {
        self.min_length
    }

    /// The maximum length, if one is set.
    pub fn get_max_length(&self) -> (r: Option<usize>)
        ensures
            r == self.spec_max_length(),
    {
        self.max_length
    }
}

/// The rule a data validation enforces.
#[derive(Debug, Clone, PartialEq)]
pub enum ValidationRule {
    /// List validation (dropdown)
    List(ListValidation),
    /// Number range validation
    Number(NumberValidation),
    /// Date range validation
    Date(DateValidation),
    /// Text length validation
    Text(TextValidation),
    /// Custom formula validation
    Custom(String),
}

/// What is shown when entered data fails validation.
#[derive(Debug, Clone, PartialEq)]
pub struct ValidationError {
    /// Error style
    style: ValidationErrorStyle,
    /// Error title
    title: Option<String>,
    /// Error message
    message: Option<String>,
}

impl ValidationError {
    /// The style, as contracts see it.
    pub closed spec fn spec_style(&self) -> ValidationErrorStyle {
        self.style
    }

    /// The title, as contracts see it.
    pub closed spec fn spec_title(&self) -> Option<Seq<char>> {
        match self.title {
            Some(s) => Some(s@),
            None => None,
        }
    }

    /// The message, as contracts see it.
    pub closed spec fn spec_message(&self) -> Option<Seq<char>> {
        match self.message {
            Some(s) => Some(s@),
            None => None,
        }
    }

    /// An error of the given style, with no texts yet.
    pub fn new(style: ValidationErrorStyle) -> (r: ValidationError)
        ensures
            r.spec_style() == style,
            r.spec_title() is None,
            r.spec_message() is None,
    {
        ValidationError { style, title: None, message: None }
    }

    /// Set the error title.
    pub fn title(self, title: &str) -> (r: ValidationError)
        ensures
            r.spec_style() == self.spec_style(),
            r.spec_title() == Some(title@),
            r.spec_message() == self.spec_message(),
    {
        ValidationError { title: Some(title.to_owned()), ..self }
    }

    /// Set the error message.
    pub fn message(self, message: &str) -> (r: ValidationError)
        ensures
            r.spec_style() == self.spec_style(),
            r.spec_title() == self.spec_title(),
            r.spec_message() == Some(message@),
    {
        ValidationError { message: Some(message.to_owned()), ..self }
    }

    /// The error style.
    pub fn get_style(&self) -> (r: ValidationErrorStyle)
        ensures
            r == self.spec_style(),
    {
        self.style
    }

    /// The title, if one was set.
    pub fn get_title(&self) -> (r: Option<&str>)
        ensures
            match r {
                Some(s) => self.spec_title() == Some(s@),
                None => self.spec_title() is None,
            },
    {
        match &self.title {
            Some(s) => Some(s.as_str()),
            None => None,
        }
    }

    /// The message, if one was set.
    pub fn get_message(&self) -> (r: Option<&str>)
        ensures
            match r {
                Some(s) => self.spec_message() == Some(s@),
                None => self.spec_message() is None,
            },
    {
        match &self.message {
            Some(s) => Some(s.as_str()),
            None => None,
        }
    }
}

impl Default for ValidationError {
    /// The default error stops invalid entry and carries no texts.
    fn default() -> (r: Self)
        ensures
            r.spec_style() == ValidationErrorStyle::Stop,
            r.spec_title() is None,
            r.spec_message() is None,
    {
        ValidationError::new(ValidationErrorStyle::Stop)
    }
}

/// The input help shown before data is entered.
#[derive(Debug, Clone, PartialEq)]
pub struct ValidationWarning {
    /// Warning title
    title: Option<String>,
    /// Warning message
    message: Option<String>,
}

impl ValidationWarning {
    /// The title, as contracts see it.
    pub closed spec fn spec_title(&self) -> Option<Seq<char>> {
        match self.title {
            Some(s) => Some(s@),
            None => None,
        }
    }

    /// The message, as contracts see it.
    pub closed spec fn spec_message(&self) -> Option<Seq<char>> {
        match self.message {
            Some(s) => Some(s@),
            None => None,
        }
    }

    /// A warning with no texts yet.
    pub fn new() -> (r: ValidationWarning)
        ensures
            r.spec_title() is None,
            r.spec_message() is None,
    {
        ValidationWarning { title: None, message: None }
    }

    /// Set the warning title.
    pub fn title(self, title: &str) -> (r: ValidationWarning)
        ensures
            r.spec_title() == Some(title@),
            r.spec_message() == self.spec_message(),
    {
        ValidationWarning { title: Some(title.to_owned()), ..self }
    }

    /// Set the warning message.
    pub fn message(self, message: &str) -> (r: ValidationWarning)
        ensures
            r.spec_title() == self.spec_title(),
            r.spec_message() == Some(message@),
    {
        ValidationWarning { message: Some(message.to_owned()), ..self }
    }

    /// The title, if one was set.
    pub fn get_title(&self) -> (r: Option<&str>)
        ensures
            match r {
                Some(s) => self.spec_title() == Some(s@),
                None => self.spec_title() is None,
            },
    {
        match &self.title {
            Some(s) => Some(s.as_str()),
            None => None,
        }
    }

    /// The message, if one was set.
    pub fn get_message(&self) -> (r: Option<&str>)
        ensures
            match r {
                Some(s) => self.spec_message() == Some(s@),
                None => self.spec_message() is None,
            },
    {
        match &self.message {
            Some(s) => Some(s.as_str()),
            None => None,
        }
    }
}

impl Default for ValidationWarning {
    /// The default warning carries no texts.
    fn default() -> (r: Self)
        ensures
            r.spec_title() is None,
            r.spec_message() is None,
    {
        ValidationWarning::new()
    }
}

/// A complete data validation: the rule, how failures are shown,
/// optional input help, and whether blank cells pass.
#[derive(Debug, Clone, PartialEq)]
pub struct DataValidation {
    /// Validation rule
    rule: ValidationRule,
    /// Error configuration
    error: ValidationError,
    /// Input warning configuration
    warning: Option<ValidationWarning>,
    /// Ignore blank cells
    ignore_blank: bool,
}

impl DataValidation {
    /// The rule, as contracts see it.
    pub closed spec fn spec_rule(&self) -> ValidationRule {
        self.rule
    }

    /// The error configuration, as contracts see it.
    pub closed spec fn spec_error(&self) -> ValidationError {
        self.error
    }

    /// The warning configuration, as contracts see it.
    pub closed spec fn spec_warning(&self) -> Option<ValidationWarning> {
        self.warning
    }

    /// Whether blank cells pass, as contracts see it.
    pub closed spec fn spec_ignore_blank(&self) -> bool {
        self.ignore_blank
    }

    /// A validation of the given rule: default (stop) error handling,
    /// no input help, blanks pass.
    pub fn new(rule: ValidationRule) -> (r: DataValidation)
        ensures
            r.spec_rule() == rule,
            r.spec_error().spec_style() == ValidationErrorStyle::Stop,
            r.spec_error().spec_title() is None,
            r.spec_error().spec_message() is None,
            r.spec_warning() is None,
            r.spec_ignore_blank(),
    {
        DataValidation {
            rule,
            error: ValidationError::default(),
            warning: None,
            ignore_blank: true,
        }
    }

    /// Set the error configuration.
    pub fn error(self, error: ValidationError) -> (r: DataValidation)
        ensures
            r.spec_rule() == self.spec_rule(),
            r.spec_error() == error,
            r.spec_warning() == self.spec_warning(),
            r.spec_ignore_blank() == self.spec_ignore_blank(),
    {
        DataValidation { error, ..self }
    }

    /// Set the input help.
    pub fn warning(self, warning: ValidationWarning) -> (r: DataValidation)
        ensures
            r.spec_rule() == self.spec_rule(),
            r.spec_error() == self.spec_error(),
            r.spec_warning() == Some(warning),
            r.spec_ignore_blank() == self.spec_ignore_blank(),
    {
        DataValidation { warning: Some(warning), ..self }
    }

    /// Set whether blank cells pass.
    pub fn ignore_blank(self, ignore: bool) -> (r: DataValidation)
        ensures
            r.spec_rule() == self.spec_rule(),
            r.spec_error() == self.spec_error(),
            r.spec_warning() == self.spec_warning(),
            r.spec_ignore_blank() == ignore,
    {
        DataValidation { ignore_blank: ignore, ..self }
    }

    /// The validation rule.
    pub fn get_rule(&self) -> (r: &ValidationRule)
        ensures
            *r == self.spec_rule(),
    {
        &self.rule
    }

    /// The error configuration.
    pub fn get_error(&self) -> (r: &ValidationError)
        ensures
            *r == self.spec_error(),
    {
        &self.error
    }

    /// The input help, if any was set.
    pub fn get_warning(&self) -> (r: Option<&ValidationWarning>)
        ensures
            match r {
                Some(w) => self.spec_warning() == Some(*w),
                None => self.spec_warning() is None,
            },
    {
        self.warning.as_ref()
    }

    /// Whether blank cells pass.
    pub fn is_blank_ignored(&self) -> (r: bool)
        ensures
            r == self.spec_ignore_blank(),
    {
        self.ignore_blank
    }
}

} // verus!
