//! Number formats: how a cell's value is displayed. Each format kind
//! renders to the format string the file format expects; the exact
//! text is pinned down by [`format_string_of`].

use vstd::prelude::*;

use crate::compat::utils::push_char;

verus! {

/// The kinds of number format.
#[derive(Debug, Clone, PartialEq)]
pub enum NumberFormatType {
    /// General format (default)
    General,
    /// Number format with decimals
    Number,
    /// Currency format
    Currency,
    /// Accounting format
    Accounting,
    /// Date format
    Date,
    /// Time format
    Time,
    /// Percentage format
    Percentage,
    /// Fraction format
    Fraction,
    /// Scientific notation
    Scientific,
    /// Text format
    Text,
    /// Custom format string
    Custom(String),
}

/// `n` zero characters (none for a negative count).
pub open spec fn zeros(n: int) -> Seq<char> {
    Seq::new(if n >= 0 { n as nat } else { 0nat }, |i: int| '0')
}

/// The decimal count to use: the stored one, or 2 when none is stored.
pub open spec fn decimals_or_default(d: Option<u8>) -> int {
    match d {
        Some(k) => k as int,
        None => 2,
    }
}

/// The format string each kind renders to, given the stored decimal
/// count. Formats without decimals have one fixed text; the others
/// place `decimals` zeros after the decimal point, or drop the point
/// entirely for zero decimals.
pub open spec fn format_string_of(t: NumberFormatType, d: Option<u8>) -> Seq<char> {
    let k = decimals_or_default(d);
    match t {
        NumberFormatType::General => "General"@,
        NumberFormatType::Number => if k == 0 {
            "0"@
        } else {
            "0."@ + zeros(k)
        },
        NumberFormatType::Currency => if k == 0 {
            "$#,##0"@
        } else {
            "$#,##0."@ + zeros(k)
        },
        NumberFormatType::Accounting => if k == 0 {
            "_($* #,##0_);_($* (#,##0);_($* \"-\"_);_(@_)"@
        } else {
            "_($* #,##0."@ + zeros(k) + "_);_($* (#,##0."@ + zeros(k)
                + ");_($* \"-\"??_);_(@_)"@
        },
        NumberFormatType::Date => "yyyy-mm-dd"@,
        NumberFormatType::Time => "hh:mm:ss"@,
        NumberFormatType::Percentage => if k == 0 {
            "0%"@
        } else {
            "0."@ + zeros(k) + "%"@
        },
        NumberFormatType::Fraction => "# ?/?"@,
        NumberFormatType::Scientific => if k == 0 {
            "0E+00"@
        } else {
            "0."@ + zeros(k) + "E+00"@
        },
        NumberFormatType::Text => "@"@,
        NumberFormatType::Custom(s) => s@,
    }
}

/// Append `k` zero characters to `s`.
fn push_zeros(s: &mut String, k: u8)
    ensures
        final(s)@ == old(s)@ + zeros(k as int),
{
    let mut i: u8 = 0;
    while i < k
        invariant
            i <= k,
            s@ == old(s)@ + zeros(i as int),
        decreases k - i,
    {
        proof {
            assert(zeros(i as int + 1) =~= zeros(i as int).push('0'));
            assert(old(s)@ + zeros(i as int + 1) =~= (old(s)@ + zeros(i as int)).push('0'));
        }
        push_char(s, '0');
        i = i + 1;
    }
    proof {
        assert(s@ =~= old(s)@ + zeros(k as int));
    }
}

/// A number format: a kind, and a decimal count for the kinds that
/// take one. The count is capped at 30, the most the file format
/// allows.
#[derive(Debug, Clone, PartialEq)]
pub struct NumberFormat {
    /// Format type
    format_type: NumberFormatType,
    /// Number of decimal places (for numeric formats)
    decimals: Option<u8>,
}

impl NumberFormat {
    /// The kind, as contracts see it.
    pub closed spec fn spec_format_type(&self) -> NumberFormatType {
        self.format_type
    }

    /// The decimal count, as contracts see it.
    pub closed spec fn spec_decimals(&self) -> Option<u8> {
        self.decimals
    }

    /// The general format.
    pub fn new() -> (r: NumberFormat)
        ensures
            r.spec_format_type() == NumberFormatType::General,
            r.spec_decimals() is None,
    {
        NumberFormat { format_type: NumberFormatType::General, decimals: None }
    }

    /// The general format.
    pub fn general() -> (r: NumberFormat)
        ensures
            r.spec_format_type() == NumberFormatType::General,
            r.spec_decimals() is None,
    {
        NumberFormat::new()
    }

    /// A plain number format with the given decimal count (capped at
    /// 30).
    pub fn number(decimals: u8) -> (r: NumberFormat)
        ensures
            r.spec_format_type() == NumberFormatType::Number,
            r.spec_decimals() == Some(if decimals <= 30 { decimals } else { 30u8 }),
    {
        NumberFormat {
            format_type: NumberFormatType::Number,
            decimals: Some(if decimals <= 30 { decimals } else { 30 }),
        }
    }

    /// A currency format with the given decimal count (capped at 30).
    pub fn currency(decimals: u8) -> (r: NumberFormat)
        ensures
            r.spec_format_type() == NumberFormatType::Currency,
            r.spec_decimals() == Some(if decimals <= 30 { decimals } else { 30u8 }),
    {
        NumberFormat {
            format_type: NumberFormatType::Currency,
            decimals: Some(if decimals <= 30 { decimals } else { 30 }),
        }
    }

    /// An accounting format with the given decimal count (capped at
    /// 30).
    pub fn accounting(decimals: u8) -> (r: NumberFormat)
        ensures
            r.spec_format_type() == NumberFormatType::Accounting,
            r.spec_decimals() == Some(if decimals <= 30 { decimals } else { 30u8 }),
    {
        NumberFormat {
            format_type: NumberFormatType::Accounting,
            decimals: Some(if decimals <= 30 { decimals } else { 30 }),
        }
    }

    /// The date format `yyyy-mm-dd`.
    pub fn date() -> (r: NumberFormat)
        ensures
            r.spec_format_type() == NumberFormatType::Date,
            r.spec_decimals() is None,
    {
        NumberFormat { format_type: NumberFormatType::Date, decimals: None }
    }

    /// The time format `hh:mm:ss`.
    pub fn time() -> (r: NumberFormat)
        ensures
            r.spec_format_type() == NumberFormatType::Time,
            r.spec_decimals() is None,
    {
        NumberFormat { format_type: NumberFormatType::Time, decimals: None }
    }

    /// A percentage format with the given decimal count (capped at 30).
    pub fn percentage(decimals: u8) -> (r: NumberFormat)
        ensures
            r.spec_format_type() == NumberFormatType::Percentage,
            r.spec_decimals() == Some(if decimals <= 30 { decimals } else { 30u8 }),
    {
        NumberFormat {
            format_type: NumberFormatType::Percentage,
            decimals: Some(if decimals <= 30 { decimals } else { 30 }),
        }
    }

    /// The fraction format.
    pub fn fraction() -> (r: NumberFormat)
        ensures
            r.spec_format_type() == NumberFormatType::Fraction,
            r.spec_decimals() is None,
    {
        NumberFormat { format_type: NumberFormatType::Fraction, decimals: None }
    }

    /// A scientific-notation format with the given decimal count
    /// (capped at 30).
    pub fn scientific(decimals: u8) -> (r: NumberFormat)
        ensures
            r.spec_format_type() == NumberFormatType::Scientific,
            r.spec_decimals() == Some(if decimals <= 30 { decimals } else { 30u8 }),
    {
        NumberFormat {
            format_type: NumberFormatType::Scientific,
            decimals: Some(if decimals <= 30 { decimals } else { 30 }),
        }
    }

    /// The text format: values are kept as entered.
    pub fn text() -> (r: NumberFormat)
        ensures
            r.spec_format_type() == NumberFormatType::Text,
            r.spec_decimals() is None,
    {
        NumberFormat { format_type: NumberFormatType::Text, decimals: None }
    }

    /// A custom format with the given format string.
    pub fn custom(format: &str) -> (r: NumberFormat)
        ensures
            r.spec_format_type() matches NumberFormatType::Custom(s) && s@ == format@,
            r.spec_decimals() is None,
    {
        NumberFormat { format_type: NumberFormatType::Custom(format.to_owned()), decimals: None }
    }

    /// The format string this format renders to.
    pub fn get_format_string(&self) -> (r: String)
        ensures
            r@ == format_string_of(self.spec_format_type(), self.spec_decimals()),
    {
        let k: u8 = match &self.decimals {
            Some(d) => *d,
            None => 2,
        };
        match &self.format_type {
            NumberFormatType::General => String::from_str("General"),
            NumberFormatType::Number => {
                if k == 0 {
                    String::from_str("0")
                } else {
                    let mut s = String::from_str("0.");
                    push_zeros(&mut s, k);
                    s
                }
            },
            NumberFormatType::Currency => {
                if k == 0 {
                    String::from_str("$#,##0")
                } else {
                    let mut s = String::from_str("$#,##0.");
                    push_zeros(&mut s, k);
                    s
                }
            },
            NumberFormatType::Accounting => {
                if k == 0 {
                    String::from_str("_($* #,##0_);_($* (#,##0);_($* \"-\"_);_(@_)")
                } else {
                    let mut s = String::from_str("_($* #,##0.");
                    push_zeros(&mut s, k);
                    s.append("_);_($* (#,##0.");
                    push_zeros(&mut s, k);
                    s.append(");_($* \"-\"??_);_(@_)");
                    s
                }
            },
            NumberFormatType::Date => String::from_str("yyyy-mm-dd"),
            NumberFormatType::Time => String::from_str("hh:mm:ss"),
            NumberFormatType::Percentage => {
                if k == 0 {
                    String::from_str("0%")
                } else {
                    let mut s = String::from_str("0.");
                    push_zeros(&mut s, k);
                    s.append("%");
                    s
                }
            },
            NumberFormatType::Fraction => String::from_str("# ?/?"),
            NumberFormatType::Scientific => {
                if k == 0 {
                    String::from_str("0E+00")
                } else {
                    let mut s = String::from_str("0.");
                    push_zeros(&mut s, k);
                    s.append("E+00");
                    s
                }
            },
            NumberFormatType::Text => String::from_str("@"),
            NumberFormatType::Custom(fmt) => fmt.clone(),
        }
    }

    /// The format kind.
    pub fn get_format_type(&self) -> (r: &NumberFormatType)
        ensures
            *r == self.spec_format_type(),
    {
        &self.format_type
    }

    /// The decimal count, if one is stored.
    pub fn get_decimals(&self) -> (r: Option<u8>)
        ensures
            r == self.spec_decimals(),
    {
        self.decimals
    }
}

impl Default for NumberFormat {
    /// The default format is the general one [`NumberFormat::new`]
    /// builds.
    fn default() -> (r: Self)
        ensures
            r.spec_format_type() == NumberFormatType::General,
            r.spec_decimals() is None,
    {
        NumberFormat::new()
    }
}

} // verus!
