//! Cell styling configuration: fonts, fills, borders, alignment and
//! number formats. These are plain configuration values; applying them
//! to a workbook is the business of whatever writes the file.

pub mod alignment;
pub mod border;
pub mod color;
pub mod fill;
pub mod font;
pub mod number_format;
pub mod style;

pub use alignment::{Alignment, HorizontalAlignment, VerticalAlignment};
pub use border::{Border, BorderStyle};
pub use color::parse_hex_color;
pub use fill::{Fill, FillPattern};
pub use font::Font;
pub use number_format::{NumberFormat, NumberFormatType};
pub use style::Style;
