//! Cell fonts: family name, size, weight, style and color.
//!
//! The size is a point value carried as the IEEE-754 bit pattern of a
//! 64-bit float (`f64::to_bits`), so the crate's core stays within
//! plain integers; callers convert at the boundary with
//! `f64::from_bits`, which is lossless in both directions.

use vstd::prelude::*;

use super::color::{color_from_hex, parse_hex_color};

verus! {

/// Font settings for one cell: everything optional, plain by default.
#[derive(Debug, Clone, PartialEq)]
pub struct Font {
    /// Font name (e.g. "Arial", "Calibri")
    name: Option<String>,
    /// Font size in points, as an IEEE-754 bit pattern
    size: Option<u64>,
    /// Bold text
    bold: bool,
    /// Italic text
    italic: bool,
    /// Text color as 24-bit RGB
    color: Option<u32>,
}

impl Font {
    /// The font name, as contracts see it.
    pub closed spec fn spec_name(&self) -> Option<Seq<char>> {
        match self.name {
            Some(s) => Some(s@),
            None => None,
        }
    }

    /// The size bit pattern, as contracts see it.
    pub closed spec fn spec_size(&self) -> Option<u64> {
        self.size
    }

    /// Whether the font is bold, as contracts see it.
    pub closed spec fn spec_bold(&self) -> bool {
        self.bold
    }

    /// Whether the font is italic, as contracts see it.
    pub closed spec fn spec_italic(&self) -> bool {
        self.italic
    }

    /// The color, as contracts see it.
    pub closed spec fn spec_color(&self) -> Option<u32> {
        self.color
    }

    /// A plain font: no name, no size, no color, regular weight.
    pub fn new() -> (r: Font)
        ensures
            r.spec_name() is None,
            r.spec_size() is None,
            !r.spec_bold(),
            !r.spec_italic(),
            r.spec_color() is None,
    {
        Font { name: None, size: None, bold: false, italic: false, color: None }
    }

    /// Set the font name.
    pub fn name(self, name: &str) -> (r: Font)
        ensures
            r.spec_name() == Some(name@),
            r.spec_size() == self.spec_size(),
            r.spec_bold() == self.spec_bold(),
            r.spec_italic() == self.spec_italic(),
            r.spec_color() == self.spec_color(),
    {
        Font { name: Some(name.to_owned()), ..self }
    }

    /// Set the font size in points, given as the bit pattern of the
    /// 64-bit float size (`f64::to_bits`).
    pub fn size(self, size_bits: u64) -> (r: Font)
        ensures
            r.spec_name() == self.spec_name(),
            r.spec_size() == Some(size_bits),
            r.spec_bold() == self.spec_bold(),
            r.spec_italic() == self.spec_italic(),
            r.spec_color() == self.spec_color(),
    {
        Font { size: Some(size_bits), ..self }
    }

    /// Switch bold on or off.
    pub fn bold(self, bold: bool) -> (r: Font)
        ensures
            r.spec_name() == self.spec_name(),
            r.spec_size() == self.spec_size(),
            r.spec_bold() == bold,
            r.spec_italic() == self.spec_italic(),
            r.spec_color() == self.spec_color(),
    {
        Font { bold, ..self }
    }

    /// Switch italic on or off.
    pub fn italic(self, italic: bool) -> (r: Font)
        ensures
            r.spec_name() == self.spec_name(),
            r.spec_size() == self.spec_size(),
            r.spec_bold() == self.spec_bold(),
            r.spec_italic() == italic,
            r.spec_color() == self.spec_color(),
    {
        Font { italic, ..self }
    }

    /// Set the text color from a hex string like `"#FF0000"`. A string
    /// that names no color leaves the font unchanged.
    pub fn color(self, color: &str) -> (r: Font)
        ensures
            match color_from_hex(color@) {
                Some(v) => {
                    &&& r.spec_name() == self.spec_name()
                    &&& r.spec_size() == self.spec_size()
                    &&& r.spec_bold() == self.spec_bold()
                    &&& r.spec_italic() == self.spec_italic()
                    &&& r.spec_color() == Some(v as u32)
                },
                None => r == self,
            },
    {
        match parse_hex_color(color) {
            Some(v) => Font { color: Some(v), ..self },
            None => self,
        }
    }

    /// Set the text color from RGB components.
    pub fn rgb(self, red: u8, green: u8, blue: u8) -> (r: Font)
        ensures
            r.spec_name() == self.spec_name(),
            r.spec_size() == self.spec_size(),
            r.spec_bold() == self.spec_bold(),
            r.spec_italic() == self.spec_italic(),
            r.spec_color() == Some(
                ((red as u32) * 0x10000 + (green as u32) * 0x100 + (blue as u32)) as u32,
            ),
    {
        let value = (red as u32) * 0x10000 + (green as u32) * 0x100 + (blue as u32);
        Font { color: Some(value), ..self }
    }

    /// The font name, if one was set.
    pub fn get_name(&self) -> (r: Option<&str>)
        ensures
            match r {
                Some(s) => self.spec_name() == Some(s@),
                None => self.spec_name() is None,
            },
    {
        match &self.name {
            Some(s) => Some(s.as_str()),
            None => None,
        }
    }

    /// The font size's bit pattern, if a size was set.
    pub fn get_size(&self) -> (r: Option<u64>)
        ensures
            r == self.spec_size(),
    {
        self.size
    }

    /// Whether the font is bold.
    pub fn is_bold(&self) -> (r: bool)
        ensures
            r == self.spec_bold(),
    {
        self.bold
    }

    /// Whether the font is italic.
    pub fn is_italic(&self) -> (r: bool)
        ensures
            r == self.spec_italic(),
    {
        self.italic
    }

    /// The text color, if one was set.
    pub fn get_color(&self) -> (r: Option<u32>)
        ensures
            r == self.spec_color(),
    {
        self.color
    }
}

impl Default for Font {
    /// The default font is the plain one [`Font::new`] builds.
    fn default() -> (r: Self)
        ensures
            r.spec_name() is None,
            r.spec_size() is None,
            !r.spec_bold(),
            !r.spec_italic(),
            r.spec_color() is None,
    {
        Font::new()
    }
}

} // verus!
