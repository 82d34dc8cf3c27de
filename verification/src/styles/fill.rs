//! Cell background fills: a pattern and optional foreground and
//! background colors.

use vstd::prelude::*;

use super::color::{color_from_hex, parse_hex_color};

verus! {

/// The fill patterns a cell background can have.
#[derive(Debug, Clone, Copy, PartialEq, Eq, Structural)]
pub enum FillPattern {
    /// Solid fill (most common)
    Solid,
    /// Dark gray pattern
    DarkGray,
    /// Medium gray pattern
    MediumGray,
    /// Light gray pattern
    LightGray,
    /// Gray 125 pattern
    Gray125,
    /// Gray 0625 pattern
    Gray0625,
}

/// Fill settings for one cell: a pattern and optional colors, both as
/// 24-bit RGB.
#[derive(Debug, Clone, PartialEq)]
pub struct Fill {
    /// Fill pattern type
    pattern: FillPattern,
    /// Foreground color
    foreground_color: Option<u32>,
    /// Background color (for patterns)
    background_color: Option<u32>,
}

impl Fill {
    /// The pattern, as contracts see it.
    pub closed spec fn spec_pattern(&self) -> FillPattern {
        self.pattern
    }

    /// The foreground color, as contracts see it.
    pub closed spec fn spec_foreground_color(&self) -> Option<u32> {
        self.foreground_color
    }

    /// The background color, as contracts see it.
    pub closed spec fn spec_background_color(&self) -> Option<u32> {
        self.background_color
    }

    /// A fill with the solid pattern and no colors.
    pub fn new() -> (r: Fill)
        ensures
            r.spec_pattern() == FillPattern::Solid,
            r.spec_foreground_color() is None,
            r.spec_background_color() is None,
    {
        Fill { pattern: FillPattern::Solid, foreground_color: None, background_color: None }
    }

    /// A solid fill in the given hex color. A string that names no
    /// color leaves the fill colorless.
    pub fn solid(color: &str) -> (r: Fill)
        ensures
            r.spec_pattern() == FillPattern::Solid,
            match color_from_hex(color@) {
                Some(v) => r.spec_foreground_color() == Some(v as u32),
                None => r.spec_foreground_color() is None,
            },
            r.spec_background_color() is None,
    {
        let mut fill = Fill::new();
        fill.set_color(color);
        fill
    }

    /// A fill with the given pattern and no colors.
    pub fn pattern(pattern: FillPattern) -> (r: Fill)
        ensures
            r.spec_pattern() == pattern,
            r.spec_foreground_color() is None,
            r.spec_background_color() is None,
    {
        Fill { pattern, foreground_color: None, background_color: None }
    }

    /// Set the fill pattern.
    pub fn set_pattern(self, pattern: FillPattern) -> (r: Fill)
        ensures
            r.spec_pattern() == pattern,
            r.spec_foreground_color() == self.spec_foreground_color(),
            r.spec_background_color() == self.spec_background_color(),
    {
        Fill { pattern, ..self }
    }

    /// Set the foreground color from a hex string like `"#FF0000"`. A
    /// string that names no color changes nothing.
    pub fn set_color(&mut self, color: &str)
        ensures
            match color_from_hex(color@) {
                Some(v) => {
                    &&& final(self).spec_pattern() == old(self).spec_pattern()
                    &&& final(self).spec_foreground_color() == Some(v as u32)
                    &&& final(self).spec_background_color() == old(self).spec_background_color()
                },
                None => *final(self) == *old(self),
            },
    {
        match parse_hex_color(color) {
            Some(v) => self.foreground_color = Some(v),
            None => {},
        }
    }

    /// Set the foreground color from RGB components.
    pub fn rgb(self, red: u8, green: u8, blue: u8) -> (r: Fill)
        ensures
            r.spec_pattern() == self.spec_pattern(),
            r.spec_foreground_color() == Some(
                (((red as u32) * 0x10000 + (green as u32) * 0x100 + (blue as u32)) as u32),
            ),
            r.spec_background_color() == self.spec_background_color(),
    {
        let value = (red as u32) * 0x10000 + (green as u32) * 0x100 + (blue as u32);
        Fill { foreground_color: Some(value), ..self }
    }

    /// Set the background color (used behind patterns) from a hex
    /// string. A string that names no color changes nothing.
    pub fn background_color(self, color: &str) -> (r: Fill)
        ensures
            match color_from_hex(color@) {
                Some(v) => {
                    &&& r.spec_pattern() == self.spec_pattern()
                    &&& r.spec_foreground_color() == self.spec_foreground_color()
                    &&& r.spec_background_color() == Some(v as u32)
                },
                None => r == self,
            },
    {
        match parse_hex_color(color) {
            Some(v) => Fill { background_color: Some(v), ..self },
            None => self,
        }
    }

    /// The fill pattern.
    pub fn get_pattern(&self) -> (r: FillPattern)
        ensures
            r == self.spec_pattern(),
    {
        self.pattern
    }

    /// The foreground color, if one was set.
    pub fn get_foreground_color(&self) -> (r: Option<u32>)
        ensures
            r == self.spec_foreground_color(),
    {
        self.foreground_color
    }

    /// The background color, if one was set.
    pub fn get_background_color(&self) -> (r: Option<u32>)
        ensures
            r == self.spec_background_color(),
    {
        self.background_color
    }
}

impl Default for Fill {
    /// The default fill is the colorless solid one [`Fill::new`] builds.
    fn default() -> (r: Self)
        ensures
            r.spec_pattern() == FillPattern::Solid,
            r.spec_foreground_color() is None,
            r.spec_background_color() is None,
    {
        Fill::new()
    }
}

} // verus!
