//! Cell text alignment: horizontal and vertical placement, wrapping,
//! rotation, indentation and shrink-to-fit.

use vstd::prelude::*;

verus! {

/// Horizontal alignment of cell text.
#[derive(Debug, Clone, Copy, PartialEq, Eq, Structural)]
pub enum HorizontalAlignment {
    /// General alignment (default)
    General,
    /// Left aligned
    Left,
    /// Center aligned
    Center,
    /// Right aligned
    Right,
    /// Fill alignment
    Fill,
    /// Justify alignment
    Justify,
    /// Center across selection
    CenterAcross,
    /// Distributed alignment
    Distributed,
}

/// Vertical alignment of cell text.
#[derive(Debug, Clone, Copy, PartialEq, Eq, Structural)]
pub enum VerticalAlignment {
    /// Top aligned
    Top,
    /// Center aligned (middle)
    Center,
    /// Bottom aligned
    Bottom,
    /// Justify alignment
    Justify,
    /// Distributed alignment
    Distributed,
}

/// Alignment settings for one cell: each part is optional and off by
/// default. Rotation is kept within 0..=360 and indentation within
/// 0..=15, the ranges the file format allows.
#[derive(Debug, Clone, PartialEq)]
pub struct Alignment {
    /// Horizontal alignment
    horizontal: Option<HorizontalAlignment>,
    /// Vertical alignment
    vertical: Option<VerticalAlignment>,
    /// Text wrapping enabled
    wrap_text: bool,
    /// Text rotation (degrees)
    rotation: Option<u16>,
    /// Indentation level
    indent: Option<u8>,
    /// Shrink to fit
    shrink_to_fit: bool,
}

impl Alignment {
    /// The horizontal alignment, as contracts see it.
    pub closed spec fn spec_horizontal(&self) -> Option<HorizontalAlignment> {
        self.horizontal
    }

    /// The vertical alignment, as contracts see it.
    pub closed spec fn spec_vertical(&self) -> Option<VerticalAlignment> {
        self.vertical
    }

    /// Whether text wraps, as contracts see it.
    pub closed spec fn spec_wrap_text(&self) -> bool {
        self.wrap_text
    }

    /// The rotation, as contracts see it.
    pub closed spec fn spec_rotation(&self) -> Option<u16> {
        self.rotation
    }

    /// The indentation, as contracts see it.
    pub closed spec fn spec_indent(&self) -> Option<u8> {
        self.indent
    }

    /// Whether shrink-to-fit is on, as contracts see it.
    pub closed spec fn spec_shrink_to_fit(&self) -> bool {
        self.shrink_to_fit
    }

    /// Default alignment: nothing set, wrapping and shrinking off.
    pub fn new() -> (r: Alignment)
        ensures
            r.spec_horizontal() is None,
            r.spec_vertical() is None,
            !r.spec_wrap_text(),
            r.spec_rotation() is None,
            r.spec_indent() is None,
            !r.spec_shrink_to_fit(),
    {
        Alignment {
            horizontal: None,
            vertical: None,
            wrap_text: false,
            rotation: None,
            indent: None,
            shrink_to_fit: false,
        }
    }

    /// Set the horizontal alignment.
    pub fn horizontal(self, align: HorizontalAlignment) -> (r: Alignment)
        ensures
            r.spec_horizontal() == Some(align),
            r.spec_vertical() == self.spec_vertical(),
            r.spec_wrap_text() == self.spec_wrap_text(),
            r.spec_rotation() == self.spec_rotation(),
            r.spec_indent() == self.spec_indent(),
            r.spec_shrink_to_fit() == self.spec_shrink_to_fit(),
    {
        Alignment { horizontal: Some(align), ..self }
    }

    /// Set the vertical alignment.
    pub fn vertical(self, align: VerticalAlignment) -> (r: Alignment)
        ensures
            r.spec_horizontal() == self.spec_horizontal(),
            r.spec_vertical() == Some(align),
            r.spec_wrap_text() == self.spec_wrap_text(),
            r.spec_rotation() == self.spec_rotation(),
            r.spec_indent() == self.spec_indent(),
            r.spec_shrink_to_fit() == self.spec_shrink_to_fit(),
    {
        Alignment { vertical: Some(align), ..self }
    }

    /// Switch text wrapping on or off.
    pub fn wrap_text(self, wrap: bool) -> (r: Alignment)
        ensures
            r.spec_horizontal() == self.spec_horizontal(),
            r.spec_vertical() == self.spec_vertical(),
            r.spec_wrap_text() == wrap,
            r.spec_rotation() == self.spec_rotation(),
            r.spec_indent() == self.spec_indent(),
            r.spec_shrink_to_fit() == self.spec_shrink_to_fit(),
    {
        Alignment { wrap_text: wrap, ..self }
    }

    /// Set the text rotation in degrees, reduced modulo 361 so the
    /// stored angle stays within 0..=360.
    pub fn rotation(self, degrees: u16) -> (r: Alignment)
        ensures
            r.spec_horizontal() == self.spec_horizontal(),
            r.spec_vertical() == self.spec_vertical(),
            r.spec_wrap_text() == self.spec_wrap_text(),
            r.spec_rotation() == Some((degrees % 361) as u16),
            r.spec_indent() == self.spec_indent(),
            r.spec_shrink_to_fit() == self.spec_shrink_to_fit(),
    {
        Alignment { rotation: Some(degrees % 361), ..self }
    }

    /// Set the indentation level, capped at 15.
    pub fn indent(self, level: u8) -> (r: Alignment)
        ensures
            r.spec_horizontal() == self.spec_horizontal(),
            r.spec_vertical() == self.spec_vertical(),
            r.spec_wrap_text() == self.spec_wrap_text(),
            r.spec_rotation() == self.spec_rotation(),
            r.spec_indent() == Some(if level <= 15 { level } else { 15u8 }),
            r.spec_shrink_to_fit() == self.spec_shrink_to_fit(),
    {
        let capped: u8 = if level <= 15 { level } else { 15 };
        Alignment { indent: Some(capped), ..self }
    }

    /// Switch shrink-to-fit on or off.
    pub fn shrink_to_fit(self, shrink: bool) -> (r: Alignment)
        ensures
            r.spec_horizontal() == self.spec_horizontal(),
            r.spec_vertical() == self.spec_vertical(),
            r.spec_wrap_text() == self.spec_wrap_text(),
            r.spec_rotation() == self.spec_rotation(),
            r.spec_indent() == self.spec_indent(),
            r.spec_shrink_to_fit() == shrink,
    {
        Alignment { shrink_to_fit: shrink, ..self }
    }

    /// The horizontal alignment, if one was set.
    pub fn get_horizontal(&self) -> (r: Option<HorizontalAlignment>)
        ensures
            r == self.spec_horizontal(),
    {
        self.horizontal
    }

    /// The vertical alignment, if one was set.
    pub fn get_vertical(&self) -> (r: Option<VerticalAlignment>)
        ensures
            r == self.spec_vertical(),
    {
        self.vertical
    }

    /// Whether text wrapping is on.
    pub fn is_wrapped(&self) -> (r: bool)
        ensures
            r == self.spec_wrap_text(),
    {
        self.wrap_text
    }

    /// The rotation angle, if one was set.
    pub fn get_rotation(&self) -> (r: Option<u16>)
        ensures
            r == self.spec_rotation(),
    {
        self.rotation
    }

    /// The indentation level, if one was set.
    pub fn get_indent(&self) -> (r: Option<u8>)
        ensures
            r == self.spec_indent(),
    {
        self.indent
    }

    /// Whether shrink-to-fit is on.
    pub fn is_shrink_to_fit(&self) -> (r: bool)
        ensures
            r == self.spec_shrink_to_fit(),
    {
        self.shrink_to_fit
    }
}

impl Default for Alignment {
    /// The default alignment is the empty one [`Alignment::new`] builds.
    fn default() -> (r: Self)
        ensures
            r.spec_horizontal() is None,
            r.spec_vertical() is None,
            !r.spec_wrap_text(),
            r.spec_rotation() is None,
            r.spec_indent() is None,
            !r.spec_shrink_to_fit(),
    {
        Alignment::new()
    }
}

} // verus!
