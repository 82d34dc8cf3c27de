//! Cell borders: a style per edge and an optional shared color.
//!
//! Colors are plain 24-bit RGB values; see [`crate::styles::color`] for
//! how hex strings are read.

use vstd::prelude::*;

use super::color::{color_from_hex, parse_hex_color};

verus! {

/// The line styles a border edge can have.
#[derive(Debug, Clone, Copy, PartialEq, Eq, Structural)]
pub enum BorderStyle {
    /// No border
    NoBorder,
    /// Thin border (most common)
    Thin,
    /// Medium border
    Medium,
    /// Thick border
    Thick,
    /// Dashed border
    Dashed,
    /// Dotted border
    Dotted,
    /// Double border
    Double,
    /// Hair-thin border
    Hair,
    /// Medium dashed border
    MediumDashed,
    /// Dash-dot border
    DashDot,
    /// Medium dash-dot border
    MediumDashDot,
    /// Dash-dot-dot border
    DashDotDot,
    /// Medium dash-dot-dot border
    MediumDashDotDot,
    /// Slant dash-dot border
    SlantDashDot,
}

/// Border settings for one cell: a style per edge (including the two
/// diagonals) and an optional color shared by all edges.
#[derive(Debug, Clone, PartialEq)]
pub struct Border {
    /// Top border style
    top: BorderStyle,
    /// Bottom border style
    bottom: BorderStyle,
    /// Left border style
    left: BorderStyle,
    /// Right border style
    right: BorderStyle,
    /// Diagonal up border style
    diagonal_up: BorderStyle,
    /// Diagonal down border style
    diagonal_down: BorderStyle,
    /// Border color as 24-bit RGB
    color: Option<u32>,
}

impl Border {
    /// The top edge style, as contracts see it.
    pub closed spec fn spec_top(&self) -> BorderStyle {
        self.top
    }

    /// The bottom edge style, as contracts see it.
    pub closed spec fn spec_bottom(&self) -> BorderStyle {
        self.bottom
    }

    /// The left edge style, as contracts see it.
    pub closed spec fn spec_left(&self) -> BorderStyle {
        self.left
    }

    /// The right edge style, as contracts see it.
    pub closed spec fn spec_right(&self) -> BorderStyle {
        self.right
    }

    /// The diagonal-up style, as contracts see it.
    pub closed spec fn spec_diagonal_up(&self) -> BorderStyle {
        self.diagonal_up
    }

    /// The diagonal-down style, as contracts see it.
    pub closed spec fn spec_diagonal_down(&self) -> BorderStyle {
        self.diagonal_down
    }

    /// The color, as contracts see it.
    pub closed spec fn spec_color(&self) -> Option<u32> {
        self.color
    }

    /// A border with no edges drawn and no color.
    pub fn new() -> (r: Border)
        ensures
            r.spec_top() == BorderStyle::NoBorder,
            r.spec_bottom() == BorderStyle::NoBorder,
            r.spec_left() == BorderStyle::NoBorder,
            r.spec_right() == BorderStyle::NoBorder,
            r.spec_diagonal_up() == BorderStyle::NoBorder,
            r.spec_diagonal_down() == BorderStyle::NoBorder,
            r.spec_color() is None,
    {
        Border {
            top: BorderStyle::NoBorder,
            bottom: BorderStyle::NoBorder,
            left: BorderStyle::NoBorder,
            right: BorderStyle::NoBorder,
            diagonal_up: BorderStyle::NoBorder,
            diagonal_down: BorderStyle::NoBorder,
            color: None,
        }
    }

    /// A border with all four outer edges in the given style.
    pub fn all(style: BorderStyle) -> (r: Border)
        ensures
            r.spec_top() == style,
            r.spec_bottom() == style,
            r.spec_left() == style,
            r.spec_right() == style,
            r.spec_diagonal_up() == BorderStyle::NoBorder,
            r.spec_diagonal_down() == BorderStyle::NoBorder,
            r.spec_color() is None,
    {
        Border {
            top: style,
            bottom: style,
            left: style,
            right: style,
            diagonal_up: BorderStyle::NoBorder,
            diagonal_down: BorderStyle::NoBorder,
            color: None,
        }
    }

    /// A border outlining the cell: all four outer edges in the given
    /// style.
    pub fn outline(style: BorderStyle) -> (r: Border)
        ensures
            r.spec_top() == style,
            r.spec_bottom() == style,
            r.spec_left() == style,
            r.spec_right() == style,
            r.spec_diagonal_up() == BorderStyle::NoBorder,
            r.spec_diagonal_down() == BorderStyle::NoBorder,
            r.spec_color() is None,
    {
        Border::all(style)
    }

    /// Set the top edge style.
    pub fn top(self, style: BorderStyle) -> (r: Border)
        ensures
            r.spec_top() == style,
            r.spec_bottom() == self.spec_bottom(),
            r.spec_left() == self.spec_left(),
            r.spec_right() == self.spec_right(),
            r.spec_diagonal_up() == self.spec_diagonal_up(),
            r.spec_diagonal_down() == self.spec_diagonal_down(),
            r.spec_color() == self.spec_color(),
    {
        Border { top: style, ..self }
    }

    /// Set the bottom edge style.
    pub fn bottom(self, style: BorderStyle) -> (r: Border)
        ensures
            r.spec_bottom() == style,
            r.spec_top() == self.spec_top(),
            r.spec_left() == self.spec_left(),
            r.spec_right() == self.spec_right(),
            r.spec_diagonal_up() == self.spec_diagonal_up(),
            r.spec_diagonal_down() == self.spec_diagonal_down(),
            r.spec_color() == self.spec_color(),
    {
        Border { bottom: style, ..self }
    }

    /// Set the left edge style.
    pub fn left(self, style: BorderStyle) -> (r: Border)
        ensures
            r.spec_left() == style,
            r.spec_top() == self.spec_top(),
            r.spec_bottom() == self.spec_bottom(),
            r.spec_right() == self.spec_right(),
            r.spec_diagonal_up() == self.spec_diagonal_up(),
            r.spec_diagonal_down() == self.spec_diagonal_down(),
            r.spec_color() == self.spec_color(),
    {
        Border { left: style, ..self }
    }

    /// Set the right edge style.
    pub fn right(self, style: BorderStyle) -> (r: Border)
        ensures
            r.spec_right() == style,
            r.spec_top() == self.spec_top(),
            r.spec_bottom() == self.spec_bottom(),
            r.spec_left() == self.spec_left(),
            r.spec_diagonal_up() == self.spec_diagonal_up(),
            r.spec_diagonal_down() == self.spec_diagonal_down(),
            r.spec_color() == self.spec_color(),
    {
        Border { right: style, ..self }
    }

    /// Set the diagonal-up style.
    pub fn diagonal_up(self, style: BorderStyle) -> (r: Border)
        ensures
            r.spec_diagonal_up() == style,
            r.spec_top() == self.spec_top(),
            r.spec_bottom() == self.spec_bottom(),
            r.spec_left() == self.spec_left(),
            r.spec_right() == self.spec_right(),
            r.spec_diagonal_down() == self.spec_diagonal_down(),
            r.spec_color() == self.spec_color(),
    {
        Border { diagonal_up: style, ..self }
    }

    /// Set the diagonal-down style.
    pub fn diagonal_down(self, style: BorderStyle) -> (r: Border)
        ensures
            r.spec_diagonal_down() == style,
            r.spec_top() == self.spec_top(),
            r.spec_bottom() == self.spec_bottom(),
            r.spec_left() == self.spec_left(),
            r.spec_right() == self.spec_right(),
            r.spec_diagonal_up() == self.spec_diagonal_up(),
            r.spec_color() == self.spec_color(),
    {
        Border { diagonal_down: style, ..self }
    }

    /// Set the border color from a hex string like `"#000000"`. A
    /// string that names no color leaves the border unchanged.
    pub fn color(self, color: &str) -> (r: Border)
        ensures
            match color_from_hex(color@) {
                Some(v) => {
                    &&& r.spec_top() == self.spec_top()
                    &&& r.spec_bottom() == self.spec_bottom()
                    &&& r.spec_left() == self.spec_left()
                    &&& r.spec_right() == self.spec_right()
                    &&& r.spec_diagonal_up() == self.spec_diagonal_up()
                    &&& r.spec_diagonal_down() == self.spec_diagonal_down()
                    &&& r.spec_color() == Some(v as u32)
                },
                None => r == self,
            },
    {
        match parse_hex_color(color) {
            Some(v) => Border { color: Some(v), ..self },
            None => self,
        }
    }

    /// Set the border color from RGB components.
    pub fn rgb(self, red: u8, green: u8, blue: u8) -> (r: Border)
        ensures
            r.spec_top() == self.spec_top(),
            r.spec_bottom() == self.spec_bottom(),
            r.spec_left() == self.spec_left(),
            r.spec_right() == self.spec_right(),
            r.spec_diagonal_up() == self.spec_diagonal_up(),
            r.spec_diagonal_down() == self.spec_diagonal_down(),
            r.spec_color() == Some(
                (((red as u32) * 0x10000 + (green as u32) * 0x100 + (blue as u32)) as u32),
            ),
    {
        let value = (red as u32) * 0x10000 + (green as u32) * 0x100 + (blue as u32);
        Border { color: Some(value), ..self }
    }

    /// The top edge style.
    pub fn get_top(&self) -> (r: BorderStyle)
        ensures
            r == self.spec_top(),
    {
        self.top
    }

    /// The bottom edge style.
    pub fn get_bottom(&self) -> (r: BorderStyle)
        ensures
            r == self.spec_bottom(),
    {
        self.bottom
    }

    /// The left edge style.
    pub fn get_left(&self) -> (r: BorderStyle)
        ensures
            r == self.spec_left(),
    {
        self.left
    }

    /// The right edge style.
    pub fn get_right(&self) -> (r: BorderStyle)
        ensures
            r == self.spec_right(),
    {
        self.right
    }

    /// The diagonal-up style.
    pub fn get_diagonal_up(&self) -> (r: BorderStyle)
        ensures
            r == self.spec_diagonal_up(),
    {
        self.diagonal_up
    }

    /// The diagonal-down style.
    pub fn get_diagonal_down(&self) -> (r: BorderStyle)
        ensures
            r == self.spec_diagonal_down(),
    {
        self.diagonal_down
    }

    /// The border color, if one was set.
    pub fn get_color(&self) -> (r: Option<u32>)
        ensures
            r == self.spec_color(),
    {
        self.color
    }
}

impl Default for Border {
    /// The default border is the empty one [`Border::new`] builds.
    fn default() -> (r: Self)
        ensures
            r.spec_top() == BorderStyle::NoBorder,
            r.spec_bottom() == BorderStyle::NoBorder,
            r.spec_left() == BorderStyle::NoBorder,
            r.spec_right() == BorderStyle::NoBorder,
            r.spec_diagonal_up() == BorderStyle::NoBorder,
            r.spec_diagonal_down() == BorderStyle::NoBorder,
            r.spec_color() is None,
    {
        Border::new()
    }
}

} // verus!
