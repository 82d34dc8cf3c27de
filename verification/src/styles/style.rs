//! A composite cell style: font, fill, border, alignment and number
//! format bundled into one value, each part optional.

use vstd::prelude::*;

use super::alignment::Alignment;
use super::border::Border;
use super::fill::Fill;
use super::font::Font;
use super::number_format::NumberFormat;

verus! {

/// A complete cell style. Parts left unset keep the sheet's defaults.
#[derive(Debug, Clone, PartialEq)]
pub struct Style {
    /// Font styling
    font: Option<Font>,
    /// Fill styling
    fill: Option<Fill>,
    /// Border styling
    border: Option<Border>,
    /// Alignment styling
    alignment: Option<Alignment>,
    /// Number format styling
    number_format: Option<NumberFormat>,
}

impl Style {
    /// The font part, as contracts see it.
    pub closed spec fn spec_font(&self) -> Option<Font> {
        self.font
    }

    /// The fill part, as contracts see it.
    pub closed spec fn spec_fill(&self) -> Option<Fill> {
        self.fill
    }

    /// The border part, as contracts see it.
    pub closed spec fn spec_border(&self) -> Option<Border> {
        self.border
    }

    /// The alignment part, as contracts see it.
    pub closed spec fn spec_alignment(&self) -> Option<Alignment> {
        self.alignment
    }

    /// The number format part, as contracts see it.
    pub closed spec fn spec_number_format(&self) -> Option<NumberFormat> {
        self.number_format
    }

    /// A style with no parts set.
    pub fn new() -> (r: Style)
        ensures
            r.spec_font() is None,
            r.spec_fill() is None,
            r.spec_border() is None,
            r.spec_alignment() is None,
            r.spec_number_format() is None,
    {
        Style { font: None, fill: None, border: None, alignment: None, number_format: None }
    }

    /// Set the font part.
    pub fn font(self, font: Font) -> (r: Style)
        ensures
            r.spec_font() == Some(font),
            r.spec_fill() == self.spec_fill(),
            r.spec_border() == self.spec_border(),
            r.spec_alignment() == self.spec_alignment(),
            r.spec_number_format() == self.spec_number_format(),
    {
        Style { font: Some(font), ..self }
    }

    /// Set the fill part.
    pub fn fill(self, fill: Fill) -> (r: Style)
        ensures
            r.spec_font() == self.spec_font(),
            r.spec_fill() == Some(fill),
            r.spec_border() == self.spec_border(),
            r.spec_alignment() == self.spec_alignment(),
            r.spec_number_format() == self.spec_number_format(),
    {
        Style { fill: Some(fill), ..self }
    }

    /// Set the border part.
    pub fn border(self, border: Border) -> (r: Style)
        ensures
            r.spec_font() == self.spec_font(),
            r.spec_fill() == self.spec_fill(),
            r.spec_border() == Some(border),
            r.spec_alignment() == self.spec_alignment(),
            r.spec_number_format() == self.spec_number_format(),
    {
        Style { border: Some(border), ..self }
    }

    /// Set the alignment part.
    pub fn alignment(self, alignment: Alignment) -> (r: Style)
        ensures
            r.spec_font() == self.spec_font(),
            r.spec_fill() == self.spec_fill(),
            r.spec_border() == self.spec_border(),
            r.spec_alignment() == Some(alignment),
            r.spec_number_format() == self.spec_number_format(),
    {
        Style { alignment: Some(alignment), ..self }
    }

    /// Set the number format part.
    pub fn number_format(self, number_format: NumberFormat) -> (r: Style)
        ensures
            r.spec_font() == self.spec_font(),
            r.spec_fill() == self.spec_fill(),
            r.spec_border() == self.spec_border(),
            r.spec_alignment() == self.spec_alignment(),
            r.spec_number_format() == Some(number_format),
    {
        Style { number_format: Some(number_format), ..self }
    }

    /// The font part, if set.
    pub fn get_font(&self) -> (r: Option<&Font>)
        ensures
            match r {
                Some(f) => self.spec_font() == Some(*f),
                None => self.spec_font() is None,
            },
    {
        self.font.as_ref()
    }

    /// The fill part, if set.
    pub fn get_fill(&self) -> (r: Option<&Fill>)
        ensures
            match r {
                Some(f) => self.spec_fill() == Some(*f),
                None => self.spec_fill() is None,
            },
    {
        self.fill.as_ref()
    }

    /// The border part, if set.
    pub fn get_border(&self) -> (r: Option<&Border>)
        ensures
            match r {
                Some(b) => self.spec_border() == Some(*b),
                None => self.spec_border() is None,
            },
    {
        self.border.as_ref()
    }

    /// The alignment part, if set.
    pub fn get_alignment(&self) -> (r: Option<&Alignment>)
        ensures
            match r {
                Some(a) => self.spec_alignment() == Some(*a),
                None => self.spec_alignment() is None,
            },
    {
        self.alignment.as_ref()
    }

    /// The number format part, if set.
    pub fn get_number_format(&self) -> (r: Option<&NumberFormat>)
        ensures
            match r {
                Some(n) => self.spec_number_format() == Some(*n),
                None => self.spec_number_format() is None,
            },
    {
        self.number_format.as_ref()
    }
}

impl Default for Style {
    /// The default style is the empty one [`Style::new`] builds.
    fn default() -> (r: Self)
        ensures
            r.spec_font() is None,
            r.spec_fill() is None,
            r.spec_border() is None,
            r.spec_alignment() is None,
            r.spec_number_format() is None,
    {
        Style::new()
    }
}

} // verus!
