//! The pieces every chart shares: its kind, its placement, and the
//! interface common to all chart builders.

use vstd::prelude::*;

verus! {

/// The kinds of chart the crate can describe.
#[derive(Debug, Clone, Copy, PartialEq, Eq, Structural)]
pub enum ChartType {
    /// Line chart
    Line,
    /// Column chart (vertical bars)
    Column,
    /// Bar chart (horizontal bars)
    Bar,
    /// Pie chart
    Pie,
    /// Scatter chart
    Scatter,
    /// Area chart
    Area,
    /// Doughnut chart
    Doughnut,
}

/// Where a chart sits on a worksheet, and optionally how large it is.
#[derive(Debug, Clone, PartialEq)]
pub struct ChartPosition {
    /// Top-left cell row
    pub row: u32,
    /// Top-left cell column
    pub col: u16,
    /// Width in pixels
    pub width: Option<u32>,
    /// Height in pixels
    pub height: Option<u32>,
}

impl ChartPosition {
    /// A position at the given top-left cell, with no explicit size.
    pub fn new(row: u32, col: u16) -> (p: ChartPosition)
        ensures
            p.row == row,
            p.col == col,
            p.width is None,
            p.height is None,
    {
        ChartPosition { row, col, width: None, height: None }
    }

    /// Set the chart width in pixels.
    pub fn width(self, width: u32) -> (p: ChartPosition)
        ensures
            p.row == self.row,
            p.col == self.col,
            p.width == Some(width),
            p.height == self.height,
    {
        ChartPosition { width: Some(width), ..self }
    }

    /// Set the chart height in pixels.
    pub fn height(self, height: u32) -> (p: ChartPosition)
        ensures
            p.row == self.row,
            p.col == self.col,
            p.width == self.width,
            p.height == Some(height),
    {
        ChartPosition { height: Some(height), ..self }
    }
}

/// What every chart builder can report about itself.
pub trait Chart {
    /// The chart's kind, as contracts see it.
    spec fn spec_type(&self) -> ChartType;

    /// The chart's title, as contracts see it.
    spec fn spec_chart_title(&self) -> Option<Seq<char>>;

    /// The chart's position, as contracts see it.
    spec fn spec_chart_position(&self) -> Option<ChartPosition>;

    /// The chart's kind.
    fn chart_type(&self) -> (r: ChartType)
        ensures
            r == self.spec_type(),
    ;

    /// The chart's title, if one was set.
    fn title(&self) -> (r: Option<&str>)
        ensures
            match r {
                Some(s) => self.spec_chart_title() == Some(s@),
                None => self.spec_chart_title() is None,
            },
    ;

    /// The chart's position, if one was set.
    fn position(&self) -> (r: Option<&ChartPosition>)
        ensures
            match r {
                Some(p) => self.spec_chart_position() == Some(*p),
                None => self.spec_chart_position() is None,
            },
    ;
}

} // verus!
