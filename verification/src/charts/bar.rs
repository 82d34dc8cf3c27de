//! Bar charts: horizontal bars, optionally stacked.

use vstd::prelude::*;

use super::chart::{Chart, ChartPosition, ChartType};
use super::line::DataSeries;

verus! {

/// A bar chart (horizontal bars): titles, series, placement, a legend
/// switch, and a stacked mode.
#[derive(Debug, Clone, PartialEq)]
pub struct BarChart {
    /// Chart title
    title: Option<String>,
    /// X-axis title
    x_axis_title: Option<String>,
    /// Y-axis title
    y_axis_title: Option<String>,
    /// Data series
    series: Vec<DataSeries>,
    /// Chart position on worksheet
    position: Option<ChartPosition>,
    /// Show legend
    show_legend: bool,
    /// Stacked bars
    stacked: bool,
}

impl BarChart {
    /// The title, as contracts see it.
    pub closed spec fn spec_title(&self) -> Option<Seq<char>> {
        match self.title {
            Some(s) => Some(s@),
            None => None,
        }
    }

    /// The X-axis title, as contracts see it.
    pub closed spec fn spec_x_axis_title(&self) -> Option<Seq<char>> {
        match self.x_axis_title {
            Some(s) => Some(s@),
            None => None,
        }
    }

    /// The Y-axis title, as contracts see it.
    pub closed spec fn spec_y_axis_title(&self) -> Option<Seq<char>> {
        match self.y_axis_title {
            Some(s) => Some(s@),
            None => None,
        }
    }

    /// The series list, as contracts see it.
    pub closed spec fn spec_series(&self) -> Seq<DataSeries> {
        self.series@
    }

    /// The position, as contracts see it.
    pub closed spec fn spec_position(&self) -> Option<ChartPosition> {
        self.position
    }

    /// Whether the legend is shown, as contracts see it.
    pub closed spec fn spec_show_legend(&self) -> bool {
        self.show_legend
    }

    /// Whether the bars are stacked, as contracts see it.
    pub closed spec fn spec_stacked(&self) -> bool {
        self.stacked
    }

    /// A new line chart: no titles, no series, no position, legend on.
    pub fn new() -> (r: BarChart)
        ensures
            r.spec_title() is None,
            r.spec_x_axis_title() is None,
            r.spec_y_axis_title() is None,
            r.spec_series() == Seq::<DataSeries>::empty(),
            r.spec_position() is None,
            r.spec_show_legend(),
            !r.spec_stacked(),
    {
        BarChart {
            title: None,
            x_axis_title: None,
            y_axis_title: None,
            series: Vec::new(),
            position: None,
            show_legend: true,
            stacked: false,
        }
    }

    /// Set the chart title.
    pub fn title(self, title: &str) -> (r: BarChart)
        ensures
            r.spec_title() == Some(title@),
            r.spec_x_axis_title() == self.spec_x_axis_title(),
            r.spec_y_axis_title() == self.spec_y_axis_title(),
            r.spec_series() == self.spec_series(),
            r.spec_position() == self.spec_position(),
            r.spec_show_legend() == self.spec_show_legend(),
            r.spec_stacked() == self.spec_stacked(),
    {
        BarChart { title: Some(title.to_owned()), ..self }
    }

    /// Set the X-axis title.
    pub fn x_axis_title(self, title: &str) -> (r: BarChart)
        ensures
            r.spec_title() == self.spec_title(),
            r.spec_x_axis_title() == Some(title@),
            r.spec_y_axis_title() == self.spec_y_axis_title(),
            r.spec_series() == self.spec_series(),
            r.spec_position() == self.spec_position(),
            r.spec_show_legend() == self.spec_show_legend(),
            r.spec_stacked() == self.spec_stacked(),
    {
        BarChart { x_axis_title: Some(title.to_owned()), ..self }
    }

    /// Set the Y-axis title.
    pub fn y_axis_title(self, title: &str) -> (r: BarChart)
        ensures
            r.spec_title() == self.spec_title(),
            r.spec_x_axis_title() == self.spec_x_axis_title(),
            r.spec_y_axis_title() == Some(title@),
            r.spec_series() == self.spec_series(),
            r.spec_position() == self.spec_position(),
            r.spec_show_legend() == self.spec_show_legend(),
            r.spec_stacked() == self.spec_stacked(),
    {
        BarChart { y_axis_title: Some(title.to_owned()), ..self }
    }

    /// Append one data series.
    pub fn add_series(self, series: DataSeries) -> (r: BarChart)
        ensures
            r.spec_title() == self.spec_title(),
            r.spec_x_axis_title() == self.spec_x_axis_title(),
            r.spec_y_axis_title() == self.spec_y_axis_title(),
            r.spec_series() == self.spec_series().push(series),
            r.spec_position() == self.spec_position(),
            r.spec_show_legend() == self.spec_show_legend(),
            r.spec_stacked() == self.spec_stacked(),
    {
        let mut s = self;
        s.series.push(series);
        s
    }

    /// Set the chart's position on the worksheet.
    pub fn position(self, position: ChartPosition) -> (r: BarChart)
        ensures
            r.spec_title() == self.spec_title(),
            r.spec_x_axis_title() == self.spec_x_axis_title(),
            r.spec_y_axis_title() == self.spec_y_axis_title(),
            r.spec_series() == self.spec_series(),
            r.spec_position() == Some(position),
            r.spec_show_legend() == self.spec_show_legend(),
            r.spec_stacked() == self.spec_stacked(),
    {
        BarChart { position: Some(position), ..self }
    }

    /// Switch the legend on or off.
    pub fn show_legend(self, show: bool) -> (r: BarChart)
        ensures
            r.spec_title() == self.spec_title(),
            r.spec_x_axis_title() == self.spec_x_axis_title(),
            r.spec_y_axis_title() == self.spec_y_axis_title(),
            r.spec_series() == self.spec_series(),
            r.spec_position() == self.spec_position(),
            r.spec_show_legend() == show,
            r.spec_stacked() == self.spec_stacked(),
    {
        BarChart { show_legend: show, ..self }
    }

    /// Set whether the bars are stacked.
    pub fn stacked(self, stacked: bool) -> (r: BarChart)
        ensures
            r.spec_title() == self.spec_title(),
            r.spec_x_axis_title() == self.spec_x_axis_title(),
            r.spec_y_axis_title() == self.spec_y_axis_title(),
            r.spec_series() == self.spec_series(),
            r.spec_position() == self.spec_position(),
            r.spec_show_legend() == self.spec_show_legend(),
            r.spec_stacked() == stacked,
    {
        BarChart { stacked, ..self }
    }

    /// Whether the bars are stacked.
    pub fn is_stacked(&self) -> (r: bool)
        ensures
            r == self.spec_stacked(),
    {
        self.stacked
    }

    /// The X-axis title, if one was set.
    pub fn get_x_axis_title(&self) -> (r: Option<&str>)
        ensures
            match r {
                Some(s) => self.spec_x_axis_title() == Some(s@),
                None => self.spec_x_axis_title() is None,
            },
    {
        match &self.x_axis_title {
            Some(s) => Some(s.as_str()),
            None => None,
        }
    }

    /// The Y-axis title, if one was set.
    pub fn get_y_axis_title(&self) -> (r: Option<&str>)
        ensures
            match r {
                Some(s) => self.spec_y_axis_title() == Some(s@),
                None => self.spec_y_axis_title() is None,
            },
    {
        match &self.y_axis_title {
            Some(s) => Some(s.as_str()),
            None => None,
        }
    }

    /// The data series added so far, in order.
    pub fn get_series(&self) -> (r: &Vec<DataSeries>)
        ensures
            r@ == self.spec_series(),
    {
        &self.series
    }

    /// Whether the legend is shown.
    pub fn is_legend_shown(&self) -> (r: bool)
        ensures
            r == self.spec_show_legend(),
    {
        self.show_legend
    }
}

impl Chart for BarChart {
    open spec fn spec_type(&self) -> ChartType {
        ChartType::Bar
    }

    open spec fn spec_chart_title(&self) -> Option<Seq<char>> {
        self.spec_title()
    }

    open spec fn spec_chart_position(&self) -> Option<ChartPosition> {
        self.spec_position()
    }

    fn chart_type(&self) -> (r: ChartType) {
        ChartType::Bar
    }

    fn title(&self) -> (r: Option<&str>) {
        match &self.title {
            Some(s) => Some(s.as_str()),
            None => None,
        }
    }

    fn position(&self) -> (r: Option<&ChartPosition>) {
        self.position.as_ref()
    }
}

impl Default for BarChart {
    /// The default chart is the empty one [`BarChart::new`] builds.
    fn default() -> (r: Self)
        ensures
            r.spec_title() is None,
            r.spec_x_axis_title() is None,
            r.spec_y_axis_title() is None,
            r.spec_series() == Seq::<DataSeries>::empty(),
            r.spec_position() is None,
            r.spec_show_legend(),
            !r.spec_stacked(),
    {
        BarChart::new()
    }
}

} // verus!
