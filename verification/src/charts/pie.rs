//! Pie charts.

use vstd::prelude::*;

use super::chart::{Chart, ChartPosition, ChartType};
use super::line::DataSeries;

verus! {

/// A pie chart: a title, series, placement and a legend switch.
#[derive(Debug, Clone, PartialEq)]
pub struct PieChart {
    /// Chart title
    title: Option<String>,
    /// Data series
    series: Vec<DataSeries>,
    /// Chart position on worksheet
    position: Option<ChartPosition>,
    /// Show legend
    show_legend: bool,
}

impl PieChart {
    /// The title, as contracts see it.
    pub closed spec fn spec_title(&self) -> Option<Seq<char>> {
        match self.title {
            Some(s) => Some(s@),
            None => None,
        }
    }

    /// The series list, as contracts see it.
    pub closed spec fn spec_series(&self) -> Seq<DataSeries> {
        self.series@
    }

    /// The position, as contracts see it.
    pub closed spec fn spec_position(&self) -> Option<ChartPosition> {
        self.position
    }

    /// Whether the legend is shown, as contracts see it.
    pub closed spec fn spec_show_legend(&self) -> bool {
        self.show_legend
    }

    /// A new pie chart: no title, no series, no position, legend on.
    pub fn new() -> (r: PieChart)
        ensures
            r.spec_title() is None,
            r.spec_series() == Seq::<DataSeries>::empty(),
            r.spec_position() is None,
            r.spec_show_legend(),
    {
        PieChart { title: None, series: Vec::new(), position: None, show_legend: true }
    }

    /// Set the chart title.
    pub fn title(self, title: &str) -> (r: PieChart)
        ensures
            r.spec_title() == Some(title@),
            r.spec_series() == self.spec_series(),
            r.spec_position() == self.spec_position(),
            r.spec_show_legend() == self.spec_show_legend(),
    {
        PieChart { title: Some(title.to_owned()), ..self }
    }

    /// Append one data series.
    pub fn add_series(self, series: DataSeries) -> (r: PieChart)
        ensures
            r.spec_title() == self.spec_title(),
            r.spec_series() == self.spec_series().push(series),
            r.spec_position() == self.spec_position(),
            r.spec_show_legend() == self.spec_show_legend(),
    {
        let mut s = self;
        s.series.push(series);
        s
    }

    /// Set the chart's position on the worksheet.
    pub fn position(self, position: ChartPosition) -> (r: PieChart)
        ensures
            r.spec_title() == self.spec_title(),
            r.spec_series() == self.spec_series(),
            r.spec_position() == Some(position),
            r.spec_show_legend() == self.spec_show_legend(),
    {
        PieChart { position: Some(position), ..self }
    }

    /// Switch the legend on or off.
    pub fn show_legend(self, show: bool) -> (r: PieChart)
        ensures
            r.spec_title() == self.spec_title(),
            r.spec_series() == self.spec_series(),
            r.spec_position() == self.spec_position(),
            r.spec_show_legend() == show,
    {
        PieChart { show_legend: show, ..self }
    }

    /// The data series added so far, in order.
    pub fn get_series(&self) -> (r: &Vec<DataSeries>)
        ensures
            r@ == self.spec_series(),
    {
        &self.series
    }

    /// Whether the legend is shown.
    pub fn is_legend_shown(&self) -> (r: bool)
        ensures
            r == self.spec_show_legend(),
    {
        self.show_legend
    }
}

impl Chart for PieChart {
    open spec fn spec_type(&self) -> ChartType {
        ChartType::Pie
    }

    open spec fn spec_chart_title(&self) -> Option<Seq<char>> {
        self.spec_title()
    }

    open spec fn spec_chart_position(&self) -> Option<ChartPosition> {
        self.spec_position()
    }

    fn chart_type(&self) -> (r: ChartType) {
        ChartType::Pie
    }

    fn title(&self) -> (r: Option<&str>) {
        match &self.title {
            Some(s) => Some(s.as_str()),
            None => None,
        }
    }

    fn position(&self) -> (r: Option<&ChartPosition>) {
        self.position.as_ref()
    }
}

impl Default for PieChart {
    /// The default chart is the empty one [`PieChart::new`] builds.
    fn default() -> (r: Self)
        ensures
            r.spec_title() is None,
            r.spec_series() == Seq::<DataSeries>::empty(),
            r.spec_position() is None,
            r.spec_show_legend(),
    {
        PieChart::new()
    }
}

} // verus!
