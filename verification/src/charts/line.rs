//! Line charts, and the data series type every chart kind shares.

use vstd::prelude::*;

use super::chart::{Chart, ChartPosition, ChartType};

verus! {

/// One data series: a values range in A1 notation, an optional name,
/// and an optional categories range.
#[derive(Debug, Clone, PartialEq)]
pub struct DataSeries {
    /// Series name
    name: Option<String>,
    /// Categories range (X-axis) in A1 notation
    categories: Option<String>,
    /// Values range (Y-axis) in A1 notation
    values: String,
}

impl DataSeries {
    /// The series name, as contracts see it.
    pub closed spec fn spec_name(&self) -> Option<Seq<char>> {
        match self.name {
            Some(s) => Some(s@),
            None => None,
        }
    }

    /// The categories range, as contracts see it.
    pub closed spec fn spec_categories(&self) -> Option<Seq<char>> {
        match self.categories {
            Some(s) => Some(s@),
            None => None,
        }
    }

    /// The values range, as contracts see it.
    pub closed spec fn spec_values(&self) -> Seq<char> {
        self.values@
    }

    /// A new series over the given values range, with no name and no
    /// categories.
    pub fn new(values: &str) -> (r: DataSeries)
        ensures
            r.spec_values() == values@,
            r.spec_name() is None,
            r.spec_categories() is None,
    {
        DataSeries { name: None, categories: None, values: values.to_owned() }
    }

    /// Set the series name.
    pub fn name(self, name: &str) -> (r: DataSeries)
        ensures
            r.spec_name() == Some(name@),
            r.spec_categories() == self.spec_categories(),
            r.spec_values() == self.spec_values(),
    {
        DataSeries { name: Some(name.to_owned()), ..self }
    }

    /// Set the categories range (the X-axis values).
    pub fn categories(self, categories: &str) -> (r: DataSeries)
        ensures
            r.spec_name() == self.spec_name(),
            r.spec_categories() == Some(categories@),
            r.spec_values() == self.spec_values(),
    {
        DataSeries { categories: Some(categories.to_owned()), ..self }
    }

    /// The series name, if one was set.
    pub fn get_name(&self) -> (r: Option<&str>)
        ensures
            match r {
                Some(s) => self.spec_name() == Some(s@),
                None => self.spec_name() is None,
            },
    {
        match &self.name {
            Some(s) => Some(s.as_str()),
            None => None,
        }
    }

    /// The categories range, if one was set.
    pub fn get_categories(&self) -> (r: Option<&str>)
        ensures
            match r {
                Some(s) => self.spec_categories() == Some(s@),
                None => self.spec_categories() is None,
            },
    {
        match &self.categories {
            Some(s) => Some(s.as_str()),
            None => None,
        }
    }

    /// The values range.
    pub fn get_values(&self) -> (r: &str)
        ensures
            r@ == self.spec_values(),
    {
        self.values.as_str()
    }
}

/// A line chart: titles, series, placement and a legend switch.
#[derive(Debug, Clone, PartialEq)]
pub struct LineChart {
    /// Chart title
    title: Option<String>,
    /// X-axis title
    x_axis_title: Option<String>,
    /// Y-axis title
    y_axis_title: Option<String>,
    /// Data series
    series: Vec<DataSeries>,
    /// Chart position on worksheet
    position: Option<ChartPosition>,
    /// Show legend
    show_legend: bool,
}

impl LineChart {
    /// The title, as contracts see it.
    pub closed spec fn spec_title(&self) -> Option<Seq<char>> {
        match self.title {
            Some(s) => Some(s@),
            None => None,
        }
    }

    /// The X-axis title, as contracts see it.
    pub closed spec fn spec_x_axis_title(&self) -> Option<Seq<char>> {
        match self.x_axis_title {
            Some(s) => Some(s@),
            None => None,
        }
    }

    /// The Y-axis title, as contracts see it.
    pub closed spec fn spec_y_axis_title(&self) -> Option<Seq<char>> {
        match self.y_axis_title {
            Some(s) => Some(s@),
            None => None,
        }
    }

    /// The series list, as contracts see it.
    pub closed spec fn spec_series(&self) -> Seq<DataSeries> {
        self.series@
    }

    /// The position, as contracts see it.
    pub closed spec fn spec_position(&self) -> Option<ChartPosition> {
        self.position
    }

    /// Whether the legend is shown, as contracts see it.
    pub closed spec fn spec_show_legend(&self) -> bool {
        self.show_legend
    }

    /// A new line chart: no titles, no series, no position, legend on.
    pub fn new() -> (r: LineChart)
        ensures
            r.spec_title() is None,
            r.spec_x_axis_title() is None,
            r.spec_y_axis_title() is None,
            r.spec_series() == Seq::<DataSeries>::empty(),
            r.spec_position() is None,
            r.spec_show_legend(),
    {
        LineChart {
            title: None,
            x_axis_title: None,
            y_axis_title: None,
            series: Vec::new(),
            position: None,
            show_legend: true,
        }
    }

    /// Set the chart title.
    pub fn title(self, title: &str) -> (r: LineChart)
        ensures
            r.spec_title() == Some(title@),
            r.spec_x_axis_title() == self.spec_x_axis_title(),
            r.spec_y_axis_title() == self.spec_y_axis_title(),
            r.spec_series() == self.spec_series(),
            r.spec_position() == self.spec_position(),
            r.spec_show_legend() == self.spec_show_legend(),
    {
        LineChart { title: Some(title.to_owned()), ..self }
    }

    /// Set the X-axis title.
    pub fn x_axis_title(self, title: &str) -> (r: LineChart)
        ensures
            r.spec_title() == self.spec_title(),
            r.spec_x_axis_title() == Some(title@),
            r.spec_y_axis_title() == self.spec_y_axis_title(),
            r.spec_series() == self.spec_series(),
            r.spec_position() == self.spec_position(),
            r.spec_show_legend() == self.spec_show_legend(),
    {
        LineChart { x_axis_title: Some(title.to_owned()), ..self }
    }

    /// Set the Y-axis title.
    pub fn y_axis_title(self, title: &str) -> (r: LineChart)
        ensures
            r.spec_title() == self.spec_title(),
            r.spec_x_axis_title() == self.spec_x_axis_title(),
            r.spec_y_axis_title() == Some(title@),
            r.spec_series() == self.spec_series(),
            r.spec_position() == self.spec_position(),
            r.spec_show_legend() == self.spec_show_legend(),
    {
        LineChart { y_axis_title: Some(title.to_owned()), ..self }
    }

    /// Append one data series.
    pub fn add_series(self, series: DataSeries) -> (r: LineChart)
        ensures
            r.spec_title() == self.spec_title(),
            r.spec_x_axis_title() == self.spec_x_axis_title(),
            r.spec_y_axis_title() == self.spec_y_axis_title(),
            r.spec_series() == self.spec_series().push(series),
            r.spec_position() == self.spec_position(),
            r.spec_show_legend() == self.spec_show_legend(),
    {
        let mut s = self;
        s.series.push(series);
        s
    }

    /// Set the chart's position on the worksheet.
    pub fn position(self, position: ChartPosition) -> (r: LineChart)
        ensures
            r.spec_title() == self.spec_title(),
            r.spec_x_axis_title() == self.spec_x_axis_title(),
            r.spec_y_axis_title() == self.spec_y_axis_title(),
            r.spec_series() == self.spec_series(),
            r.spec_position() == Some(position),
            r.spec_show_legend() == self.spec_show_legend(),
    {
        LineChart { position: Some(position), ..self }
    }

    /// Switch the legend on or off.
    pub fn show_legend(self, show: bool) -> (r: LineChart)
        ensures
            r.spec_title() == self.spec_title(),
            r.spec_x_axis_title() == self.spec_x_axis_title(),
            r.spec_y_axis_title() == self.spec_y_axis_title(),
            r.spec_series() == self.spec_series(),
            r.spec_position() == self.spec_position(),
            r.spec_show_legend() == show,
    {
        LineChart { show_legend: show, ..self }
    }

    /// The X-axis title, if one was set.
    pub fn get_x_axis_title(&self) -> (r: Option<&str>)
        ensures
            match r {
                Some(s) => self.spec_x_axis_title() == Some(s@),
                None => self.spec_x_axis_title() is None,
            },
    {
        match &self.x_axis_title {
            Some(s) => Some(s.as_str()),
            None => None,
        }
    }

    /// The Y-axis title, if one was set.
    pub fn get_y_axis_title(&self) -> (r: Option<&str>)
        ensures
            match r {
                Some(s) => self.spec_y_axis_title() == Some(s@),
                None => self.spec_y_axis_title() is None,
            },
    {
        match &self.y_axis_title {
            Some(s) => Some(s.as_str()),
            None => None,
        }
    }

    /// The data series added so far, in order.
    pub fn get_series(&self) -> (r: &Vec<DataSeries>)
        ensures
            r@ == self.spec_series(),
    {
        &self.series
    }

    /// Whether the legend is shown.
    pub fn is_legend_shown(&self) -> (r: bool)
        ensures
            r == self.spec_show_legend(),
    {
        self.show_legend
    }
}

impl Chart for LineChart {
    open spec fn spec_type(&self) -> ChartType {
        ChartType::Line
    }

    open spec fn spec_chart_title(&self) -> Option<Seq<char>> {
        self.spec_title()
    }

    open spec fn spec_chart_position(&self) -> Option<ChartPosition> {
        self.spec_position()
    }

    fn chart_type(&self) -> (r: ChartType) {
        ChartType::Line
    }

    fn title(&self) -> (r: Option<&str>) {
        match &self.title {
            Some(s) => Some(s.as_str()),
            None => None,
        }
    }

    fn position(&self) -> (r: Option<&ChartPosition>) {
        self.position.as_ref()
    }
}

impl Default for LineChart {
    /// The default chart is the empty one [`LineChart::new`] builds.
    fn default() -> (r: Self)
        ensures
            r.spec_title() is None,
            r.spec_x_axis_title() is None,
            r.spec_y_axis_title() is None,
            r.spec_series() == Seq::<DataSeries>::empty(),
            r.spec_position() is None,
            r.spec_show_legend(),
    {
        LineChart::new()
    }
}

} // verus!
