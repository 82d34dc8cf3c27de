//! Chart configuration types: data series, positioning, and one builder
//! per chart kind. These are plain configuration values; rendering them
//! into a workbook is the business of whatever writes the file.

pub mod bar;
pub mod chart;
pub mod column;
pub mod doughnut;
pub mod line;
pub mod pie;
pub mod scatter;

pub use bar::BarChart;
pub use chart::{Chart, ChartPosition, ChartType};
pub use column::ColumnChart;
pub use doughnut::DoughnutChart;
pub use line::{DataSeries, LineChart};
pub use pie::PieChart;
pub use scatter::ScatterChart;
