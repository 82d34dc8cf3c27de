//! Tests for the chart configuration builders.

use xlsxpress::charts::{
    BarChart, Chart, ChartPosition, ChartType, ColumnChart, DataSeries, DoughnutChart, LineChart,
    PieChart, ScatterChart,
};

#[test]
fn test_chart_position_new() {
    let pos = ChartPosition::new(5, 10);
    assert_eq!(pos.row, 5);
    assert_eq!(pos.col, 10);
    assert_eq!(pos.width, None);
    assert_eq!(pos.height, None);
}

#[test]
fn test_chart_position_with_dimensions() {
    let pos = ChartPosition::new(5, 10).width(640).height(480);
    assert_eq!(pos.row, 5);
    assert_eq!(pos.col, 10);
    assert_eq!(pos.width, Some(640));
    assert_eq!(pos.height, Some(480));
}

#[test]
fn test_chart_type_enum() {
    let chart_types = vec![
        ChartType::Line,
        ChartType::Column,
        ChartType::Bar,
        ChartType::Pie,
        ChartType::Scatter,
        ChartType::Area,
        ChartType::Doughnut,
    ];

    for chart_type in chart_types {
        assert_eq!(chart_type, chart_type);
    }
}

#[test]
fn test_data_series_new() {
    let series = DataSeries::new("Sheet1!$B$2:$B$10");
    assert_eq!(series.get_values(), "Sheet1!$B$2:$B$10");
    assert_eq!(series.get_name(), None);
    assert_eq!(series.get_categories(), None);
}

#[test]
fn test_data_series_with_name() {
    let series = DataSeries::new("Sheet1!$B$2:$B$10").name("Sales");
    assert_eq!(series.get_name(), Some("Sales"));
}

#[test]
fn test_data_series_with_categories() {
    let series = DataSeries::new("Sheet1!$B$2:$B$10").categories("Sheet1!$A$2:$A$10");
    assert_eq!(series.get_categories(), Some("Sheet1!$A$2:$A$10"));
}

#[test]
fn test_data_series_builder() {
    let series = DataSeries::new("Sheet1!$B$2:$B$10")
        .name("Q1 Sales")
        .categories("Sheet1!$A$2:$A$10");

    assert_eq!(series.get_name(), Some("Q1 Sales"));
    assert_eq!(series.get_categories(), Some("Sheet1!$A$2:$A$10"));
    assert_eq!(series.get_values(), "Sheet1!$B$2:$B$10");
}

#[test]
fn test_line_chart_new() {
    let chart = LineChart::new();
    assert!(Chart::title(&chart).is_none());
    assert_eq!(chart.get_series().len(), 0);
    assert!(chart.is_legend_shown());
}

#[test]
fn test_line_chart_with_title() {
    let chart = LineChart::new().title("Sales Report");
    assert_eq!(Chart::title(&chart), Some("Sales Report"));
}

#[test]
fn test_line_chart_with_axis_titles() {
    let chart = LineChart::new()
        .x_axis_title("Month")
        .y_axis_title("Revenue");

    assert_eq!(chart.get_x_axis_title(), Some("Month"));
    assert_eq!(chart.get_y_axis_title(), Some("Revenue"));
}

#[test]
fn test_line_chart_with_series() {
    let series = DataSeries::new("Sheet1!$B$2:$B$10").name("Sales");
    let chart = LineChart::new().add_series(series);

    assert_eq!(chart.get_series().len(), 1);
    assert_eq!(chart.get_series()[0].get_name(), Some("Sales"));
}

#[test]
fn test_line_chart_with_multiple_series() {
    let chart = LineChart::new()
        .add_series(DataSeries::new("Sheet1!$B$2:$B$10").name("Q1"))
        .add_series(DataSeries::new("Sheet1!$C$2:$C$10").name("Q2"))
        .add_series(DataSeries::new("Sheet1!$D$2:$D$10").name("Q3"));

    assert_eq!(chart.get_series().len(), 3);
    assert_eq!(chart.get_series()[0].get_name(), Some("Q1"));
    assert_eq!(chart.get_series()[1].get_name(), Some("Q2"));
    assert_eq!(chart.get_series()[2].get_name(), Some("Q3"));
}

#[test]
fn test_line_chart_with_position() {
    let pos = ChartPosition::new(5, 10).width(640).height(480);
    let chart = LineChart::new().position(pos.clone());

    assert!(Chart::position(&chart).is_some());
    let chart_pos = Chart::position(&chart).unwrap();
    assert_eq!(chart_pos.row, 5);
    assert_eq!(chart_pos.col, 10);
    assert_eq!(chart_pos.width, Some(640));
    assert_eq!(chart_pos.height, Some(480));
}

#[test]
fn test_line_chart_legend() {
    let chart = LineChart::new().show_legend(false);
    assert!(!chart.is_legend_shown());

    let chart = LineChart::new().show_legend(true);
    assert!(chart.is_legend_shown());
}

#[test]
fn test_line_chart_builder() {
    let chart = LineChart::new()
        .title("Annual Sales")
        .x_axis_title("Quarter")
        .y_axis_title("Revenue ($)")
        .add_series(
            DataSeries::new("Sheet1!$B$2:$B$5")
                .name("2023")
                .categories("Sheet1!$A$2:$A$5"),
        )
        .add_series(
            DataSeries::new("Sheet1!$C$2:$C$5")
                .name("2024")
                .categories("Sheet1!$A$2:$A$5"),
        )
        .show_legend(true);

    assert_eq!(Chart::title(&chart), Some("Annual Sales"));
    assert_eq!(chart.get_x_axis_title(), Some("Quarter"));
    assert_eq!(chart.get_y_axis_title(), Some("Revenue ($)"));
    assert_eq!(chart.get_series().len(), 2);
    assert!(chart.is_legend_shown());
}

#[test]
fn test_line_chart_trait() {
    let chart = LineChart::new().title("Test Chart");

    assert_eq!(chart.chart_type(), ChartType::Line);
    assert_eq!(Chart::title(&chart), Some("Test Chart"));
    assert!(Chart::position(&chart).is_none());
}

#[test]
fn test_line_chart_default() {
    let chart = LineChart::default();
    assert!(Chart::title(&chart).is_none());
    assert_eq!(chart.get_series().len(), 0);
}

#[test]
fn test_bar_chart_new() {
    let chart = BarChart::new();
    assert!(Chart::title(&chart).is_none());
    assert_eq!(chart.get_series().len(), 0);
    assert!(chart.is_legend_shown());
    assert!(!chart.is_stacked());
}

#[test]
fn test_bar_chart_with_title() {
    let chart = BarChart::new().title("Budget Analysis");
    assert_eq!(Chart::title(&chart), Some("Budget Analysis"));
}

#[test]
fn test_bar_chart_with_axis_titles() {
    let chart = BarChart::new()
        .x_axis_title("Amount ($)")
        .y_axis_title("Department");

    assert_eq!(chart.get_x_axis_title(), Some("Amount ($)"));
    assert_eq!(chart.get_y_axis_title(), Some("Department"));
}

#[test]
fn test_bar_chart_with_series() {
    let series = DataSeries::new("Sheet1!$B$2:$B$5").name("Spending");
    let chart = BarChart::new().add_series(series);

    assert_eq!(chart.get_series().len(), 1);
    assert_eq!(chart.get_series()[0].get_name(), Some("Spending"));
}

#[test]
fn test_bar_chart_with_multiple_series() {
    let chart = BarChart::new()
        .add_series(DataSeries::new("Sheet1!$B$2:$B$5").name("Planned"))
        .add_series(DataSeries::new("Sheet1!$C$2:$C$5").name("Actual"));

    assert_eq!(chart.get_series().len(), 2);
    assert_eq!(chart.get_series()[0].get_name(), Some("Planned"));
    assert_eq!(chart.get_series()[1].get_name(), Some("Actual"));
}

#[test]
fn test_bar_chart_with_position() {
    let pos = ChartPosition::new(3, 8).width(700).height(500);
    let chart = BarChart::new().position(pos.clone());

    assert!(Chart::position(&chart).is_some());
    let chart_pos = Chart::position(&chart).unwrap();
    assert_eq!(chart_pos.row, 3);
    assert_eq!(chart_pos.col, 8);
    assert_eq!(chart_pos.width, Some(700));
    assert_eq!(chart_pos.height, Some(500));
}

#[test]
fn test_bar_chart_legend() {
    let chart = BarChart::new().show_legend(false);
    assert!(!chart.is_legend_shown());

    let chart = BarChart::new().show_legend(true);
    assert!(chart.is_legend_shown());
}

#[test]
fn test_bar_chart_stacked() {
    let chart = BarChart::new().stacked(true);
    assert!(chart.is_stacked());

    let chart = BarChart::new().stacked(false);
    assert!(!chart.is_stacked());
}

#[test]
fn test_bar_chart_builder() {
    let chart = BarChart::new()
        .title("Regional Performance")
        .x_axis_title("Sales Volume")
        .y_axis_title("Region")
        .add_series(
            DataSeries::new("Sheet1!$B$2:$B$4")
                .name("Q1")
                .categories("Sheet1!$A$2:$A$4"),
        )
        .add_series(
            DataSeries::new("Sheet1!$C$2:$C$4")
                .name("Q2")
                .categories("Sheet1!$A$2:$A$4"),
        )
        .stacked(true)
        .show_legend(true);

    assert_eq!(Chart::title(&chart), Some("Regional Performance"));
    assert_eq!(chart.get_x_axis_title(), Some("Sales Volume"));
    assert_eq!(chart.get_y_axis_title(), Some("Region"));
    assert_eq!(chart.get_series().len(), 2);
    assert!(chart.is_stacked());
    assert!(chart.is_legend_shown());
}

#[test]
fn test_bar_chart_trait() {
    let chart = BarChart::new().title("Test Chart");

    assert_eq!(chart.chart_type(), ChartType::Bar);
    assert_eq!(Chart::title(&chart), Some("Test Chart"));
    assert!(Chart::position(&chart).is_none());
}

#[test]
fn test_bar_chart_default() {
    let chart = BarChart::default();
    assert!(Chart::title(&chart).is_none());
    assert_eq!(chart.get_series().len(), 0);
    assert!(!chart.is_stacked());
}

#[test]
fn test_column_chart_new() {
    let chart = ColumnChart::new();
    assert!(Chart::title(&chart).is_none());
    assert_eq!(chart.get_series().len(), 0);
    assert!(chart.is_legend_shown());
    assert!(!chart.is_stacked());
}

#[test]
fn test_column_chart_with_title() {
    let chart = ColumnChart::new().title("Revenue Report");
    assert_eq!(Chart::title(&chart), Some("Revenue Report"));
}

#[test]
fn test_column_chart_with_axis_titles() {
    let chart = ColumnChart::new()
        .x_axis_title("Quarter")
        .y_axis_title("Revenue ($M)");

    assert_eq!(chart.get_x_axis_title(), Some("Quarter"));
    assert_eq!(chart.get_y_axis_title(), Some("Revenue ($M)"));
}

#[test]
fn test_column_chart_with_series() {
    let series = DataSeries::new("Sheet1!$B$2:$B$5").name("Revenue");
    let chart = ColumnChart::new().add_series(series);

    assert_eq!(chart.get_series().len(), 1);
    assert_eq!(chart.get_series()[0].get_name(), Some("Revenue"));
}

#[test]
fn test_column_chart_with_multiple_series() {
    let chart = ColumnChart::new()
        .add_series(DataSeries::new("Sheet1!$B$2:$B$5").name("2023"))
        .add_series(DataSeries::new("Sheet1!$C$2:$C$5").name("2024"));

    assert_eq!(chart.get_series().len(), 2);
    assert_eq!(chart.get_series()[0].get_name(), Some("2023"));
    assert_eq!(chart.get_series()[1].get_name(), Some("2024"));
}

#[test]
fn test_column_chart_with_position() {
    let pos = ChartPosition::new(2, 5).width(600).height(400);
    let chart = ColumnChart::new().position(pos.clone());

    assert!(Chart::position(&chart).is_some());
    let chart_pos = Chart::position(&chart).unwrap();
    assert_eq!(chart_pos.row, 2);
    assert_eq!(chart_pos.col, 5);
    assert_eq!(chart_pos.width, Some(600));
    assert_eq!(chart_pos.height, Some(400));
}

#[test]
fn test_column_chart_legend() {
    let chart = ColumnChart::new().show_legend(false);
    assert!(!chart.is_legend_shown());

    let chart = ColumnChart::new().show_legend(true);
    assert!(chart.is_legend_shown());
}

#[test]
fn test_column_chart_stacked() {
    let chart = ColumnChart::new().stacked(true);
    assert!(chart.is_stacked());

    let chart = ColumnChart::new().stacked(false);
    assert!(!chart.is_stacked());
}

#[test]
fn test_column_chart_builder() {
    let chart = ColumnChart::new()
        .title("Sales Performance")
        .x_axis_title("Product")
        .y_axis_title("Units Sold")
        .add_series(
            DataSeries::new("Sheet1!$B$2:$B$6")
                .name("North")
                .categories("Sheet1!$A$2:$A$6"),
        )
        .add_series(
            DataSeries::new("Sheet1!$C$2:$C$6")
                .name("South")
                .categories("Sheet1!$A$2:$A$6"),
        )
        .stacked(true)
        .show_legend(true);

    assert_eq!(Chart::title(&chart), Some("Sales Performance"));
    assert_eq!(chart.get_x_axis_title(), Some("Product"));
    assert_eq!(chart.get_y_axis_title(), Some("Units Sold"));
    assert_eq!(chart.get_series().len(), 2);
    assert!(chart.is_stacked());
    assert!(chart.is_legend_shown());
}

#[test]
fn test_column_chart_trait() {
    let chart = ColumnChart::new().title("Test Chart");

    assert_eq!(chart.chart_type(), ChartType::Column);
    assert_eq!(Chart::title(&chart), Some("Test Chart"));
    assert!(Chart::position(&chart).is_none());
}

#[test]
fn test_column_chart_default() {
    let chart = ColumnChart::default();
    assert!(Chart::title(&chart).is_none());
    assert_eq!(chart.get_series().len(), 0);
    assert!(!chart.is_stacked());
}

#[test]
fn test_pie_chart_new() {
    let chart = PieChart::new();
    assert!(Chart::title(&chart).is_none());
    assert_eq!(chart.get_series().len(), 0);
    assert!(chart.is_legend_shown());
}

#[test]
fn test_pie_chart_with_title() {
    let chart = PieChart::new().title("Market Share");
    assert_eq!(Chart::title(&chart), Some("Market Share"));
}

#[test]
fn test_pie_chart_with_series() {
    let series = DataSeries::new("Sheet1!$B$2:$B$5")
        .name("Products")
        .categories("Sheet1!$A$2:$A$5");
    let chart = PieChart::new().add_series(series);

    assert_eq!(chart.get_series().len(), 1);
    assert_eq!(chart.get_series()[0].get_name(), Some("Products"));
    assert_eq!(
        chart.get_series()[0].get_categories(),
        Some("Sheet1!$A$2:$A$5")
    );
}

#[test]
fn test_pie_chart_with_multiple_series() {
    let chart = PieChart::new()
        .add_series(
            DataSeries::new("Sheet1!$B$2:$B$5")
                .name("Q1")
                .categories("Sheet1!$A$2:$A$5"),
        )
        .add_series(
            DataSeries::new("Sheet1!$C$2:$C$5")
                .name("Q2")
                .categories("Sheet1!$A$2:$A$5"),
        );

    assert_eq!(chart.get_series().len(), 2);
    assert_eq!(chart.get_series()[0].get_name(), Some("Q1"));
    assert_eq!(chart.get_series()[1].get_name(), Some("Q2"));
}

#[test]
fn test_pie_chart_with_position() {
    let pos = ChartPosition::new(1, 4).width(500).height(500);
    let chart = PieChart::new().position(pos.clone());

    assert!(Chart::position(&chart).is_some());
    let chart_pos = Chart::position(&chart).unwrap();
    assert_eq!(chart_pos.row, 1);
    assert_eq!(chart_pos.col, 4);
    assert_eq!(chart_pos.width, Some(500));
    assert_eq!(chart_pos.height, Some(500));
}

#[test]
fn test_pie_chart_legend() {
    let chart = PieChart::new().show_legend(false);
    assert!(!chart.is_legend_shown());

    let chart = PieChart::new().show_legend(true);
    assert!(chart.is_legend_shown());
}

#[test]
fn test_pie_chart_builder() {
    let chart = PieChart::new()
        .title("Sales Distribution")
        .add_series(
            DataSeries::new("Sheet1!$B$2:$B$6")
                .name("Revenue")
                .categories("Sheet1!$A$2:$A$6"),
        )
        .show_legend(true);

    assert_eq!(Chart::title(&chart), Some("Sales Distribution"));
    assert_eq!(chart.get_series().len(), 1);
    assert!(chart.is_legend_shown());
}

#[test]
fn test_pie_chart_trait() {
    let chart = PieChart::new().title("Test Chart");

    assert_eq!(chart.chart_type(), ChartType::Pie);
    assert_eq!(Chart::title(&chart), Some("Test Chart"));
    assert!(Chart::position(&chart).is_none());
}

#[test]
fn test_pie_chart_default() {
    let chart = PieChart::default();
    assert!(Chart::title(&chart).is_none());
    assert_eq!(chart.get_series().len(), 0);
    assert!(chart.is_legend_shown());
}

#[test]
fn test_pie_chart_complete() {
    let pos = ChartPosition::new(2, 8).width(600).height(400);
    let chart = PieChart::new()
        .title("Product Distribution")
        .add_series(
            DataSeries::new("Sheet1!$B$2:$B$8")
                .name("2024 Sales")
                .categories("Sheet1!$A$2:$A$8"),
        )
        .position(pos)
        .show_legend(true);

    assert_eq!(Chart::title(&chart), Some("Product Distribution"));
    assert_eq!(chart.get_series().len(), 1);
    assert_eq!(chart.get_series()[0].get_name(), Some("2024 Sales"));
    assert!(chart.is_legend_shown());
    assert!(Chart::position(&chart).is_some());
}

#[test]
fn test_doughnut_chart_new() {
    let chart = DoughnutChart::new();
    assert!(Chart::title(&chart).is_none());
    assert_eq!(chart.get_series().len(), 0);
    assert!(chart.is_legend_shown());
}

#[test]
fn test_doughnut_chart_with_title() {
    let chart = DoughnutChart::new().title("Budget Allocation");
    assert_eq!(Chart::title(&chart), Some("Budget Allocation"));
}

#[test]
fn test_doughnut_chart_with_series() {
    let series = DataSeries::new("Sheet1!$B$2:$B$6")
        .name("Departments")
        .categories("Sheet1!$A$2:$A$6");
    let chart = DoughnutChart::new().add_series(series);

    assert_eq!(chart.get_series().len(), 1);
    assert_eq!(chart.get_series()[0].get_name(), Some("Departments"));
    assert_eq!(
        chart.get_series()[0].get_categories(),
        Some("Sheet1!$A$2:$A$6")
    );
}

#[test]
fn test_doughnut_chart_with_multiple_series() {
    let chart = DoughnutChart::new()
        .add_series(
            DataSeries::new("Sheet1!$B$2:$B$6")
                .name("2023")
                .categories("Sheet1!$A$2:$A$6"),
        )
        .add_series(
            DataSeries::new("Sheet1!$C$2:$C$6")
                .name("2024")
                .categories("Sheet1!$A$2:$A$6"),
        );

    assert_eq!(chart.get_series().len(), 2);
    assert_eq!(chart.get_series()[0].get_name(), Some("2023"));
    assert_eq!(chart.get_series()[1].get_name(), Some("2024"));
}

#[test]
fn test_doughnut_chart_with_position() {
    let pos = ChartPosition::new(2, 3).width(550).height(450);
    let chart = DoughnutChart::new().position(pos.clone());

    assert!(Chart::position(&chart).is_some());
    let chart_pos = Chart::position(&chart).unwrap();
    assert_eq!(chart_pos.row, 2);
    assert_eq!(chart_pos.col, 3);
    assert_eq!(chart_pos.width, Some(550));
    assert_eq!(chart_pos.height, Some(450));
}

#[test]
fn test_doughnut_chart_legend() {
    let chart = DoughnutChart::new().show_legend(false);
    assert!(!chart.is_legend_shown());

    let chart = DoughnutChart::new().show_legend(true);
    assert!(chart.is_legend_shown());
}

#[test]
fn test_doughnut_chart_builder() {
    let chart = DoughnutChart::new()
        .title("Expense Distribution")
        .add_series(
            DataSeries::new("Sheet1!$B$2:$B$7")
                .name("Expenses")
                .categories("Sheet1!$A$2:$A$7"),
        )
        .show_legend(true);

    assert_eq!(Chart::title(&chart), Some("Expense Distribution"));
    assert_eq!(chart.get_series().len(), 1);
    assert!(chart.is_legend_shown());
}

#[test]
fn test_doughnut_chart_trait() {
    let chart = DoughnutChart::new().title("Test Chart");

    assert_eq!(chart.chart_type(), ChartType::Doughnut);
    assert_eq!(Chart::title(&chart), Some("Test Chart"));
    assert!(Chart::position(&chart).is_none());
}

#[test]
fn test_doughnut_chart_default() {
    let chart = DoughnutChart::default();
    assert!(Chart::title(&chart).is_none());
    assert_eq!(chart.get_series().len(), 0);
    assert!(chart.is_legend_shown());
}

#[test]
fn test_doughnut_chart_complete() {
    let pos = ChartPosition::new(3, 5).width(650).height(500);
    let chart = DoughnutChart::new()
        .title("Portfolio Allocation")
        .add_series(
            DataSeries::new("Sheet1!$B$2:$B$10")
                .name("Investments")
                .categories("Sheet1!$A$2:$A$10"),
        )
        .position(pos)
        .show_legend(true);

    assert_eq!(Chart::title(&chart), Some("Portfolio Allocation"));
    assert_eq!(chart.get_series().len(), 1);
    assert_eq!(chart.get_series()[0].get_name(), Some("Investments"));
    assert!(chart.is_legend_shown());
    assert!(Chart::position(&chart).is_some());
}

#[test]
fn test_scatter_chart_new() {
    let chart = ScatterChart::new();
    assert!(Chart::title(&chart).is_none());
    assert_eq!(chart.get_series().len(), 0);
    assert!(chart.is_legend_shown());
}

#[test]
fn test_scatter_chart_with_title() {
    let chart = ScatterChart::new().title("Temperature vs Pressure");
    assert_eq!(Chart::title(&chart), Some("Temperature vs Pressure"));
}

#[test]
fn test_scatter_chart_with_axis_titles() {
    let chart = ScatterChart::new()
        .x_axis_title("Temperature (°C)")
        .y_axis_title("Pressure (bar)");

    assert_eq!(chart.get_x_axis_title(), Some("Temperature (°C)"));
    assert_eq!(chart.get_y_axis_title(), Some("Pressure (bar)"));
}

#[test]
fn test_scatter_chart_with_series() {
    let series = DataSeries::new("Sheet1!$B$2:$B$10")
        .name("Experiment 1")
        .categories("Sheet1!$A$2:$A$10");
    let chart = ScatterChart::new().add_series(series);

    assert_eq!(chart.get_series().len(), 1);
    assert_eq!(chart.get_series()[0].get_name(), Some("Experiment 1"));
}

#[test]
fn test_scatter_chart_with_multiple_series() {
    let chart = ScatterChart::new()
        .add_series(
            DataSeries::new("Sheet1!$B$2:$B$10")
                .name("Series A")
                .categories("Sheet1!$A$2:$A$10"),
        )
        .add_series(
            DataSeries::new("Sheet1!$C$2:$C$10")
                .name("Series B")
                .categories("Sheet1!$A$2:$A$10"),
        );

    assert_eq!(chart.get_series().len(), 2);
    assert_eq!(chart.get_series()[0].get_name(), Some("Series A"));
    assert_eq!(chart.get_series()[1].get_name(), Some("Series B"));
}

#[test]
fn test_scatter_chart_with_position() {
    let pos = ChartPosition::new(4, 6).width(800).height(600);
    let chart = ScatterChart::new().position(pos.clone());

    assert!(Chart::position(&chart).is_some());
    let chart_pos = Chart::position(&chart).unwrap();
    assert_eq!(chart_pos.row, 4);
    assert_eq!(chart_pos.col, 6);
    assert_eq!(chart_pos.width, Some(800));
    assert_eq!(chart_pos.height, Some(600));
}

#[test]
fn test_scatter_chart_legend() {
    let chart = ScatterChart::new().show_legend(false);
    assert!(!chart.is_legend_shown());

    let chart = ScatterChart::new().show_legend(true);
    assert!(chart.is_legend_shown());
}

#[test]
fn test_scatter_chart_builder() {
    let chart = ScatterChart::new()
        .title("Correlation Analysis")
        .x_axis_title("Independent Variable")
        .y_axis_title("Dependent Variable")
        .add_series(
            DataSeries::new("Sheet1!$B$2:$B$20")
                .name("Dataset 1")
                .categories("Sheet1!$A$2:$A$20"),
        )
        .show_legend(true);

    assert_eq!(Chart::title(&chart), Some("Correlation Analysis"));
    assert_eq!(chart.get_x_axis_title(), Some("Independent Variable"));
    assert_eq!(chart.get_y_axis_title(), Some("Dependent Variable"));
    assert_eq!(chart.get_series().len(), 1);
    assert!(chart.is_legend_shown());
}

#[test]
fn test_scatter_chart_trait() {
    let chart = ScatterChart::new().title("Test Chart");

    assert_eq!(chart.chart_type(), ChartType::Scatter);
    assert_eq!(Chart::title(&chart), Some("Test Chart"));
    assert!(Chart::position(&chart).is_none());
}

#[test]
fn test_scatter_chart_default() {
    let chart = ScatterChart::default();
    assert!(Chart::title(&chart).is_none());
    assert_eq!(chart.get_series().len(), 0);
    assert!(chart.is_legend_shown());
}
