//! Tests for the styling configuration types.

use xlsxpress::styles::{
    Alignment, Border, BorderStyle, Fill, FillPattern, Font, HorizontalAlignment, NumberFormat,
    NumberFormatType, Style, VerticalAlignment,
};

#[test]
fn test_alignment_new() {
    let align = Alignment::new();
    assert_eq!(align.get_horizontal(), None);
    assert_eq!(align.get_vertical(), None);
    assert!(!align.is_wrapped());
    assert_eq!(align.get_rotation(), None);
    assert_eq!(align.get_indent(), None);
    assert!(!align.is_shrink_to_fit());
}

#[test]
fn test_horizontal_alignment() {
    let align = Alignment::new().horizontal(HorizontalAlignment::Center);
    assert_eq!(align.get_horizontal(), Some(HorizontalAlignment::Center));

    let align = Alignment::new().horizontal(HorizontalAlignment::Right);
    assert_eq!(align.get_horizontal(), Some(HorizontalAlignment::Right));
}

#[test]
fn test_vertical_alignment() {
    let align = Alignment::new().vertical(VerticalAlignment::Center);
    assert_eq!(align.get_vertical(), Some(VerticalAlignment::Center));

    let align = Alignment::new().vertical(VerticalAlignment::Bottom);
    assert_eq!(align.get_vertical(), Some(VerticalAlignment::Bottom));
}

#[test]
fn test_wrap_text() {
    let align = Alignment::new().wrap_text(true);
    assert!(align.is_wrapped());

    let align = Alignment::new().wrap_text(false);
    assert!(!align.is_wrapped());
}

#[test]
fn test_rotation() {
    let align = Alignment::new().rotation(45);
    assert_eq!(align.get_rotation(), Some(45));

    let align = Alignment::new().rotation(90);
    assert_eq!(align.get_rotation(), Some(90));
}

#[test]
fn test_rotation_clamping() {
    let align = Alignment::new().rotation(400);
    assert_eq!(align.get_rotation(), Some(39)); // 400 % 361 = 39
}

#[test]
fn test_indent() {
    let align = Alignment::new().indent(3);
    assert_eq!(align.get_indent(), Some(3));

    let align = Alignment::new().indent(10);
    assert_eq!(align.get_indent(), Some(10));
}

#[test]
fn test_indent_clamping() {
    let align = Alignment::new().indent(20);
    assert_eq!(align.get_indent(), Some(15)); // Clamped to max 15
}

#[test]
fn test_shrink_to_fit() {
    let align = Alignment::new().shrink_to_fit(true);
    assert!(align.is_shrink_to_fit());

    let align = Alignment::new().shrink_to_fit(false);
    assert!(!align.is_shrink_to_fit());
}

#[test]
fn test_alignment_builder() {
    let align = Alignment::new()
        .horizontal(HorizontalAlignment::Center)
        .vertical(VerticalAlignment::Center)
        .wrap_text(true)
        .rotation(45)
        .indent(2)
        .shrink_to_fit(true);

    assert_eq!(align.get_horizontal(), Some(HorizontalAlignment::Center));
    assert_eq!(align.get_vertical(), Some(VerticalAlignment::Center));
    assert!(align.is_wrapped());
    assert_eq!(align.get_rotation(), Some(45));
    assert_eq!(align.get_indent(), Some(2));
    assert!(align.is_shrink_to_fit());
}

#[test]
fn test_alignment_default() {
    let align = Alignment::default();
    assert_eq!(align.get_horizontal(), None);
    assert!(!align.is_wrapped());
}

#[test]
fn test_number_format_new() {
    let fmt = NumberFormat::new();
    assert_eq!(*fmt.get_format_type(), NumberFormatType::General);
    assert_eq!(fmt.get_decimals(), None);
}

#[test]
fn test_general_format() {
    let fmt = NumberFormat::general();
    assert_eq!(*fmt.get_format_type(), NumberFormatType::General);
    assert_eq!(fmt.get_format_string(), "General");
}

#[test]
fn test_number_format() {
    let fmt = NumberFormat::number(2);
    assert_eq!(*fmt.get_format_type(), NumberFormatType::Number);
    assert_eq!(fmt.get_decimals(), Some(2));
    assert_eq!(fmt.get_format_string(), "0.00");

    let fmt = NumberFormat::number(0);
    assert_eq!(fmt.get_format_string(), "0");
}

#[test]
fn test_currency_format() {
    let fmt = NumberFormat::currency(2);
    assert_eq!(*fmt.get_format_type(), NumberFormatType::Currency);
    assert_eq!(fmt.get_decimals(), Some(2));
    assert_eq!(fmt.get_format_string(), "$#,##0.00");

    let fmt = NumberFormat::currency(0);
    assert_eq!(fmt.get_format_string(), "$#,##0");
}

#[test]
fn test_accounting_format() {
    let fmt = NumberFormat::accounting(2);
    assert_eq!(*fmt.get_format_type(), NumberFormatType::Accounting);
    assert_eq!(fmt.get_decimals(), Some(2));
    assert!(fmt.get_format_string().contains('$'));
}

#[test]
fn test_date_format() {
    let fmt = NumberFormat::date();
    assert_eq!(*fmt.get_format_type(), NumberFormatType::Date);
    assert_eq!(fmt.get_format_string(), "yyyy-mm-dd");
}

#[test]
fn test_time_format() {
    let fmt = NumberFormat::time();
    assert_eq!(*fmt.get_format_type(), NumberFormatType::Time);
    assert_eq!(fmt.get_format_string(), "hh:mm:ss");
}

#[test]
fn test_percentage_format() {
    let fmt = NumberFormat::percentage(2);
    assert_eq!(*fmt.get_format_type(), NumberFormatType::Percentage);
    assert_eq!(fmt.get_decimals(), Some(2));
    assert_eq!(fmt.get_format_string(), "0.00%");

    let fmt = NumberFormat::percentage(0);
    assert_eq!(fmt.get_format_string(), "0%");
}

#[test]
fn test_fraction_format() {
    let fmt = NumberFormat::fraction();
    assert_eq!(*fmt.get_format_type(), NumberFormatType::Fraction);
    assert_eq!(fmt.get_format_string(), "# ?/?");
}

#[test]
fn test_scientific_format() {
    let fmt = NumberFormat::scientific(2);
    assert_eq!(*fmt.get_format_type(), NumberFormatType::Scientific);
    assert_eq!(fmt.get_decimals(), Some(2));
    assert_eq!(fmt.get_format_string(), "0.00E+00");

    let fmt = NumberFormat::scientific(0);
    assert_eq!(fmt.get_format_string(), "0E+00");
}

#[test]
fn test_text_format() {
    let fmt = NumberFormat::text();
    assert_eq!(*fmt.get_format_type(), NumberFormatType::Text);
    assert_eq!(fmt.get_format_string(), "@");
}

#[test]
fn test_custom_format() {
    let fmt = NumberFormat::custom("0.00%");
    assert_eq!(
        *fmt.get_format_type(),
        NumberFormatType::Custom(String::from("0.00%"))
    );
    assert_eq!(fmt.get_format_string(), "0.00%");

    let fmt = NumberFormat::custom("$#,##0.00_);[Red]($#,##0.00)");
    assert_eq!(fmt.get_format_string(), "$#,##0.00_);[Red]($#,##0.00)");
}

#[test]
fn test_accounting_format_exact() {
    assert_eq!(
        NumberFormat::accounting(0).get_format_string(),
        "_($* #,##0_);_($* (#,##0);_($* \"-\"_);_(@_)"
    );
    assert_eq!(
        NumberFormat::accounting(2).get_format_string(),
        "_($* #,##0.00_);_($* (#,##0.00);_($* \"-\"??_);_(@_)"
    );
}

#[test]
fn test_decimal_clamping() {
    let fmt = NumberFormat::number(50);
    assert_eq!(fmt.get_decimals(), Some(30)); // Clamped to max 30
}

#[test]
fn test_number_format_default() {
    let fmt = NumberFormat::default();
    assert_eq!(*fmt.get_format_type(), NumberFormatType::General);
}

#[test]
fn test_border_new() {
    let border = Border::new();
    assert_eq!(border.get_top(), BorderStyle::NoBorder);
    assert_eq!(border.get_bottom(), BorderStyle::NoBorder);
    assert_eq!(border.get_left(), BorderStyle::NoBorder);
    assert_eq!(border.get_right(), BorderStyle::NoBorder);
}

#[test]
fn test_border_all() {
    let border = Border::all(BorderStyle::Thin);
    assert_eq!(border.get_top(), BorderStyle::Thin);
    assert_eq!(border.get_bottom(), BorderStyle::Thin);
    assert_eq!(border.get_left(), BorderStyle::Thin);
    assert_eq!(border.get_right(), BorderStyle::Thin);
}

#[test]
fn test_border_outline() {
    let border = Border::outline(BorderStyle::Medium);
    assert_eq!(border.get_top(), BorderStyle::Medium);
    assert_eq!(border.get_bottom(), BorderStyle::Medium);
    assert_eq!(border.get_left(), BorderStyle::Medium);
    assert_eq!(border.get_right(), BorderStyle::Medium);
}

#[test]
fn test_border_individual() {
    let border = Border::new()
        .top(BorderStyle::Thick)
        .bottom(BorderStyle::Thin);

    assert_eq!(border.get_top(), BorderStyle::Thick);
    assert_eq!(border.get_bottom(), BorderStyle::Thin);
    assert_eq!(border.get_left(), BorderStyle::NoBorder);
    assert_eq!(border.get_right(), BorderStyle::NoBorder);
}

#[test]
fn test_border_color() {
    let border = Border::all(BorderStyle::Thin).color("#FF0000");
    assert!(border.get_color().is_some());
}

#[test]
fn test_border_rgb() {
    let border = Border::all(BorderStyle::Thin).rgb(0, 0, 255);
    assert!(border.get_color().is_some());
}

#[test]
fn test_border_builder() {
    let border = Border::new()
        .top(BorderStyle::Thick)
        .bottom(BorderStyle::Thick)
        .left(BorderStyle::Thin)
        .right(BorderStyle::Thin)
        .color("#000000");

    assert_eq!(border.get_top(), BorderStyle::Thick);
    assert_eq!(border.get_bottom(), BorderStyle::Thick);
    assert_eq!(border.get_left(), BorderStyle::Thin);
    assert_eq!(border.get_right(), BorderStyle::Thin);
    assert!(border.get_color().is_some());
}

#[test]
fn test_border_diagonal() {
    let border = Border::new()
        .diagonal_up(BorderStyle::Thin)
        .diagonal_down(BorderStyle::Thin);

    assert_eq!(border.get_diagonal_up(), BorderStyle::Thin);
    assert_eq!(border.get_diagonal_down(), BorderStyle::Thin);
}

#[test]
fn test_border_default() {
    let border = Border::default();
    assert_eq!(border.get_top(), BorderStyle::NoBorder);
}

#[test]
fn test_border_color_value() {
    // The parsed color is the hex value itself, not a placeholder.
    let border = Border::new().color("#FF00FF");
    assert_eq!(border.get_color(), Some(0xFF00FF));
    let border = Border::new().rgb(1, 2, 3);
    assert_eq!(border.get_color(), Some(0x010203));
    let border = Border::new().color("not a color");
    assert_eq!(border.get_color(), None);
}

#[test]
fn test_fill_new() {
    let fill = Fill::new();
    assert_eq!(fill.get_pattern(), FillPattern::Solid);
    assert!(fill.get_foreground_color().is_none());
    assert!(fill.get_background_color().is_none());
}

#[test]
fn test_fill_solid() {
    let fill = Fill::solid("#FFFF00");
    assert_eq!(fill.get_pattern(), FillPattern::Solid);
    assert!(fill.get_foreground_color().is_some());
}

#[test]
fn test_fill_solid_no_hash() {
    let fill = Fill::solid("FF0000");
    assert!(fill.get_foreground_color().is_some());
}

#[test]
fn test_fill_pattern() {
    let fill = Fill::pattern(FillPattern::LightGray);
    assert_eq!(fill.get_pattern(), FillPattern::LightGray);
}

#[test]
fn test_fill_set_pattern() {
    let fill = Fill::new().set_pattern(FillPattern::DarkGray);
    assert_eq!(fill.get_pattern(), FillPattern::DarkGray);
}

#[test]
fn test_fill_rgb() {
    let fill = Fill::new().rgb(255, 0, 0);
    assert!(fill.get_foreground_color().is_some());
}

#[test]
fn test_fill_background_color() {
    let fill = Fill::new().background_color("#FFFFFF");
    assert!(fill.get_background_color().is_some());
}

#[test]
fn test_fill_builder() {
    let fill = Fill::new()
        .set_pattern(FillPattern::Solid)
        .rgb(0, 255, 0)
        .background_color("#000000");

    assert_eq!(fill.get_pattern(), FillPattern::Solid);
    assert!(fill.get_foreground_color().is_some());
    assert!(fill.get_background_color().is_some());
}

#[test]
fn test_fill_default() {
    let fill = Fill::default();
    assert_eq!(fill.get_pattern(), FillPattern::Solid);
}

#[test]
fn test_fill_color_values() {
    let fill = Fill::solid("#FFFF00");
    assert_eq!(fill.get_foreground_color(), Some(0xFFFF00));
    let fill = Fill::new().rgb(255, 0, 0);
    assert_eq!(fill.get_foreground_color(), Some(0xFF0000));
}

#[test]
fn test_font_new() {
    let font = Font::new();
    assert_eq!(font.get_name(), None);
    assert_eq!(font.get_size(), None);
    assert!(!font.is_bold());
    assert!(!font.is_italic());
}

#[test]
fn test_font_name() {
    let font = Font::new().name("Arial");
    assert_eq!(font.get_name(), Some("Arial"));
}

#[test]
fn test_font_size() {
    let font = Font::new().size(12.0f64.to_bits());
    assert_eq!(font.get_size(), Some(12.0f64.to_bits()));
}

#[test]
fn test_font_bold() {
    let font = Font::new().bold(true);
    assert!(font.is_bold());

    let font = Font::new().bold(false);
    assert!(!font.is_bold());
}

#[test]
fn test_font_italic() {
    let font = Font::new().italic(true);
    assert!(font.is_italic());

    let font = Font::new().italic(false);
    assert!(!font.is_italic());
}

#[test]
fn test_font_color_hex() {
    let font = Font::new().color("#FF0000");
    assert!(font.get_color().is_some());

    let font = Font::new().color("00FF00");
    assert!(font.get_color().is_some());
}

#[test]
fn test_font_color_rgb() {
    let font = Font::new().rgb(255, 0, 0);
    assert!(font.get_color().is_some());
}

#[test]
fn test_font_builder() {
    let font = Font::new()
        .name("Calibri")
        .size(14.0f64.to_bits())
        .bold(true)
        .italic(true)
        .color("#0000FF");

    assert_eq!(font.get_name(), Some("Calibri"));
    assert_eq!(font.get_size(), Some(14.0f64.to_bits()));
    assert!(font.is_bold());
    assert!(font.is_italic());
    assert!(font.get_color().is_some());
}

#[test]
fn test_font_default() {
    let font = Font::default();
    assert_eq!(font.get_name(), None);
    assert!(!font.is_bold());
}

#[test]
fn test_style_new() {
    let style = Style::new();
    assert!(style.get_font().is_none());
    assert!(style.get_fill().is_none());
    assert!(style.get_border().is_none());
    assert!(style.get_alignment().is_none());
    assert!(style.get_number_format().is_none());
}

#[test]
fn test_style_with_font() {
    let font = Font::new().bold(true).size(14.0f64.to_bits());
    let style = Style::new().font(font.clone());

    assert!(style.get_font().is_some());
    let style_font = style.get_font().unwrap();
    assert!(style_font.is_bold());
    assert_eq!(style_font.get_size(), Some(14.0f64.to_bits()));
}

#[test]
fn test_style_with_fill() {
    let fill = Fill::solid("#FFFF00");
    let style = Style::new().fill(fill.clone());

    assert!(style.get_fill().is_some());
    let style_fill = style.get_fill().unwrap();
    assert_eq!(style_fill.get_pattern(), FillPattern::Solid);
}

#[test]
fn test_style_with_border() {
    let border = Border::all(BorderStyle::Thin);
    let style = Style::new().border(border.clone());

    assert!(style.get_border().is_some());
    let style_border = style.get_border().unwrap();
    assert_eq!(style_border.get_top(), BorderStyle::Thin);
}

#[test]
fn test_style_with_alignment() {
    let alignment = Alignment::new().horizontal(HorizontalAlignment::Center);
    let style = Style::new().alignment(alignment.clone());

    assert!(style.get_alignment().is_some());
    let style_alignment = style.get_alignment().unwrap();
    assert_eq!(
        style_alignment.get_horizontal(),
        Some(HorizontalAlignment::Center)
    );
}

#[test]
fn test_style_with_number_format() {
    let number_format = NumberFormat::currency(2);
    let style = Style::new().number_format(number_format.clone());

    assert!(style.get_number_format().is_some());
    let style_number_format = style.get_number_format().unwrap();
    assert_eq!(style_number_format.get_decimals(), Some(2));
}

#[test]
fn test_style_builder_complete() {
    let style = Style::new()
        .font(Font::new().bold(true).size(14.0f64.to_bits()).color("#FF0000"))
        .fill(Fill::solid("#FFFF00"))
        .border(Border::all(BorderStyle::Thin))
        .alignment(Alignment::new().horizontal(HorizontalAlignment::Center))
        .number_format(NumberFormat::currency(2));

    assert!(style.get_font().is_some());
    assert!(style.get_fill().is_some());
    assert!(style.get_border().is_some());
    assert!(style.get_alignment().is_some());
    assert!(style.get_number_format().is_some());
}

#[test]
fn test_style_builder_partial() {
    let style = Style::new()
        .font(Font::new().bold(true))
        .fill(Fill::solid("#FFFF00"));

    assert!(style.get_font().is_some());
    assert!(style.get_fill().is_some());
    assert!(style.get_border().is_none());
    assert!(style.get_alignment().is_none());
    assert!(style.get_number_format().is_none());
}

#[test]
fn test_style_default() {
    let style = Style::default();
    assert!(style.get_font().is_none());
    assert!(style.get_fill().is_none());
}

#[test]
fn test_style_clone() {
    let style1 = Style::new()
        .font(Font::new().bold(true))
        .fill(Fill::solid("#FFFF00"));

    let style2 = style1.clone();

    assert!(style2.get_font().is_some());
    assert!(style2.get_fill().is_some());
    assert_eq!(style1, style2);
}
