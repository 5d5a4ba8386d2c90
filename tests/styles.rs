use pdf_styles::units::{Color, Fixed, FIXED_SCALE};
use pdf_styles::value::{JsContent, JsParamValue, find_entry, text_eq};
use pdf_styles::styles::{
    get_cell_style, get_color, get_paragraph_style, get_table_style, CellStyle, HorizontalAlign,
    ParagraphStyle, TableStyle, VerticalAlign, LEADING_GAP,
};

fn num(millionths: i64) -> JsParamValue {
    JsParamValue::Number(Fixed(millionths))
}

fn text(s: &str) -> JsParamValue {
    JsParamValue::Text(s.to_string())
}

fn obj(entries: Vec<(&str, JsParamValue)>) -> JsParamValue {
    JsParamValue::Object(entries.into_iter().map(|(k, v)| (k.to_string(), v)).collect())
}

fn node(entries: Vec<(&str, JsParamValue)>) -> JsContent {
    JsContent { params: entries.into_iter().map(|(k, v)| (k.to_string(), v)).collect() }
}

fn default_table() -> TableStyle {
    TableStyle::new()
}

fn black() -> Color {
    Color::new(Fixed(0), Fixed(0), Fixed(0))
}

#[test]
fn table_defaults_from_empty_params() {
    let t = get_table_style(&node(vec![]));
    assert_eq!(t, default_table());
    assert!(!t.grid_visible);
    assert_eq!(t.grid_width, Fixed(FIXED_SCALE));
    assert_eq!(t.grid_color, black());
    assert_eq!(t.padding_top, Fixed(0));
    assert_eq!(t.padding_right, Fixed(0));
    assert_eq!(t.horizontal_align, HorizontalAlign::Left);
    assert_eq!(t.vertical_align, VerticalAlign::Top);
}

#[test]
fn paragraph_defaults_from_empty_params() {
    let p = get_paragraph_style(&node(vec![]), Fixed(10_000_000));
    assert_eq!(p.leading, Fixed(12_000_000));
    assert_eq!(p.align, HorizontalAlign::Left);
    assert_eq!(p.bullet, None);
    assert_eq!(p.bullet_indent, Fixed(0));
    assert_eq!(p.padding, (Fixed(0), Fixed(0), Fixed(0), Fixed(0)));
}

#[test]
fn cell_defaults_from_empty_params() {
    assert_eq!(get_cell_style(&node(vec![])), CellStyle::new());
    assert_eq!(CellStyle::new().background_color, None);
}

#[test]
fn color_decodes_three_numbers() {
    let c = get_color(&JsParamValue::Array(vec![num(200_000), num(400_000), num(600_000)]));
    assert_eq!(c, Some(Color::new(Fixed(200_000), Fixed(400_000), Fixed(600_000))));
}

#[test]
fn color_rejects_two_or_four_elements() {
    assert_eq!(get_color(&JsParamValue::Array(vec![num(200_000), num(400_000)])), None);
    let four = vec![num(200_000), num(400_000), num(600_000), num(800_000)];
    assert_eq!(get_color(&JsParamValue::Array(four)), None);
    assert_eq!(get_color(&JsParamValue::Array(vec![])), None);
}

#[test]
fn color_partial_decode_keeps_zero_channel() {
    let c = get_color(&JsParamValue::Array(vec![text("x"), num(400_000), num(600_000)]));
    assert_eq!(c, Some(Color::new(Fixed(0), Fixed(400_000), Fixed(600_000))));
}

#[test]
fn color_rejects_non_array() {
    assert_eq!(get_color(&num(1_000_000)), None);
    assert_eq!(get_color(&text("red")), None);
    assert_eq!(get_color(&obj(vec![])), None);
}

#[test]
fn color_passes_out_of_range_channels() {
    let c = get_color(&JsParamValue::Array(vec![num(-500_000), num(2_000_000), num(1_000_000)]));
    assert_eq!(c, Some(Color::new(Fixed(-500_000), Fixed(2_000_000), Fixed(1_000_000))));
}

#[test]
fn table_empty_grid_object_shows_default_grid() {
    let t = get_table_style(&node(vec![("style", obj(vec![("grid", obj(vec![]))]))]));
    assert!(t.grid_visible);
    assert_eq!(t.grid_width, Fixed(1_000_000));
    assert_eq!(t.grid_color, black());
    assert_eq!(t, TableStyle { grid_visible: true, ..default_table() });
}

#[test]
fn table_grid_present_but_not_object_shows_grid() {
    let t = get_table_style(&node(vec![("style", obj(vec![("grid", num(3))]))]));
    assert_eq!(t, TableStyle { grid_visible: true, ..default_table() });
}

#[test]
fn table_grid_width_and_color() {
    let grid = obj(vec![
        ("width", num(500_000)),
        ("color", JsParamValue::Array(vec![num(1_000_000), num(0), num(250_000)])),
    ]);
    let t = get_table_style(&node(vec![("style", obj(vec![("grid", grid)]))]));
    assert!(t.grid_visible);
    assert_eq!(t.grid_width, Fixed(500_000));
    assert_eq!(t.grid_color, Color::new(Fixed(1_000_000), Fixed(0), Fixed(250_000)));
    assert_eq!(t.padding_top, Fixed(0));
}

#[test]
fn table_grid_bad_color_keeps_black() {
    let grid = obj(vec![("color", JsParamValue::Array(vec![num(1_000_000), num(0)]))]);
    let t = get_table_style(&node(vec![("style", obj(vec![("grid", grid)]))]));
    assert_eq!(t, TableStyle { grid_visible: true, ..default_table() });
}

#[test]
fn table_grid_width_wrong_type_is_ignored() {
    let grid = obj(vec![("width", text("thick"))]);
    let t = get_table_style(&node(vec![("style", obj(vec![("grid", grid)]))]));
    assert_eq!(t, TableStyle { grid_visible: true, ..default_table() });
}

#[test]
fn table_padding_top_alone() {
    let pad = obj(vec![("top", num(4_500_000))]);
    let t = get_table_style(&node(vec![("style", obj(vec![("padding", pad)]))]));
    assert_eq!(t, TableStyle { padding_top: Fixed(4_500_000), ..default_table() });
}

#[test]
fn table_padding_each_edge() {
    let pad = obj(vec![
        ("top", num(1_000_000)),
        ("left", num(2_000_000)),
        ("bottom", num(3_000_000)),
        ("right", num(-4_000_000)),
    ]);
    let t = get_table_style(&node(vec![("style", obj(vec![("padding", pad)]))]));
    assert_eq!(t.padding_top, Fixed(1_000_000));
    assert_eq!(t.padding_left, Fixed(2_000_000));
    assert_eq!(t.padding_bottom, Fixed(3_000_000));
    assert_eq!(t.padding_right, Fixed(-4_000_000));
    assert!(!t.grid_visible);
}

#[test]
fn table_padding_wrong_type_is_ignored() {
    let pad = obj(vec![("left", text("wide"))]);
    let t = get_table_style(&node(vec![("style", obj(vec![("padding", pad)]))]));
    assert_eq!(t, default_table());
    let t = get_table_style(&node(vec![("style", obj(vec![("padding", num(5))]))]));
    assert_eq!(t, default_table());
}

#[test]
fn table_align_recognised_words() {
    let align = obj(vec![("horizontal", text("center")), ("vertical", text("bottom"))]);
    let t = get_table_style(&node(vec![("style", obj(vec![("align", align)]))]));
    assert_eq!(t.horizontal_align, HorizontalAlign::Center);
    assert_eq!(t.vertical_align, VerticalAlign::Bottom);
    let align = obj(vec![("horizontal", text("right")), ("vertical", text("middle"))]);
    let t = get_table_style(&node(vec![("style", obj(vec![("align", align)]))]));
    assert_eq!(t, TableStyle {
        horizontal_align: HorizontalAlign::Right,
        vertical_align: VerticalAlign::Middle,
        ..default_table()
    });
}

#[test]
fn table_align_unrecognised_is_default() {
    let align = obj(vec![("horizontal", text("up")), ("vertical", text("up"))]);
    let t = get_table_style(&node(vec![("style", obj(vec![("align", align)]))]));
    let absent = get_table_style(&node(vec![("style", obj(vec![]))]));
    assert_eq!(t, absent);
    assert_eq!(t.horizontal_align, HorizontalAlign::Left);
    assert_eq!(t.vertical_align, VerticalAlign::Top);
}

#[test]
fn table_align_is_case_sensitive() {
    let align = obj(vec![("horizontal", text("Center"))]);
    let t = get_table_style(&node(vec![("style", obj(vec![("align", align)]))]));
    assert_eq!(t.horizontal_align, HorizontalAlign::Left);
}

#[test]
fn table_style_not_object_gives_defaults() {
    assert_eq!(get_table_style(&node(vec![("style", text("grid"))])), default_table());
    assert_eq!(get_table_style(&node(vec![("grid", obj(vec![]))])), default_table());
}

#[test]
fn table_fields_resolve_independently() {
    let style = obj(vec![
        ("grid", obj(vec![("width", text("bad")), ("color", num(1))])),
        ("padding", obj(vec![("top", text("bad")), ("right", num(7_000_000))])),
        ("align", obj(vec![("vertical", text("middle"))])),
    ]);
    let t = get_table_style(&node(vec![("style", style)]));
    assert_eq!(t, TableStyle {
        grid_visible: true,
        padding_right: Fixed(7_000_000),
        vertical_align: VerticalAlign::Middle,
        ..default_table()
    });
}

#[test]
fn first_entry_wins_on_repeated_key() {
    let t = get_table_style(&node(vec![
        ("style", obj(vec![("padding", obj(vec![("top", num(1_000_000))]))])),
        ("style", obj(vec![("padding", obj(vec![("top", num(9_000_000))]))])),
    ]));
    assert_eq!(t.padding_top, Fixed(1_000_000));
}

#[test]
fn paragraph_leading_defaults_to_font_size_plus_two() {
    let p = get_paragraph_style(&node(vec![]), Fixed(10_000_000));
    assert_eq!(p.leading, Fixed(12_000_000));
    let p = get_paragraph_style(&node(vec![("leading", text("tall"))]), Fixed(10_000_000));
    assert_eq!(p.leading, Fixed(12_000_000));
    assert_eq!(LEADING_GAP, 2_000_000);
}

#[test]
fn paragraph_leading_given() {
    let p = get_paragraph_style(&node(vec![("leading", num(14_500_000))]), Fixed(10_000_000));
    assert_eq!(p.leading, Fixed(14_500_000));
    assert_eq!(p.align, HorizontalAlign::Left);
    assert_eq!(p.bullet, None);
}

#[test]
fn paragraph_align_words() {
    let fs = Fixed(12_000_000);
    assert_eq!(get_paragraph_style(&node(vec![("align", text("right"))]), fs).align, HorizontalAlign::Right);
    assert_eq!(get_paragraph_style(&node(vec![("align", text("center"))]), fs).align, HorizontalAlign::Center);
    assert_eq!(get_paragraph_style(&node(vec![("align", text("up"))]), fs).align, HorizontalAlign::Left);
    assert_eq!(get_paragraph_style(&node(vec![("align", num(1))]), fs).align, HorizontalAlign::Left);
}

#[test]
fn paragraph_bullet_and_indent() {
    let p = get_paragraph_style(
        &node(vec![("bullet", text("•")), ("bullet_indent", num(6_000_000))]),
        Fixed(10_000_000),
    );
    assert_eq!(p.bullet, Some("•".to_string()));
    assert_eq!(p.bullet_indent, Fixed(6_000_000));
    assert_eq!(p.leading, Fixed(12_000_000));
    let p = get_paragraph_style(&node(vec![("bullet", num(1)), ("bullet_indent", text("x"))]), Fixed(0));
    assert_eq!(p.bullet, None);
    assert_eq!(p.bullet_indent, Fixed(0));
}

#[test]
fn paragraph_padding_edges() {
    let pad = obj(vec![("top", num(1_000_000)), ("bottom", num(3_000_000)), ("left", text("x"))]);
    let p = get_paragraph_style(&node(vec![("padding", pad)]), Fixed(10_000_000));
    assert_eq!(p.padding, (Fixed(1_000_000), Fixed(0), Fixed(3_000_000), Fixed(0)));
    assert_eq!(p.leading, Fixed(12_000_000));
    let p = get_paragraph_style(&node(vec![("padding", num(2))]), Fixed(10_000_000));
    assert_eq!(p.padding, (Fixed(0), Fixed(0), Fixed(0), Fixed(0)));
}

#[test]
fn paragraph_ignores_style_wrapper() {
    let p = get_paragraph_style(&node(vec![("style", obj(vec![("leading", num(1))]))]), Fixed(0));
    assert_eq!(p.leading, Fixed(2_000_000));
}

#[test]
fn cell_background_color() {
    let arr = JsParamValue::Array(vec![num(100_000), num(200_000), num(300_000)]);
    let c = get_cell_style(&node(vec![("background_color", arr)]));
    assert_eq!(c.background_color, Some(Color::new(Fixed(100_000), Fixed(200_000), Fixed(300_000))));
    let c = get_cell_style(&node(vec![("background_color", text("red"))]));
    assert_eq!(c.background_color, None);
}

#[test]
fn resolving_twice_gives_equal_styles() {
    let n = node(vec![
        ("style", obj(vec![("grid", obj(vec![("width", num(2_000_000))]))])),
        ("leading", num(11_000_000)),
        ("bullet", text("-")),
        ("background_color", JsParamValue::Array(vec![num(0), num(0), num(1_000_000)])),
    ]);
    assert_eq!(get_table_style(&n), get_table_style(&n));
    assert_eq!(get_cell_style(&n), get_cell_style(&n));
    let a = get_paragraph_style(&n, Fixed(9_000_000));
    let b = get_paragraph_style(&n, Fixed(9_000_000));
    assert_eq!(a.leading, b.leading);
    assert_eq!(a.align, b.align);
    assert_eq!(a.bullet, b.bullet);
    assert_eq!(a.bullet_indent, b.bullet_indent);
    assert_eq!(a.padding, b.padding);
}

#[test]
fn paragraph_new_keeps_fields() {
    let p = ParagraphStyle::new(
        Fixed(1),
        HorizontalAlign::Center,
        Some("*".to_string()),
        Fixed(2),
        (Fixed(3), Fixed(4), Fixed(5), Fixed(6)),
    );
    assert_eq!(p.leading, Fixed(1));
    assert_eq!(p.align, HorizontalAlign::Center);
    assert_eq!(p.bullet, Some("*".to_string()));
    assert_eq!(p.bullet_indent, Fixed(2));
    assert_eq!(p.padding, (Fixed(3), Fixed(4), Fixed(5), Fixed(6)));
}

#[test]
fn lookup_helpers() {
    let entries = vec![("a".to_string(), num(1)), ("b".to_string(), num(2))];
    assert!(matches!(find_entry(&entries, "b"), Some(JsParamValue::Number(Fixed(2)))));
    assert!(find_entry(&entries, "c").is_none());
    assert!(text_eq("center", "center"));
    assert!(!text_eq("center", "centre"));
    assert!(!text_eq("", "a"));
    assert!(text_eq("", ""));
}
