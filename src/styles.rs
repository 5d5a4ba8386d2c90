use vstd::prelude::*;
use crate::units::{Fixed, Color, FIXED_SCALE, zero, one, black};
use crate::value::{
    JsParamValue,
    JsContent,
    entry_for,
    object_entries,
    member,
    number_or,
    text_of,
    deref_value,
    text_eq,
    find_entry,
    read_number,
    read_text,
};

verus! {

/// What a paragraph's leading exceeds its font size by, by default: `2.0`.
pub const LEADING_GAP: i64 = 2 * FIXED_SCALE;

#[derive(Clone, Copy, Debug, PartialEq, Eq, Structural)]
pub enum VerticalAlign {
    Top,
    Middle,
    Bottom,
}

#[derive(Clone, Copy, Debug, PartialEq, Eq, Structural)]
pub enum HorizontalAlign {
    Left,
    Center,
    Right,
}

/// `"center"` and `"right"` are recognised; any other text means `Left`.
pub open spec fn horizontal_align_of(t: Option<Seq<char>>) -> HorizontalAlign {
    if t == Some("center"@) {
        HorizontalAlign::Center
    } else if t == Some("right"@) {
        HorizontalAlign::Right
    } else {
        HorizontalAlign::Left
    }
}

/// `"bottom"` and `"middle"` are recognised; any other text means `Top`.
pub open spec fn vertical_align_of(t: Option<Seq<char>>) -> VerticalAlign {
    if t == Some("bottom"@) {
        VerticalAlign::Bottom
    } else if t == Some("middle"@) {
        VerticalAlign::Middle
    } else {
        VerticalAlign::Top
    }
}

/// The colour an `[r, g, b]` array gives: only an array of exactly three
/// elements decodes, and a channel whose element is no number stays `0.0`.
pub open spec fn color_of(v: JsParamValue) -> Option<Color> {
    match v {
        JsParamValue::Array(a) => if a@.len() == 3 {
            Some(
                Color {
                    r: number_or(Some(a@[0]), zero()),
                    g: number_or(Some(a@[1]), zero()),
                    b: number_or(Some(a@[2]), zero()),
                },
            )
        } else {
            None
        },
        _ => None,
    }
}

/// The colour a value decodes to, or `default` where it is absent or does not decode.
pub open spec fn color_or(v: Option<JsParamValue>, default: Color) -> Color {
    match v {
        Some(c) => match color_of(c) {
            Some(col) => col,
            None => default,
        },
        None => default,
    }
}

/// Decodes an `[r, g, b]` array of numbers into a colour.
pub fn get_color(color_arr: &JsParamValue) -> (r: Option<Color>)
    ensures
        r == color_of(*color_arr),
{
    if let JsParamValue::Array(color_arr) = color_arr {
        if color_arr.len() != 3 {
            return None;
        }
        let mut rgb_color = Color::new(Fixed(0), Fixed(0), Fixed(0));
        if let JsParamValue::Number(c) = &color_arr[0] {
            rgb_color.r = *c;
        }
        if let JsParamValue::Number(c) = &color_arr[1] {
            rgb_color.g = *c;
        }
        if let JsParamValue::Number(c) = &color_arr[2] {
            rgb_color.b = *c;
        }
        return Some(rgb_color);
    }
    None
}

/// The appearance of a table: grid lines, cell padding and cell alignment.
#[derive(Clone, Copy, Debug, PartialEq, Eq, Structural)]
pub struct TableStyle {
    pub grid_visible: bool,
    pub grid_width: Fixed,
    pub grid_color: Color,
    pub padding_top: Fixed,
    pub padding_left: Fixed,
    pub padding_bottom: Fixed,
    pub padding_right: Fixed,
    pub vertical_align: VerticalAlign,
    pub horizontal_align: HorizontalAlign,
}

/// No grid (its width `1.0`, its colour black), no padding, top-left alignment.
pub open spec fn default_table_style() -> TableStyle {
    TableStyle {
        grid_visible: false,
        grid_width: one(),
        grid_color: black(),
        padding_top: zero(),
        padding_left: zero(),
        padding_bottom: zero(),
        padding_right: zero(),
        vertical_align: VerticalAlign::Top,
        horizontal_align: HorizontalAlign::Left,
    }
}

/// The table style that `params` describe. Each field reads its own path under
/// the `style` object and keeps its default where that path is absent or mistyped.
pub open spec fn table_style_of(params: Seq<(String, JsParamValue)>) -> TableStyle {
    let style = object_entries(entry_for(params, "style"@));
    let grid = member(style, "grid"@);
    let grid_obj = object_entries(grid);
    let padding = object_entries(member(style, "padding"@));
    let align = object_entries(member(style, "align"@));
    TableStyle {
        grid_visible: grid is Some,
        grid_width: number_or(member(grid_obj, "width"@), one()),
        grid_color: color_or(member(grid_obj, "color"@), black()),
        padding_top: number_or(member(padding, "top"@), zero()),
        padding_left: number_or(member(padding, "left"@), zero()),
        padding_bottom: number_or(member(padding, "bottom"@), zero()),
        padding_right: number_or(member(padding, "right"@), zero()),
        vertical_align: vertical_align_of(text_of(member(align, "vertical"@))),
        horizontal_align: horizontal_align_of(text_of(member(align, "horizontal"@))),
    }
}

impl TableStyle {
    pub fn new() -> (r: TableStyle)
        ensures
            r == default_table_style(),
    {
        TableStyle {
            grid_visible: false,
            grid_width: Fixed(FIXED_SCALE),
            grid_color: Color::new(Fixed(0), Fixed(0), Fixed(0)),
            padding_top: Fixed(0),
            padding_left: Fixed(0),
            padding_bottom: Fixed(0),
            padding_right: Fixed(0),
            vertical_align: VerticalAlign::Top,
            horizontal_align: HorizontalAlign::Left,
        }
    }
}

/// Resolves the table style of a content node from `params.style`.
pub fn get_table_style(content: &JsContent) -> (r: TableStyle)
    ensures
        r == table_style_of(content.params@),
{
    let mut table_style = TableStyle::new();
    if let Some(style) = find_entry(&content.params, "style") {
        if let JsParamValue::Object(style) = style {
            if let Some(grid) = find_entry(style, "grid") {
                get_grid(&mut table_style, grid);
            }
            if let Some(padding) = find_entry(style, "padding") {
                get_table_padding(&mut table_style, padding);
            }
            if let Some(align) = find_entry(style, "align") {
                get_align(&mut table_style, align);
            }
        }
    }
    table_style
}

fn get_table_padding(table_style: &mut TableStyle, padding: &JsParamValue)
    ensures
        ({
            let p = object_entries(Some(*padding));
            *final(table_style) == TableStyle {
                padding_top: number_or(member(p, "top"@), old(table_style).padding_top),
                padding_left: number_or(member(p, "left"@), old(table_style).padding_left),
                padding_bottom: number_or(member(p, "bottom"@), old(table_style).padding_bottom),
                padding_right: number_or(member(p, "right"@), old(table_style).padding_right),
                ..*old(table_style)
            }
        }),
{
    if let JsParamValue::Object(padding) = padding {
        table_style.padding_top = read_number(padding, "top", table_style.padding_top);
        table_style.padding_left = read_number(padding, "left", table_style.padding_left);
        table_style.padding_bottom = read_number(padding, "bottom", table_style.padding_bottom);
        table_style.padding_right = read_number(padding, "right", table_style.padding_right);
    }
}

fn get_align(table_style: &mut TableStyle, align: &JsParamValue)
    ensures
        ({
            let a = object_entries(Some(*align));
            let h = text_of(member(a, "horizontal"@));
            let v = text_of(member(a, "vertical"@));
            *final(table_style) == TableStyle {
                horizontal_align: if h is Some {
                    horizontal_align_of(h)
                } else {
                    old(table_style).horizontal_align
                },
                vertical_align: if v is Some {
                    vertical_align_of(v)
                } else {
                    old(table_style).vertical_align
                },
                ..*old(table_style)
            }
        }),
{
    if let JsParamValue::Object(align) = align {
        if let Some(horizontal) = read_text(align, "horizontal") {
            table_style.horizontal_align = if text_eq(horizontal.as_str(), "center") {
                HorizontalAlign::Center
            } else if text_eq(horizontal.as_str(), "right") {
                HorizontalAlign::Right
            } else {
                HorizontalAlign::Left
            };
        }
        if let Some(vertical) = read_text(align, "vertical") {
            table_style.vertical_align = if text_eq(vertical.as_str(), "bottom") {
                VerticalAlign::Bottom
            } else if text_eq(vertical.as_str(), "middle") {
                VerticalAlign::Middle
            } else {
                VerticalAlign::Top
            };
        }
    }
}

fn get_grid(table_style: &mut TableStyle, grid: &JsParamValue)
    ensures
        ({
            let g = object_entries(Some(*grid));
            *final(table_style) == TableStyle {
                grid_visible: true,
                grid_width: number_or(member(g, "width"@), old(table_style).grid_width),
                grid_color: color_or(member(g, "color"@), old(table_style).grid_color),
                ..*old(table_style)
            }
        }),
{
    table_style.grid_visible = true;
    if let JsParamValue::Object(grid) = grid {
        table_style.grid_width = read_number(grid, "width", table_style.grid_width);
        if let Some(color) = find_entry(grid, "color") {
            if let Some(rgb_color) = get_color(color) {
                table_style.grid_color = rgb_color;
            }
        }
    }
}

/// The fill of a table cell: a background colour, or none.
#[derive(Clone, Copy, Debug, PartialEq, Eq, Structural)]
pub struct CellStyle {
    pub background_color: Option<Color>,
}

/// The cell style that `params` describe: `background_color` decoded as a colour.
pub open spec fn cell_style_of(params: Seq<(String, JsParamValue)>) -> CellStyle {
    CellStyle {
        background_color: match entry_for(params, "background_color"@) {
            Some(c) => color_of(c),
            None => None,
        },
    }
}

impl CellStyle {
    pub fn new() -> (r: CellStyle)
        ensures
            r.background_color is None,
    {
        CellStyle { background_color: None }
    }
}

/// Resolves the cell style of a content node from `params.background_color`.
pub fn get_cell_style(content: &JsContent) -> (r: CellStyle)
    ensures
        r == cell_style_of(content.params@),
{
    let mut cell_style = CellStyle::new();
    if let Some(color) = find_entry(&content.params, "background_color") {
        cell_style.background_color = get_color(color);
    }
    cell_style
}

/// The layout of a paragraph: line leading, alignment, bullet and padding.
/// `padding` is `(top, left, bottom, right)`.
pub struct ParagraphStyle {
    pub leading: Fixed,
    pub align: HorizontalAlign,
    pub bullet: Option<String>,
    pub bullet_indent: Fixed,
    pub padding: (Fixed, Fixed, Fixed, Fixed),
}

/// A paragraph style with its bullet seen as characters.
pub struct ParagraphStyleView {
    pub leading: Fixed,
    pub align: HorizontalAlign,
    pub bullet: Option<Seq<char>>,
    pub bullet_indent: Fixed,
    pub padding: (Fixed, Fixed, Fixed, Fixed),
}

/// An optional string seen as characters.
pub open spec fn text_view(t: Option<String>) -> Option<Seq<char>> {
    match t {
        Some(s) => Some(s@),
        None => None,
    }
}

impl View for ParagraphStyle {
    type V = ParagraphStyleView;

    open spec fn view(&self) -> ParagraphStyleView {
        ParagraphStyleView {
            leading: self.leading,
            align: self.align,
            bullet: text_view(self.bullet),
            bullet_indent: self.bullet_indent,
            padding: self.padding,
        }
    }
}

/// The leading of a paragraph set in `font_size` where none is given.
pub open spec fn default_leading(font_size: Fixed) -> Fixed {
    Fixed((font_size.0 + LEADING_GAP) as i64)
}

/// Whether the default leading for `font_size` can be represented.
pub open spec fn font_size_in_range(font_size: Fixed) -> bool {
    font_size.0 <= i64::MAX - LEADING_GAP
}

/// The four paddings, `(top, left, bottom, right)`, that an object describes.
pub open spec fn padding_of(obj: Option<Seq<(String, JsParamValue)>>) -> (Fixed, Fixed, Fixed, Fixed) {
    (
        number_or(member(obj, "top"@), zero()),
        number_or(member(obj, "left"@), zero()),
        number_or(member(obj, "bottom"@), zero()),
        number_or(member(obj, "right"@), zero()),
    )
}

/// The paragraph style that `params` describe for text in `font_size`. Each
/// field reads its own top-level key and keeps its default where that key is
/// absent or mistyped.
pub open spec fn paragraph_style_of(params: Seq<(String, JsParamValue)>, font_size: Fixed) -> ParagraphStyleView {
    ParagraphStyleView {
        leading: number_or(entry_for(params, "leading"@), default_leading(font_size)),
        align: horizontal_align_of(text_of(entry_for(params, "align"@))),
        bullet: text_of(entry_for(params, "bullet"@)),
        bullet_indent: number_or(entry_for(params, "bullet_indent"@), zero()),
        padding: padding_of(object_entries(entry_for(params, "padding"@))),
    }
}

/// The paragraph style of a node without parameters.
pub open spec fn default_paragraph_style(font_size: Fixed) -> ParagraphStyleView {
    ParagraphStyleView {
        leading: default_leading(font_size),
        align: HorizontalAlign::Left,
        bullet: None,
        bullet_indent: zero(),
        padding: (zero(), zero(), zero(), zero()),
    }
}

impl ParagraphStyle {
    pub fn new(
        leading: Fixed,
        align: HorizontalAlign,
        bullet: Option<String>,
        bullet_indent: Fixed,
        padding: (Fixed, Fixed, Fixed, Fixed),
    ) -> (r: ParagraphStyle)
        ensures
            r == (ParagraphStyle { leading, align, bullet, bullet_indent, padding }),
    {
        ParagraphStyle { leading, align, bullet, bullet_indent, padding }
    }
}

/// Resolves the paragraph style of a content node set in `p_font_size`.
pub fn get_paragraph_style(content: &JsContent, p_font_size: Fixed) -> (r: ParagraphStyle)
    requires
        font_size_in_range(p_font_size),
    ensures
        r@ == paragraph_style_of(content.params@, p_font_size),
{
    let p_leading = read_number(&content.params, "leading", Fixed(p_font_size.0 + LEADING_GAP));
    let p_padding = get_paragraph_padding(content);
    let p_align = match read_text(&content.params, "align") {
        Some(text_align) => if text_eq(text_align.as_str(), "center") {
            HorizontalAlign::Center
        } else if text_eq(text_align.as_str(), "right") {
            HorizontalAlign::Right
        } else {
            HorizontalAlign::Left
        },
        None => HorizontalAlign::Left,
    };
    let p_bullet: Option<String> = match read_text(&content.params, "bullet") {
        Some(s) => Some(s.clone()),
        None => None,
    };
    let p_bullet_indent = read_number(&content.params, "bullet_indent", Fixed(0));
    ParagraphStyle::new(p_leading, p_align, p_bullet, p_bullet_indent, p_padding)
}

fn get_paragraph_padding(content: &JsContent) -> (r: (Fixed, Fixed, Fixed, Fixed))
    ensures
        r == padding_of(object_entries(entry_for(content.params@, "padding"@))),
{
    let mut padding_top = Fixed(0);
    let mut padding_left = Fixed(0);
    let mut padding_bottom = Fixed(0);
    let mut padding_right = Fixed(0);
    if let Some(JsParamValue::Object(padding)) = find_entry(&content.params, "padding") {
        padding_top = read_number(padding, "top", padding_top);
        padding_left = read_number(padding, "left", padding_left);
        padding_bottom = read_number(padding, "bottom", padding_bottom);
        padding_right = read_number(padding, "right", padding_right);
    }
    (padding_top, padding_left, padding_bottom, padding_right)
}

} // verus!
