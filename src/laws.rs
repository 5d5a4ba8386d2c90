use vstd::prelude::*;
use crate::units::{Fixed, zero, one, black};
use crate::value::{JsParamValue, entry_for, text_of, number_or, member, object_entries};
use crate::styles::{
    HorizontalAlign,
    VerticalAlign,
    TableStyle,
    ParagraphStyleView,
    default_table_style,
    table_style_of,
    CellStyle,
    ParagraphStyle,
    cell_style_of,
    color_of,
    color_or,
    paragraph_style_of,
    default_paragraph_style,
    default_leading,
    horizontal_align_of,
    vertical_align_of,
};

verus! {

/// `params` hold one value, `leaf`, at `path` and nothing else: each object on
/// the way has exactly one entry, keyed by the next step of the path.
pub open spec fn holds_only(
    params: Seq<(String, JsParamValue)>,
    path: Seq<Seq<char>>,
    leaf: JsParamValue,
) -> bool
    decreases path.len(),
{
    &&& path.len() > 0
    &&& params.len() == 1
    &&& params[0].0@ == path[0]
    &&& if path.len() == 1 {
        params[0].1 == leaf
    } else {
        match params[0].1 {
            JsParamValue::Object(o) => holds_only(o@, path.drop_first(), leaf),
            _ => false,
        }
    }
}

/// What tells the recognised keys apart: their lengths and first characters.
proof fn lemma_keys_differ()
    ensures
        "style"@.len() == 5,
        "style"@[0] == 's',
        "style"@[1] == 't',
        "grid"@.len() == 4,
        "grid"@[0] == 'g',
        "grid"@[1] == 'r',
        "width"@.len() == 5,
        "width"@[0] == 'w',
        "width"@[1] == 'i',
        "color"@.len() == 5,
        "color"@[0] == 'c',
        "color"@[1] == 'o',
        "padding"@.len() == 7,
        "padding"@[0] == 'p',
        "padding"@[1] == 'a',
        "align"@.len() == 5,
        "align"@[0] == 'a',
        "align"@[1] == 'l',
        "horizontal"@.len() == 10,
        "horizontal"@[0] == 'h',
        "horizontal"@[1] == 'o',
        "vertical"@.len() == 8,
        "vertical"@[0] == 'v',
        "vertical"@[1] == 'e',
        "top"@.len() == 3,
        "top"@[0] == 't',
        "top"@[1] == 'o',
        "left"@.len() == 4,
        "left"@[0] == 'l',
        "left"@[1] == 'e',
        "bottom"@.len() == 6,
        "bottom"@[0] == 'b',
        "bottom"@[1] == 'o',
        "right"@.len() == 5,
        "right"@[0] == 'r',
        "right"@[1] == 'i',
        "leading"@.len() == 7,
        "leading"@[0] == 'l',
        "leading"@[1] == 'e',
        "bullet"@.len() == 6,
        "bullet"@[0] == 'b',
        "bullet"@[1] == 'u',
        "bullet_indent"@.len() == 13,
        "bullet_indent"@[0] == 'b',
        "bullet_indent"@[1] == 'u',
        "background_color"@.len() == 16,
        "background_color"@[0] == 'b',
        "background_color"@[1] == 'a',
        "center"@.len() == 6,
        "center"@[0] == 'c',
        "center"@[1] == 'e',
        "middle"@.len() == 6,
        "middle"@[0] == 'm',
        "middle"@[1] == 'i',
{
    reveal_strlit("style");
    reveal_strlit("grid");
    reveal_strlit("width");
    reveal_strlit("color");
    reveal_strlit("padding");
    reveal_strlit("align");
    reveal_strlit("horizontal");
    reveal_strlit("vertical");
    reveal_strlit("top");
    reveal_strlit("left");
    reveal_strlit("bottom");
    reveal_strlit("right");
    reveal_strlit("leading");
    reveal_strlit("bullet");
    reveal_strlit("bullet_indent");
    reveal_strlit("background_color");
    reveal_strlit("center");
    reveal_strlit("middle");
}

/// In a one-entry object, a lookup finds that entry or nothing.
proof fn lemma_single_entry(entries: Seq<(String, JsParamValue)>, key: Seq<char>)
    requires
        entries.len() == 1,
    ensures
        entry_for(entries, key) == if entries[0].0@ == key {
            Some(entries[0].1)
        } else {
            None
        },
{
    reveal_with_fuel(entry_for, 2);
}

/// One step down a path of more than one key: the object under its first key.
proof fn lemma_step(
    params: Seq<(String, JsParamValue)>,
    path: Seq<Seq<char>>,
) -> (inner: Seq<(String, JsParamValue)>)
    requires
        path.len() > 1,
        exists|leaf: JsParamValue| holds_only(params, path, leaf),
    ensures
        params.len() == 1,
        params[0].0@ == path[0],
        params[0].1 matches JsParamValue::Object(o) && o@ == inner,
        forall|leaf: JsParamValue| holds_only(params, path, leaf) ==> holds_only(inner, path.drop_first(), leaf),
{
    match params[0].1 {
        JsParamValue::Object(o) => o@,
        _ => Seq::empty(),
    }
}

/// The last step of a path: the entry holding the leaf.
proof fn lemma_last_step(params: Seq<(String, JsParamValue)>, path: Seq<Seq<char>>)
    requires
        path.len() == 1,
    ensures
        forall|leaf: JsParamValue| holds_only(params, path, leaf) ==> {
            &&& params.len() == 1
            &&& params[0].0@ == path[0]
            &&& params[0].1 == leaf
        },
{
}

/// With no parameters at all, every resolver gives its default style.
pub proof fn lemma_empty_params_give_defaults(params: Seq<(String, JsParamValue)>, font_size: Fixed)
    requires
        params.len() == 0,
    ensures
        table_style_of(params) == default_table_style(),
        paragraph_style_of(params, font_size) == default_paragraph_style(font_size),
        cell_style_of(params).background_color is None,
{
}

/// A value at `style.padding.<edge>`, alone, sets that edge's padding where it
/// is a number and leaves every other field at its default; a value of another
/// kind there resolves as though the edge were not given.
pub proof fn lemma_table_padding_alone(
    params: Seq<(String, JsParamValue)>,
    edge: Seq<char>,
    v: JsParamValue,
)
    requires
        edge == "top"@ || edge == "left"@ || edge == "bottom"@ || edge == "right"@,
        holds_only(params, seq!["style"@, "padding"@, edge], v),
    ensures
        ({
            let n = number_or(Some(v), zero());
            table_style_of(params) == TableStyle {
                padding_top: if edge == "top"@ { n } else { zero() },
                padding_left: if edge == "left"@ { n } else { zero() },
                padding_bottom: if edge == "bottom"@ { n } else { zero() },
                padding_right: if edge == "right"@ { n } else { zero() },
                ..default_table_style()
            }
        }),
        !(v is Number) ==> table_style_of(params) == default_table_style(),
{
    lemma_keys_differ();
    let path = seq!["style"@, "padding"@, edge];
    assert(path.drop_first() =~= seq!["padding"@, edge]);
    assert(path.drop_first().drop_first() =~= seq![edge]);
    let style = lemma_step(params, path);
    let padding = lemma_step(style, path.drop_first());
    lemma_last_step(padding, path.drop_first().drop_first());
    lemma_single_entry(params, "style"@);
    lemma_single_entry(style, "grid"@);
    lemma_single_entry(style, "padding"@);
    lemma_single_entry(style, "align"@);
    lemma_single_entry(padding, "top"@);
    lemma_single_entry(padding, "left"@);
    lemma_single_entry(padding, "bottom"@);
    lemma_single_entry(padding, "right"@);
}

/// A value at `style.grid.width`, alone, shows the grid, and sets its width
/// where it is a number; every other field keeps its default. A value of
/// another kind there resolves as an empty `grid` object does.
pub proof fn lemma_table_grid_width_alone(params: Seq<(String, JsParamValue)>, v: JsParamValue)
    requires
        holds_only(params, seq!["style"@, "grid"@, "width"@], v),
    ensures
        table_style_of(params) == (TableStyle {
            grid_visible: true,
            grid_width: number_or(Some(v), one()),
            ..default_table_style()
        }),
        !(v is Number) ==> table_style_of(params) == (TableStyle {
            grid_visible: true,
            ..default_table_style()
        }),
{
    lemma_keys_differ();
    let path = seq!["style"@, "grid"@, "width"@];
    assert(path.drop_first() =~= seq!["grid"@, "width"@]);
    assert(path.drop_first().drop_first() =~= seq!["width"@]);
    let style = lemma_step(params, path);
    let grid = lemma_step(style, path.drop_first());
    lemma_last_step(grid, path.drop_first().drop_first());
    lemma_single_entry(params, "style"@);
    lemma_single_entry(style, "grid"@);
    lemma_single_entry(style, "padding"@);
    lemma_single_entry(style, "align"@);
    lemma_single_entry(grid, "width"@);
    lemma_single_entry(grid, "color"@);
}

/// A value at `style.grid.color`, alone, shows the grid, and sets its colour
/// where it decodes; every other field keeps its default.
pub proof fn lemma_table_grid_color_alone(params: Seq<(String, JsParamValue)>, v: JsParamValue)
    requires
        holds_only(params, seq!["style"@, "grid"@, "color"@], v),
    ensures
        table_style_of(params) == (TableStyle {
            grid_visible: true,
            grid_color: color_or(Some(v), black()),
            ..default_table_style()
        }),
        color_of(v) is None ==> table_style_of(params) == (TableStyle {
            grid_visible: true,
            ..default_table_style()
        }),
{
    lemma_keys_differ();
    let path = seq!["style"@, "grid"@, "color"@];
    assert(path.drop_first() =~= seq!["grid"@, "color"@]);
    assert(path.drop_first().drop_first() =~= seq!["color"@]);
    let style = lemma_step(params, path);
    let grid = lemma_step(style, path.drop_first());
    lemma_last_step(grid, path.drop_first().drop_first());
    lemma_single_entry(params, "style"@);
    lemma_single_entry(style, "grid"@);
    lemma_single_entry(style, "padding"@);
    lemma_single_entry(style, "align"@);
    lemma_single_entry(grid, "width"@);
    lemma_single_entry(grid, "color"@);
}

/// A value at `style.align.<axis>`, alone, sets that axis's alignment where it
/// is text and leaves every other field at its default; a value of another
/// kind there resolves as though the axis were not given.
pub proof fn lemma_table_align_alone(
    params: Seq<(String, JsParamValue)>,
    axis: Seq<char>,
    v: JsParamValue,
)
    requires
        axis == "horizontal"@ || axis == "vertical"@,
        holds_only(params, seq!["style"@, "align"@, axis], v),
    ensures
        table_style_of(params) == (TableStyle {
            horizontal_align: if axis == "horizontal"@ {
                horizontal_align_of(text_of(Some(v)))
            } else {
                HorizontalAlign::Left
            },
            vertical_align: if axis == "vertical"@ {
                vertical_align_of(text_of(Some(v)))
            } else {
                VerticalAlign::Top
            },
            ..default_table_style()
        }),
        !(v is Text) ==> table_style_of(params) == default_table_style(),
{
    lemma_keys_differ();
    let path = seq!["style"@, "align"@, axis];
    assert(path.drop_first() =~= seq!["align"@, axis]);
    assert(path.drop_first().drop_first() =~= seq![axis]);
    let style = lemma_step(params, path);
    let align = lemma_step(style, path.drop_first());
    lemma_last_step(align, path.drop_first().drop_first());
    lemma_single_entry(params, "style"@);
    lemma_single_entry(style, "grid"@);
    lemma_single_entry(style, "padding"@);
    lemma_single_entry(style, "align"@);
    lemma_single_entry(align, "horizontal"@);
    lemma_single_entry(align, "vertical"@);
}

/// Alignment text outside the recognised words resolves as no text at all.
pub proof fn lemma_unrecognised_align_text(t: Seq<char>)
    ensures
        t != "center"@ && t != "right"@ ==> horizontal_align_of(Some(t)) == horizontal_align_of(
            None,
        ),
        t != "bottom"@ && t != "middle"@ ==> vertical_align_of(Some(t)) == vertical_align_of(None),
{
}

/// A value under a paragraph's `leading`, `align`, `bullet` or `bullet_indent`
/// key, alone, sets that field where it is of the expected kind (a number, or
/// text for `align` and `bullet`) and leaves every other field at its default;
/// a value of another kind resolves as though the key were not given.
pub proof fn lemma_paragraph_key_alone(
    params: Seq<(String, JsParamValue)>,
    key: Seq<char>,
    v: JsParamValue,
    font_size: Fixed,
)
    requires
        key == "leading"@ || key == "align"@ || key == "bullet"@ || key == "bullet_indent"@,
        holds_only(params, seq![key], v),
    ensures
        ({
            let d = default_paragraph_style(font_size);
            paragraph_style_of(params, font_size) == ParagraphStyleView {
                leading: if key == "leading"@ {
                    number_or(Some(v), default_leading(font_size))
                } else {
                    d.leading
                },
                align: if key == "align"@ {
                    horizontal_align_of(text_of(Some(v)))
                } else {
                    d.align
                },
                bullet: if key == "bullet"@ {
                    text_of(Some(v))
                } else {
                    d.bullet
                },
                bullet_indent: if key == "bullet_indent"@ {
                    number_or(Some(v), zero())
                } else {
                    d.bullet_indent
                },
                padding: d.padding,
            }
        }),
        (key == "leading"@ || key == "bullet_indent"@) && !(v is Number) ==> paragraph_style_of(
            params,
            font_size,
        ) == default_paragraph_style(font_size),
        (key == "align"@ || key == "bullet"@) && !(v is Text) ==> paragraph_style_of(
            params,
            font_size,
        ) == default_paragraph_style(font_size),
{
    lemma_keys_differ();
    lemma_last_step(params, seq![key]);
    lemma_single_entry(params, "leading"@);
    lemma_single_entry(params, "align"@);
    lemma_single_entry(params, "bullet"@);
    lemma_single_entry(params, "bullet_indent"@);
    lemma_single_entry(params, "padding"@);
}

/// A value at a paragraph's `padding.<edge>`, alone, sets that edge where it is
/// a number and leaves every other field at its default; a value of another
/// kind there resolves as though the edge were not given.
pub proof fn lemma_paragraph_padding_alone(
    params: Seq<(String, JsParamValue)>,
    edge: Seq<char>,
    v: JsParamValue,
    font_size: Fixed,
)
    requires
        edge == "top"@ || edge == "left"@ || edge == "bottom"@ || edge == "right"@,
        holds_only(params, seq!["padding"@, edge], v),
    ensures
        ({
            let n = number_or(Some(v), zero());
            paragraph_style_of(params, font_size) == ParagraphStyleView {
                padding: (
                    if edge == "top"@ { n } else { zero() },
                    if edge == "left"@ { n } else { zero() },
                    if edge == "bottom"@ { n } else { zero() },
                    if edge == "right"@ { n } else { zero() },
                ),
                ..default_paragraph_style(font_size)
            }
        }),
        !(v is Number) ==> paragraph_style_of(params, font_size) == default_paragraph_style(
            font_size,
        ),
{
    lemma_keys_differ();
    let path = seq!["padding"@, edge];
    assert(path.drop_first() =~= seq![edge]);
    let padding = lemma_step(params, path);
    lemma_last_step(padding, path.drop_first());
    lemma_single_entry(params, "leading"@);
    lemma_single_entry(params, "align"@);
    lemma_single_entry(params, "bullet"@);
    lemma_single_entry(params, "bullet_indent"@);
    lemma_single_entry(params, "padding"@);
    lemma_single_entry(padding, "top"@);
    lemma_single_entry(padding, "left"@);
    lemma_single_entry(padding, "bottom"@);
    lemma_single_entry(padding, "right"@);
}

/// A value under `background_color`, alone, gives the cell the colour it
/// decodes to, and no fill where it does not decode.
pub proof fn lemma_cell_background_alone(params: Seq<(String, JsParamValue)>, v: JsParamValue)
    requires
        holds_only(params, seq!["background_color"@], v),
    ensures
        cell_style_of(params).background_color == color_of(v),
{
    lemma_last_step(params, seq!["background_color"@]);
    lemma_single_entry(params, "background_color"@);
}

/// Resolving one node twice gives equal styles: each resolver's result is
/// fixed by the node's parameters (and, for a paragraph, the font size).
pub proof fn lemma_resolution_repeatable(
    params: Seq<(String, JsParamValue)>,
    font_size: Fixed,
    table_a: TableStyle,
    table_b: TableStyle,
    cell_a: CellStyle,
    cell_b: CellStyle,
    para_a: ParagraphStyle,
    para_b: ParagraphStyle,
)
    requires
        table_a == table_style_of(params),
        table_b == table_style_of(params),
        cell_a == cell_style_of(params),
        cell_b == cell_style_of(params),
        para_a@ == paragraph_style_of(params, font_size),
        para_b@ == paragraph_style_of(params, font_size),
    ensures
        table_a == table_b,
        cell_a == cell_b,
        para_a@ == para_b@,
{
}

} // verus!
