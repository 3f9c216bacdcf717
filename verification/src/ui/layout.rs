//! Where each visible key is drawn: its box and the texts in it.

use crate::config::config::{style_in, Color, Style, StyleTable};
use crate::input::keymap::{category_for_key, classify, KeyCategory};
use crate::ui::ui::{slot_width, width_from, EntryModel, KeyEntry, ANIM_FULL, PADDING};
use vstd::prelude::*;

verus! {

/// The point of a text that its position names.
#[derive(Debug, Clone, Copy, PartialEq, Eq, Structural)]
pub enum Anchor {
    CenterCenter,
    RightTop,
    RightBottom,
}

/// How a key box arranges its icon and its label.
#[derive(Debug, Clone, Copy, PartialEq, Eq, Structural)]
pub enum Template {
    /// The label alone, in the middle of the box.
    Centered,
    /// Icon in the upper right corner, label in the lower right corner.
    Corner,
    /// Icon above the label, both measured from the right and the outer edges.
    Stacked,
    /// Icon above the label, both centred sideways.
    Generic,
}

/// One text to draw.
#[derive(Debug)]
pub struct TextRun {
    pub text: String,
    pub x: i64,
    pub y: i64,
    pub anchor: Anchor,
    /// Font size in thousandths of a point.
    pub size: u32,
}

/// One key to draw: a filled box, the label and, where there is one, the icon.
/// Positions and lengths are in thousandths of a point; `top` is measured from
/// the upper edge of the surface.
#[derive(Debug)]
pub struct KeyBox {
    pub left: i64,
    pub top: i64,
    pub width: u32,
    pub height: u32,
    pub bg_color: Color,
    pub fg_color: Color,
    pub icon: Option<TextRun>,
    pub label: TextRun,
}

/// The value of a `TextRun`.
pub ghost struct TextModel {
    pub text: Seq<char>,
    pub x: int,
    pub y: int,
    pub anchor: Anchor,
    pub size: u32,
}

/// The value of a `KeyBox`.
pub ghost struct BoxModel {
    pub left: int,
    pub top: int,
    pub width: int,
    pub height: int,
    pub bg_color: Color,
    pub fg_color: Color,
    pub icon: Option<TextModel>,
    pub label: TextModel,
}

impl View for TextRun {
    type V = TextModel;

    open spec fn view(&self) -> TextModel {
        TextModel {
            text: self.text@,
            x: self.x as int,
            y: self.y as int,
            anchor: self.anchor,
            size: self.size,
        }
    }
}

impl View for KeyBox {
    type V = BoxModel;

    open spec fn view(&self) -> BoxModel {
        BoxModel {
            left: self.left as int,
            top: self.top as int,
            width: self.width as int,
            height: self.height as int,
            bg_color: self.bg_color,
            fg_color: self.fg_color,
            icon: match self.icon {
                Some(run) => Some(run@),
                None => None,
            },
            label: self.label@,
        }
    }
}

/// The values of a run of boxes.
pub open spec fn box_models(boxes: Seq<KeyBox>) -> Seq<BoxModel> {
    Seq::new(boxes.len(), |i: int| boxes[i]@)
}

/// The template of each category.
pub open spec fn template_of(category: KeyCategory) -> Template {
    match category {
        KeyCategory::Normal
        | KeyCategory::Numeric
        | KeyCategory::Symbol
        | KeyCategory::Navigation
        | KeyCategory::Function => Template::Centered,
        KeyCategory::Modifier => Template::Corner,
        KeyCategory::Scrollable
        | KeyCategory::Editor
        | KeyCategory::Escape
        | KeyCategory::AltFunction
        | KeyCategory::Mouse => Template::Stacked,
        KeyCategory::Space | KeyCategory::Unknown => Template::Generic,
    }
}

/// A length at the given animation progress: the length times the progress,
/// which counts as full from `ANIM_FULL` on, rounded down.
pub open spec fn scaled(length: u32, anim: u32) -> int {
    let progress = if anim < ANIM_FULL {
        anim
    } else {
        ANIM_FULL
    };
    (length * progress) / (ANIM_FULL as int)
}

/// Where a template puts the icon in a box with the given edges. The centred
/// template draws none, and no template draws an empty one.
pub open spec fn icon_model(
    template: Template,
    entry: EntryModel,
    style: Style,
    left: int,
    top: int,
    right: int,
) -> Option<TextModel> {
    if entry.icon.len() == 0 {
        None
    } else {
        match template {
            Template::Centered => None,
            Template::Corner => Some(
                TextModel {
                    text: entry.icon,
                    x: right - 10_000,
                    y: top + 10_000,
                    anchor: Anchor::RightTop,
                    size: style.icon_size,
                },
            ),
            Template::Stacked => Some(
                TextModel {
                    text: entry.icon,
                    x: right - 47_500,
                    y: top + 20_000,
                    anchor: Anchor::CenterCenter,
                    size: style.icon_size,
                },
            ),
            Template::Generic => Some(
                TextModel {
                    text: entry.icon,
                    x: left + (right - left) / 2,
                    y: top + 18_000,
                    anchor: Anchor::CenterCenter,
                    size: style.icon_size,
                },
            ),
        }
    }
}

/// Where a template puts the label in a box with the given edges.
pub open spec fn label_model(
    template: Template,
    entry: EntryModel,
    style: Style,
    left: int,
    top: int,
    right: int,
    bottom: int,
) -> TextModel {
    match template {
        Template::Centered => TextModel {
            text: entry.label,
            x: left + (right - left) / 2,
            y: top + (bottom - top) / 2,
            anchor: Anchor::CenterCenter,
            size: style.text_size,
        },
        Template::Corner => TextModel {
            text: entry.label,
            x: right - 10_000,
            y: bottom - 10_000,
            anchor: Anchor::RightBottom,
            size: style.text_size,
        },
        Template::Stacked => TextModel {
            text: entry.label,
            x: right - 45_000,
            y: bottom - 20_000,
            anchor: Anchor::CenterCenter,
            size: style.text_size,
        },
        Template::Generic => TextModel {
            text: entry.label,
            x: left + (right - left) / 2,
            y: bottom - 26_000,
            anchor: Anchor::CenterCenter,
            size: style.text_size,
        },
    }
}

/// The box of an entry whose slot begins at `x`: the category's box scaled by
/// the animation progress about the middle of the full-size box, in the
/// category's colours, with the texts where its template puts them.
pub open spec fn box_model(entry: EntryModel, styles: Map<KeyCategory, Style>, x: int) -> BoxModel {
    let category = classify(entry.label);
    let style = style_in(styles, category);
    let width = scaled(style.width, entry.anim);
    let height = scaled(style.height, entry.anim);
    let left = x + (style.width - width) / 2;
    let top = (style.height - height) / 2;
    BoxModel {
        left,
        top,
        width,
        height,
        bg_color: style.bg_color,
        fg_color: style.fg_color,
        icon: icon_model(template_of(category), entry, style, left, top, left + width),
        label: label_model(
            template_of(category),
            entry,
            style,
            left,
            top,
            left + width,
            top + height,
        ),
    }
}

/// The boxes of a frame, oldest entry leftmost: the slots stand side by side and
/// the last one ends at `right_edge`.
pub open spec fn layout_boxes(
    entries: Seq<EntryModel>,
    styles: Map<KeyCategory, Style>,
    right_edge: int,
) -> Seq<BoxModel> {
    Seq::new(
        entries.len(),
        |i: int| box_model(entries[i], styles, right_edge - width_from(entries, styles, i)),
    )
}

/// The template that a category is drawn with.
pub fn template_for(category: KeyCategory) -> (template: Template)
    ensures
        template == template_of(category),
{
    match category {
        KeyCategory::Normal
        | KeyCategory::Numeric
        | KeyCategory::Symbol
        | KeyCategory::Navigation
        | KeyCategory::Function => Template::Centered,
        KeyCategory::Modifier => Template::Corner,
        KeyCategory::Scrollable
        | KeyCategory::Editor
        | KeyCategory::Escape
        | KeyCategory::AltFunction
        | KeyCategory::Mouse => Template::Stacked,
        KeyCategory::Space | KeyCategory::Unknown => Template::Generic,
    }
}

fn scale(length: u32, anim: u32) -> (r: u32)
    ensures
        r == scaled(length, anim),
        r <= length,
{
    let progress: u64 = if anim < ANIM_FULL {
        anim as u64
    } else {
        ANIM_FULL as u64
    };
    assert(length * progress <= length * 1000) by (nonlinear_arith)
        requires
            0 <= length,
            0 <= progress <= 1000,
    ;
    assert(length * progress <= 0xffff_ffff * 1000) by (nonlinear_arith)
        requires
            0 <= length <= 0xffff_ffff,
            0 <= progress <= 1000,
    ;
    let product: u64 = length as u64 * progress;
    assert(product / 1000 <= length);
    (product / (ANIM_FULL as u64)) as u32
}

/// The stretch of `x` values that boxes are laid out in.
pub open spec fn in_layout_range(x: int) -> bool {
    -0x2_0000_0000 <= x <= 0x2_0000_0000
}

/// Lays out the box of one entry whose slot begins at `x`, and gives the width of
/// that slot.
pub(crate) fn key_box(entry: &KeyEntry, styles: &StyleTable, x: i64) -> (key: (KeyBox, u64))
    requires
        in_layout_range(x as int),
    ensures
        key.0@ == box_model(entry@, styles@, x as int),
        key.1 == slot_width(entry@, styles@),
{
    let category = category_for_key(entry.label.as_str());
    let style = styles.style_for(category);
    let template = template_for(category);
    let width = scale(style.width, entry.anim);
    let height = scale(style.height, entry.anim);
    let left: i64 = x + ((style.width - width) / 2) as i64;
    let top: i64 = ((style.height - height) / 2) as i64;
    let right: i64 = left + width as i64;
    let bottom: i64 = top + height as i64;
    let middle: i64 = left + (right - left) / 2;
    let icon = if entry.icon.as_str().is_empty() {
        None
    } else {
        match template {
            Template::Centered => None,
            Template::Corner => Some(
                TextRun {
                    text: entry.icon.clone(),
                    x: right - 10_000,
                    y: top + 10_000,
                    anchor: Anchor::RightTop,
                    size: style.icon_size,
                },
            ),
            Template::Stacked => Some(
                TextRun {
                    text: entry.icon.clone(),
                    x: right - 47_500,
                    y: top + 20_000,
                    anchor: Anchor::CenterCenter,
                    size: style.icon_size,
                },
            ),
            Template::Generic => Some(
                TextRun {
                    text: entry.icon.clone(),
                    x: middle,
                    y: top + 18_000,
                    anchor: Anchor::CenterCenter,
                    size: style.icon_size,
                },
            ),
        }
    };
    let label = match template {
        Template::Centered => TextRun {
            text: entry.label.clone(),
            x: middle,
            y: top + (bottom - top) / 2,
            anchor: Anchor::CenterCenter,
            size: style.text_size,
        },
        Template::Corner => TextRun {
            text: entry.label.clone(),
            x: right - 10_000,
            y: bottom - 10_000,
            anchor: Anchor::RightBottom,
            size: style.text_size,
        },
        Template::Stacked => TextRun {
            text: entry.label.clone(),
            x: right - 45_000,
            y: bottom - 20_000,
            anchor: Anchor::CenterCenter,
            size: style.text_size,
        },
        Template::Generic => TextRun {
            text: entry.label.clone(),
            x: middle,
            y: bottom - 26_000,
            anchor: Anchor::CenterCenter,
            size: style.text_size,
        },
    };
    let key = KeyBox {
        left,
        top,
        width,
        height,
        bg_color: style.bg_color,
        fg_color: style.fg_color,
        icon,
        label,
    };
    (key, style.width as u64 + PADDING as u64)
}

} // verus!
