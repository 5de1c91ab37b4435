//! What a widget tree is made of, in words that the contracts of the pages
//! can use.

use crate::ui::theme::{borders_plain_spec, borders_selected_spec, corners_round_spec};
use crate::ui::tree::AnyWidget;
use crate::ui::widgets::align::{AlignHorizontal, AlignVertical};
use crate::ui::widgets::border::{Borders, Corners};
use vstd::prelude::*;

verus! {

/// The child of a widget that holds one child; the widget itself where it
/// holds none or several.
pub open spec fn child_of(widget: AnyWidget) -> AnyWidget {
    match widget {
        AnyWidget::Align(a) => *a.child,
        AnyWidget::Border(b) => *b.child,
        AnyWidget::Padding(p) => *p.child,
        AnyWidget::SizedBox(s) => *s.child,
        AnyWidget::Flexible(f) => *f.child,
        _ => widget,
    }
}

/// The children of a column, a row or a stack; none for another widget.
pub open spec fn children_of(widget: AnyWidget) -> Seq<AnyWidget> {
    match widget {
        AnyWidget::Column(c) => c.children@,
        AnyWidget::Row(r) => r.children@,
        AnyWidget::Stack(s) => s.children@,
        _ => Seq::empty(),
    }
}

/// `widget` is text that shows `s` on one line.
pub open spec fn is_text(widget: AnyWidget, s: Seq<char>) -> bool {
    widget matches AnyWidget::Text(t) && t.text@ == s && t.max_width is None
}

/// `widget` is text that shows `s`, wrapped at `width` columns.
pub open spec fn is_wrapped_text(widget: AnyWidget, s: Seq<char>, width: u16) -> bool {
    widget matches AnyWidget::Text(t) && t.text@ == s && t.max_width == Some(width)
}

/// `widget` is an image that shows `data`.
pub open spec fn is_image(widget: AnyWidget, data: Seq<char>) -> bool {
    widget matches AnyWidget::Image(i) && i.data@ == data
}

/// `widget` is a divider drawn with `ch`, horizontal or vertical.
pub open spec fn is_divider(widget: AnyWidget, ch: char, vertical: bool) -> bool {
    widget matches AnyWidget::Divider(d) && d.ch == ch && (d.orientation is Vertical) == vertical
}

/// `widget` is a progress bar filled to `numer / denom`, drawn with the
/// three glyphs.
pub open spec fn is_progress_bar(
    widget: AnyWidget,
    numer: u32,
    denom: u32,
    foreground: char,
    tip: char,
    background: char,
) -> bool {
    widget matches AnyWidget::ProgressBar(bar) && bar.numer == numer && bar.denom == denom
        && bar.foreground == foreground && bar.tip == tip && bar.background == background
}

/// `widget` places its child by `horizontal` and `vertical`.
pub open spec fn is_aligned(
    widget: AnyWidget,
    horizontal: AlignHorizontal,
    vertical: AlignVertical,
) -> bool {
    widget matches AnyWidget::Align(a) && a.alignment.horizontal == horizontal
        && a.alignment.vertical == vertical
}

/// `widget` centres its child along both axes.
pub open spec fn is_centred(widget: AnyWidget) -> bool {
    is_aligned(widget, AlignHorizontal::Center, AlignVertical::Center)
}

/// `widget` draws a frame of `borders` and `corners` around its child.
pub open spec fn is_framed(widget: AnyWidget, borders: Borders, corners: Corners) -> bool {
    widget matches AnyWidget::Border(b) && b.borders == borders && b.corners == corners
}

/// `widget` leaves the given room around its child.
pub open spec fn is_padded(widget: AnyWidget, top: u16, left: u16, right: u16, bottom: u16)
    -> bool {
    widget matches AnyWidget::Padding(p) && p.top == top && p.left == left && p.right == right
        && p.bottom == bottom
}

/// `widget` holds its child to the given width and height, where one is
/// given.
pub open spec fn is_sized(widget: AnyWidget, width: Option<u16>, height: Option<u16>) -> bool {
    widget matches AnyWidget::SizedBox(s) && s.forced_width == width && s.forced_height == height
}

/// `widget` gives its child the flex weight `flex`.
pub open spec fn is_flexible(widget: AnyWidget, flex: i32) -> bool {
    widget matches AnyWidget::Flexible(f) && f.flex == flex
}

/// `widget` is a column of `count` children.
pub open spec fn is_column(widget: AnyWidget, count: int) -> bool {
    widget is Column && children_of(widget).len() == count
}

/// `widget` is a row of `count` children.
pub open spec fn is_row(widget: AnyWidget, count: int) -> bool {
    widget is Row && children_of(widget).len() == count
}

/// `widget` is a stack of `count` children.
pub open spec fn is_stack(widget: AnyWidget, count: int) -> bool {
    widget is Stack && children_of(widget).len() == count
}

/// The corners of a frame drawn with `+`.
pub open spec fn corners_plus() -> Corners {
    Corners {
        top_left: Some('+'),
        top_right: Some('+'),
        bottom_left: Some('+'),
        bottom_right: Some('+'),
    }
}

/// `widget` is what a button in the default styles is made of: `label`,
/// centred, in a frame of rounded corners whose top and bottom are `=` while
/// the button is selected and `-` while it is not.
pub open spec fn is_button(widget: AnyWidget, label: Seq<char>, selected: bool) -> bool {
    &&& is_framed(
        widget,
        if selected {
            borders_selected_spec()
        } else {
            borders_plain_spec()
        },
        corners_round_spec(),
    )
    &&& is_centred(child_of(widget))
    &&& is_text(child_of(child_of(widget)), label)
}

} // verus!
