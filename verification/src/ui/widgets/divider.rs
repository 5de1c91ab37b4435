//! A line across the allocation.

use crate::ui::rendering::{grid, same_layout, Canvas, IntoWidget, Widget};
use crate::ui::tree::AnyWidget;
use vstd::prelude::*;

verus! {

/// The direction of a divider.
#[derive(Clone, Copy)]
pub enum Orientation {
    Horizontal,
    Vertical,
}

/// A line drawn with one glyph: along the first row, or down the middle
/// column.
pub struct Divider {
    pub ch: char,
    pub orientation: Orientation,
}

/// The column in which a vertical divider is drawn in `width` columns.
pub open spec fn divider_column(width: u16) -> int {
    if width > 1 {
        width as int / 2
    } else {
        0
    }
}

impl Divider {
    /// A horizontal divider drawn with `ch`.
    pub fn new(ch: char) -> (d: Self)
        ensures
            d.ch == ch,
            d.orientation is Horizontal,
    {
        Self { ch, orientation: Orientation::Horizontal }
    }

    /// The same divider, drawn vertically.
    pub fn vertical(self) -> (d: Self)
        ensures
            d.ch == self.ch,
            d.orientation is Vertical,
    {
        Self { ch: self.ch, orientation: Orientation::Vertical }
    }

    /// The glyph, or a space, that the divider shows in column `i` of row `j`.
    pub open spec fn cell(&self, width: u16, i: int, j: int) -> char {
        match self.orientation {
            Orientation::Horizontal => if j == 0 {
                self.ch
            } else {
                ' '
            },
            Orientation::Vertical => if i == divider_column(width) {
                self.ch
            } else {
                ' '
            },
        }
    }

    /// Tells whether the widget is well formed.
    pub fn is_well_formed(&self) -> (ok: bool)
        ensures
            ok == self.well_formed(),
    {
        true
    }
}

impl Widget for Divider {
    open spec fn well_formed(&self) -> bool {
        true
    }

    open spec fn min_size_spec(&self) -> (u16, u16) {
        (1, 1)
    }

    open spec fn flex_spec(&self) -> Option<i32> {
        None
    }

    open spec fn floors(&self) -> bool {
        false
    }

    open spec fn render_spec(&self, width: u16, height: u16) -> Seq<Seq<char>> {
        Seq::new(height as nat, |j: int| Seq::new(width as nat, |i: int| self.cell(width, i, j)))
    }

    fn min_size(&self) -> (size: (u16, u16)) {
        (1, 1)
    }

    fn render(&self, width: u16, height: u16) -> (canvas: Canvas) {
        let column = if width > 1 {
            width / 2
        } else {
            0
        };
        let mut canvas: Canvas = Vec::new();
        let mut j: u16 = 0;
        while j < height
            invariant
                j <= height,
                column == divider_column(width),
                grid(&canvas) == self.render_spec(width, j),
            decreases height - j,
        {
            let ghost before = grid(&canvas);
            let mut row: Vec<char> = Vec::new();
            let mut i: u16 = 0;
            while i < width
                invariant
                    i <= width,
                    column == divider_column(width),
                    row@ == Seq::new(i as nat, |k: int| self.cell(width, k, j as int)),
                decreases width - i,
            {
                let ch = match self.orientation {
                    Orientation::Horizontal => if j == 0 {
                        self.ch
                    } else {
                        ' '
                    },
                    Orientation::Vertical => if i == column {
                        self.ch
                    } else {
                        ' '
                    },
                };
                row.push(ch);
                i = i + 1;
                assert(row@ =~= Seq::new(i as nat, |k: int| self.cell(width, k, j as int)));
            }
            canvas.push(row);
            j = j + 1;
            assert(grid(&canvas) =~= before.push(row@));
            assert(grid(&canvas) =~= self.render_spec(width, j));
        }
        canvas
    }

    fn flex_factor(&self) -> (flex: Option<i32>) {
        None
    }
}
impl IntoWidget for Divider {
    open spec fn ready(&self) -> bool {
        true
    }

    open spec fn yields(&self, widget: AnyWidget) -> bool {
        widget == AnyWidget::Divider(*self) && same_layout(&widget, self)
    }

    fn into_widget(self) -> (widget: AnyWidget) {
        let ghost me = self;
        let widget = AnyWidget::Divider(self);
        assert(widget.well_formed() == me.well_formed());
        assert(widget.min_size_spec() == me.min_size_spec());
        assert(widget.flex_spec() == me.flex_spec());
        assert(widget.floors() == me.floors());
        widget
    }
}

/// A horizontal divider drawn with `ch`.
pub fn divider(ch: char) -> (d: Divider)
    ensures
        d.ch == ch,
        d.orientation is Horizontal,
{
    Divider::new(ch)
}

} // verus!
