//! A bar that shows how much of a task is done.

use crate::ui::rendering::{grid, same_layout, Canvas, IntoWidget, Widget};
use crate::ui::tree::AnyWidget;
use vstd::prelude::*;

verus! {

/// A bar of which the leading part is filled. The filled share is
/// `numer / denom`, read as 0 where `denom` is 0 and as 1 where it is above 1.
pub struct ProgressBar {
    pub numer: u32,
    pub denom: u32,
    pub background: char,
    pub foreground: char,
    pub tip: char,
}

/// The number of filled cells of a bar of `width` cells: the width times the
/// share clamped to [0, 1], rounded down.
pub open spec fn active_cells(width: u16, numer: u32, denom: u32) -> int {
    if denom == 0 {
        0
    } else if numer >= denom {
        width as int
    } else {
        (width as int * numer as int) / denom as int
    }
}

/// The share is 1 or more.
pub open spec fn is_full(numer: u32, denom: u32) -> bool {
    denom != 0 && numer >= denom
}

proof fn lemma_active_bounds(width: u16, numer: u32, denom: u32)
    ensures
        0 <= active_cells(width, numer, denom) <= width,
{
    if denom != 0 && numer < denom {
        let w = width as int;
        let n = numer as int;
        let d = denom as int;
        assert(0 <= (w * n) / d <= w) by (nonlinear_arith)
            requires
                0 <= w,
                0 <= n < d,
        ;
    }
}

impl ProgressBar {
    /// A bar filled to `numer / denom`, drawn with the three glyphs.
    pub fn new(numer: u32, denom: u32, background: char, foreground: char, tip: char) -> (bar: Self)
        ensures
            bar == (ProgressBar { numer, denom, background, foreground, tip }),
    {
        Self { numer, denom, background, foreground, tip }
    }

    /// The glyph in column `i` of a bar of `width` cells: the foreground in
    /// the filled part, but the tip in its last cell unless the bar is full,
    /// and the background in the rest.
    pub open spec fn cell(&self, width: u16, i: int) -> char {
        let active = active_cells(width, self.numer, self.denom);
        if i < active {
            if i == active - 1 && !is_full(self.numer, self.denom) {
                self.tip
            } else {
                self.foreground
            }
        } else {
            self.background
        }
    }

    /// Returns the number of filled cells of the bar at `width` cells.
    pub fn active(&self, width: u16) -> (n: u16)
        ensures
            n == active_cells(width, self.numer, self.denom),
            n <= width,
    {
        proof {
            lemma_active_bounds(width, self.numer, self.denom);
        }
        if self.denom == 0 {
            0
        } else if self.numer >= self.denom {
            width
        } else {
            assert(width as int * self.numer as int <= 0xffff * 0xffff_ffff) by (nonlinear_arith)
                requires
                    0 <= width as int <= 0xffff,
                    0 <= self.numer as int <= 0xffff_ffff,
            ;
            let product: u64 = (width as u64) * (self.numer as u64);
            (product / (self.denom as u64)) as u16
        }
    }

    /// Tells whether the widget is well formed.
    pub fn is_well_formed(&self) -> (ok: bool)
        ensures
            ok == self.well_formed(),
    {
        true
    }
}

impl Widget for ProgressBar {
    open spec fn well_formed(&self) -> bool {
        true
    }

    open spec fn min_size_spec(&self) -> (u16, u16) {
        (5, 1)
    }

    open spec fn flex_spec(&self) -> Option<i32> {
        None
    }

    open spec fn floors(&self) -> bool {
        false
    }

    open spec fn render_spec(&self, width: u16, height: u16) -> Seq<Seq<char>> {
        Seq::new(height as nat, |j: int| Seq::new(width as nat, |i: int| self.cell(width, i)))
    }

    fn min_size(&self) -> (size: (u16, u16)) {
        (5, 1)
    }

    fn render(&self, width: u16, height: u16) -> (canvas: Canvas) {
        let active = self.active(width);
        let full = self.denom != 0 && self.numer >= self.denom;
        let mut canvas: Canvas = Vec::new();
        let mut j: u16 = 0;
        while j < height
            invariant
                j <= height,
                active == active_cells(width, self.numer, self.denom),
                full == is_full(self.numer, self.denom),
                grid(&canvas) == self.render_spec(width, j),
            decreases height - j,
        {
            let ghost before = grid(&canvas);
            let mut row: Vec<char> = Vec::new();
            let mut i: u16 = 0;
            while i < width
                invariant
                    i <= width,
                    active == active_cells(width, self.numer, self.denom),
                    full == is_full(self.numer, self.denom),
                    row@ == Seq::new(i as nat, |k: int| self.cell(width, k)),
                decreases width - i,
            {
                let ch = if i < active {
                    if i == active - 1 && !full {
                        self.tip
                    } else {
                        self.foreground
                    }
                } else {
                    self.background
                };
                row.push(ch);
                i = i + 1;
                assert(row@ =~= Seq::new(i as nat, |k: int| self.cell(width, k)));
            }
            canvas.push(row);
            j = j + 1;
            assert(grid(&canvas) =~= before.push(row@));
            assert(grid(&canvas) =~= self.render_spec(width, j));
        }
        canvas
    }

    fn flex_factor(&self) -> (flex: Option<i32>) {
        None
    }
}
impl IntoWidget for ProgressBar {
    open spec fn ready(&self) -> bool {
        true
    }

    open spec fn yields(&self, widget: AnyWidget) -> bool {
        widget == AnyWidget::ProgressBar(*self) && same_layout(&widget, self)
    }

    fn into_widget(self) -> (widget: AnyWidget) {
        let ghost me = self;
        let widget = AnyWidget::ProgressBar(self);
        assert(widget.well_formed() == me.well_formed());
        assert(widget.min_size_spec() == me.min_size_spec());
        assert(widget.flex_spec() == me.flex_spec());
        assert(widget.floors() == me.floors());
        widget
    }
}

/// A bar filled to `numer / denom`.
pub fn progress_bar(
    numer: u32,
    denom: u32,
    foreground: char,
    tip: char,
    background: char,
) -> (bar: ProgressBar)
    ensures
        bar == (ProgressBar { numer, denom, background, foreground, tip }),
{
    ProgressBar::new(numer, denom, background, foreground, tip)
}

} // verus!
