//! A frame around a child.

use crate::ui::rendering::{
    floored, grid, is_rect, overlay, overlay_spec, same_layout, Canvas, IntoWidget, Widget,
};
use crate::ui::tree::AnyWidget;
use vstd::prelude::*;

verus! {

/// The glyph of each side of a frame. A side without a glyph is not drawn
/// and takes no room.
#[derive(Clone, Copy)]
pub struct Borders {
    pub left: Option<char>,
    pub right: Option<char>,
    pub top: Option<char>,
    pub bottom: Option<char>,
}

/// The glyph of each corner of a frame. A corner without a glyph is left
/// blank.
#[derive(Clone, Copy)]
pub struct Corners {
    pub top_left: Option<char>,
    pub top_right: Option<char>,
    pub bottom_left: Option<char>,
    pub bottom_right: Option<char>,
}

/// A child with a frame drawn around it.
pub struct Border {
    pub child: Box<AnyWidget>,
    pub borders: Borders,
    pub corners: Corners,
}

/// The room that a side takes: 1 where it is drawn, else 0.
pub open spec fn edge(side: Option<char>) -> int {
    if side is Some {
        1
    } else {
        0
    }
}

/// What is drawn for a corner between two drawn sides: its glyph, or a space
/// where it has none.
pub open spec fn corner_glyph(corner: Option<char>) -> char {
    match corner {
        Some(glyph) => glyph,
        None => ' ',
    }
}

/// The cell in column `i` of row `j` of a frame of `w` columns and `h` rows.
/// Where two drawn sides meet, their corner is drawn; elsewhere on a drawn
/// side its glyph, the left and right sides over the top and bottom ones;
/// and a space inside.
pub open spec fn frame_cell(borders: Borders, corners: Corners, w: int, h: int, i: int, j: int)
    -> char {
    let top = borders.top is Some && j == 0;
    let bottom = borders.bottom is Some && j == h - 1;
    let left = borders.left is Some && i == 0;
    let right = borders.right is Some && i == w - 1;
    if bottom && right {
        corner_glyph(corners.bottom_right)
    } else if bottom && left {
        corner_glyph(corners.bottom_left)
    } else if top && right {
        corner_glyph(corners.top_right)
    } else if top && left {
        corner_glyph(corners.top_left)
    } else if right {
        borders.right->0
    } else if left {
        borders.left->0
    } else if bottom {
        borders.bottom->0
    } else if top {
        borders.top->0
    } else {
        ' '
    }
}

/// The frame of `w` columns and `h` rows with nothing inside.
pub open spec fn frame(borders: Borders, corners: Corners, w: int, h: int) -> Seq<Seq<char>> {
    Seq::new(
        h as nat,
        |j: int| Seq::new(w as nat, |i: int| frame_cell(borders, corners, w, h, i, j)),
    )
}

/// Returns the glyph that a drawn corner shows.
fn glyph_of(corner: Option<char>) -> (glyph: char)
    ensures
        glyph == corner_glyph(corner),
{
    match corner {
        Some(glyph) => glyph,
        None => ' ',
    }
}

/// Returns the cell in column `i` of row `j` of the frame.
fn cell_of(borders: &Borders, corners: &Corners, w: u16, h: u16, i: u16, j: u16) -> (cell: char)
    requires
        i < w,
        j < h,
    ensures
        cell == frame_cell(*borders, *corners, w as int, h as int, i as int, j as int),
{
    let top = borders.top.is_some() && j == 0;
    let bottom = borders.bottom.is_some() && j == h - 1;
    let left = borders.left.is_some() && i == 0;
    let right = borders.right.is_some() && i == w - 1;
    if bottom && right {
        glyph_of(corners.bottom_right)
    } else if bottom && left {
        glyph_of(corners.bottom_left)
    } else if top && right {
        glyph_of(corners.top_right)
    } else if top && left {
        glyph_of(corners.top_left)
    } else if right {
        glyph_of(borders.right)
    } else if left {
        glyph_of(borders.left)
    } else if bottom {
        glyph_of(borders.bottom)
    } else if top {
        glyph_of(borders.top)
    } else {
        ' '
    }
}

/// Draws the frame of `w` columns and `h` rows with nothing inside.
pub fn draw_frame(borders: &Borders, corners: &Corners, w: u16, h: u16) -> (canvas: Canvas)
    ensures
        grid(&canvas) == frame(*borders, *corners, w as int, h as int),
        is_rect(grid(&canvas), w as int, h as int),
{
    let mut canvas: Canvas = Vec::new();
    let mut j: u16 = 0;
    while j < h
        invariant
            j <= h,
            grid(&canvas).len() == j,
            forall|r: int|
                0 <= r < j ==> #[trigger] grid(&canvas)[r] == frame(
                    *borders,
                    *corners,
                    w as int,
                    h as int,
                )[r],
        decreases h - j,
    {
        let ghost before = grid(&canvas);
        let mut row: Vec<char> = Vec::new();
        let mut i: u16 = 0;
        while i < w
            invariant
                i <= w,
                j < h,
                row@ == Seq::new(
                    i as nat,
                    |k: int| frame_cell(*borders, *corners, w as int, h as int, k, j as int),
                ),
            decreases w - i,
        {
            row.push(cell_of(borders, corners, w, h, i, j));
            i = i + 1;
            assert(row@ =~= Seq::new(
                i as nat,
                |k: int| frame_cell(*borders, *corners, w as int, h as int, k, j as int),
            ));
        }
        canvas.push(row);
        j = j + 1;
        assert(grid(&canvas) =~= before.push(row@));
    }
    assert(grid(&canvas) =~= frame(*borders, *corners, w as int, h as int));
    canvas
}

impl Border {
    /// What is well formed and the minimum size come to for a border: the
    /// child is well formed and, with the sides that are drawn, still fits;
    /// and the minimum size is that of the child and one for each drawn side.
    pub open spec fn measured(&self) -> bool {
        &&& self.well_formed() == (self.child.well_formed() && self.child.min_size_spec().0
            + edge(self.borders.left) + edge(self.borders.right) <= u16::MAX
            && self.child.min_size_spec().1 + edge(self.borders.top) + edge(self.borders.bottom)
            <= u16::MAX)
        &&& self.min_size_spec() == (
            (self.child.min_size_spec().0 + edge(self.borders.left) + edge(self.borders.right))
                as u16,
            (self.child.min_size_spec().1 + edge(self.borders.top) + edge(self.borders.bottom))
                as u16,
        )
    }

    /// Every border is measured so.
    pub proof fn lemma_measured(&self)
        ensures
            self.measured(),
    {
        assert(self.well_formed() == (self.child.well_formed() && self.child.min_size_spec().0
            + edge(self.borders.left) + edge(self.borders.right) <= u16::MAX
            && self.child.min_size_spec().1 + edge(self.borders.top) + edge(self.borders.bottom)
            <= u16::MAX));
        assert(self.min_size_spec() == (
            (self.child.min_size_spec().0 + edge(self.borders.left) + edge(self.borders.right))
                as u16,
            (self.child.min_size_spec().1 + edge(self.borders.top) + edge(self.borders.bottom))
                as u16,
        ));
    }

    /// `child` in a frame of `|` and `-` with `+` at the corners.
    pub fn new<T: IntoWidget>(child: T) -> (b: Self)
        requires
            child.ready(),
        ensures
            child.yields(*b.child),
            b.borders == (Borders {
                left: Some('|'),
                right: Some('|'),
                top: Some('-'),
                bottom: Some('-'),
            }),
            b.corners == (Corners {
                top_left: Some('+'),
                top_right: Some('+'),
                bottom_left: Some('+'),
                bottom_right: Some('+'),
            }),
            b.measured(),
    {
        let b = Self {
            child: Box::new(child.into_widget()),
            borders: Borders {
                left: Some('|'),
                right: Some('|'),
                top: Some('-'),
                bottom: Some('-'),
            },
            corners: Corners {
                top_left: Some('+'),
                top_right: Some('+'),
                bottom_left: Some('+'),
                bottom_right: Some('+'),
            },
        };
        proof {
            b.lemma_measured();
        }
        b
    }

    /// The same, with the sides drawn as `borders` says.
    pub fn borders(self, borders: Borders) -> (b: Self)
        ensures
            b == (Border { borders, ..self }),
            b.measured(),
    {
        let b = Self { borders, ..self };
        proof {
            b.lemma_measured();
        }
        b
    }

    /// The same, with the corners drawn as `corners` says.
    pub fn corners(self, corners: Corners) -> (b: Self)
        ensures
            b == (Border { corners, ..self }),
            b.measured(),
    {
        let b = Self { corners, ..self };
        proof {
            b.lemma_measured();
        }
        b
    }

    /// The width of the canvas that the border renders when given `width`.
    pub open spec fn outer_width(&self, width: u16) -> int {
        floored(true, self.min_size_spec().0, width)
    }

    /// The height of the canvas that the border renders when given `height`.
    pub open spec fn outer_height(&self, height: u16) -> int {
        floored(true, self.min_size_spec().1, height)
    }

    /// Tells whether the widget is well formed.
    pub fn is_well_formed(&self) -> (ok: bool)
        ensures
            ok == self.well_formed(),
        decreases self,
    {
        if !self.child.is_well_formed() {
            return false;
        }
        let (child_w, child_h) = self.child.min_size();
        let left: u32 = if self.borders.left.is_some() {
            1
        } else {
            0
        };
        let right: u32 = if self.borders.right.is_some() {
            1
        } else {
            0
        };
        let top: u32 = if self.borders.top.is_some() {
            1
        } else {
            0
        };
        let bottom: u32 = if self.borders.bottom.is_some() {
            1
        } else {
            0
        };
        child_w as u32 + left + right <= 0xffff && child_h as u32 + top + bottom <= 0xffff
    }
}

impl Widget for Border {
    open spec fn well_formed(&self) -> bool
        decreases self,
    {
        &&& self.child.well_formed()
        &&& self.child.min_size_spec().0 + edge(self.borders.left) + edge(self.borders.right)
            <= u16::MAX
        &&& self.child.min_size_spec().1 + edge(self.borders.top) + edge(self.borders.bottom)
            <= u16::MAX
    }

    open spec fn min_size_spec(&self) -> (u16, u16)
        decreases self,
    {
        (
            (self.child.min_size_spec().0 + edge(self.borders.left) + edge(self.borders.right))
                as u16,
            (self.child.min_size_spec().1 + edge(self.borders.top) + edge(self.borders.bottom))
                as u16,
        )
    }

    open spec fn flex_spec(&self) -> Option<i32> {
        None
    }

    open spec fn floors(&self) -> bool {
        true
    }

    open spec fn render_spec(&self, width: u16, height: u16) -> Seq<Seq<char>>
        decreases self,
    {
        let w = self.outer_width(width);
        let h = self.outer_height(height);
        overlay_spec(
            frame(self.borders, self.corners, w, h),
            self.child.render_spec(
                (w - edge(self.borders.left) - edge(self.borders.right)) as u16,
                (h - edge(self.borders.top) - edge(self.borders.bottom)) as u16,
            ),
            edge(self.borders.left),
            edge(self.borders.top),
        )
    }

    fn min_size(&self) -> (size: (u16, u16))
        decreases self,
    {
        let (child_w, child_h) = self.child.min_size();
        let left: u16 = if self.borders.left.is_some() {
            1
        } else {
            0
        };
        let right: u16 = if self.borders.right.is_some() {
            1
        } else {
            0
        };
        let top: u16 = if self.borders.top.is_some() {
            1
        } else {
            0
        };
        let bottom: u16 = if self.borders.bottom.is_some() {
            1
        } else {
            0
        };
        (child_w + left + right, child_h + top + bottom)
    }

    fn render(&self, width: u16, height: u16) -> (canvas: Canvas)
        decreases self,
    {
        let (min_w, min_h) = self.min_size();
        let width = if width < min_w {
            min_w
        } else {
            width
        };
        let height = if height < min_h {
            min_h
        } else {
            height
        };
        let mut canvas = draw_frame(&self.borders, &self.corners, width, height);
        let left: u16 = if self.borders.left.is_some() {
            1
        } else {
            0
        };
        let right: u16 = if self.borders.right.is_some() {
            1
        } else {
            0
        };
        let top: u16 = if self.borders.top.is_some() {
            1
        } else {
            0
        };
        let bottom: u16 = if self.borders.bottom.is_some() {
            1
        } else {
            0
        };
        let inner_width = width - left - right;
        let inner_height = height - top - bottom;
        let child_canvas = self.child.render(inner_width, inner_height);
        overlay(&mut canvas, &child_canvas, left, top);
        canvas
    }

    fn flex_factor(&self) -> (flex: Option<i32>) {
        None
    }
}

/// A border with all four sides is two wider and two higher than its child
/// at the least; a border with no side is as small as its child.
pub proof fn lemma_border_min_size(border: &Border)
    requires
        border.well_formed(),
    ensures
        border.borders.left is Some && border.borders.right is Some && border.borders.top is Some
            && border.borders.bottom is Some ==> border.min_size_spec() == (
            (border.child.min_size_spec().0 + 2) as u16,
            (border.child.min_size_spec().1 + 2) as u16,
        ) && border.child.min_size_spec().0 + 2 <= u16::MAX && border.child.min_size_spec().1 + 2
            <= u16::MAX,
        border.borders.left is None && border.borders.right is None && border.borders.top is None
            && border.borders.bottom is None ==> border.min_size_spec()
            == border.child.min_size_spec(),
{
    border.lemma_measured();
}

impl IntoWidget for Border {
    open spec fn ready(&self) -> bool {
        true
    }

    open spec fn yields(&self, widget: AnyWidget) -> bool {
        widget == AnyWidget::Border(*self) && same_layout(&widget, self)
    }

    fn into_widget(self) -> (widget: AnyWidget) {
        let ghost me = self;
        let widget = AnyWidget::Border(self);
        assert(widget.well_formed() == me.well_formed());
        assert(widget.min_size_spec() == me.min_size_spec());
        assert(widget.flex_spec() == me.flex_spec());
        assert(widget.floors() == me.floors());
        widget
    }
}

/// `child` in a frame of `|` and `-` with `+` at the corners.
pub fn border<T: IntoWidget>(child: T) -> (b: Border)
    requires
        child.ready(),
    ensures
        child.yields(*b.child),
        b.borders == (Borders {
            left: Some('|'),
            right: Some('|'),
            top: Some('-'),
            bottom: Some('-'),
        }),
        b.corners == (Corners {
            top_left: Some('+'),
            top_right: Some('+'),
            bottom_left: Some('+'),
            bottom_right: Some('+'),
        }),
        b.measured(),
{
    Border::new(child)
}

} // verus!
