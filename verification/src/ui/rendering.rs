//! The canvas, the compositing primitives and the `Widget` capability.

use crate::ui::lines::string_from_chars;
use crate::ui::tree::AnyWidget;
use vstd::prelude::*;

verus! {

/// Number of rows of the display.
pub const NIO_MAX_ROWS: u16 = 30;

/// Number of columns of the display.
pub const NIO_MAX_COLS: u16 = 53;

/// A cell holding this character blanks the cell beneath it when composited,
/// and is printed as a space.
pub const WIPE_CHAR: char = '\u{E000}';

/// A grid of characters: a vector of rows.
pub type Canvas = Vec<Vec<char>>;

/// The mathematical content of a canvas: a sequence of rows of characters.
pub open spec fn grid(c: &Canvas) -> Seq<Seq<char>> {
    Seq::new(c@.len(), |j: int| c@[j]@)
}

/// `g` has exactly `h` rows of exactly `w` characters.
pub open spec fn is_rect(g: Seq<Seq<char>>, w: int, h: int) -> bool {
    &&& g.len() == h
    &&& forall|j: int| 0 <= j < g.len() ==> (#[trigger] g[j]).len() == w
}

/// A row of `w` spaces.
pub open spec fn blank_row(w: int) -> Seq<char> {
    Seq::new(w as nat, |i: int| ' ')
}

/// The grid of `h` rows and `w` columns that holds spaces only.
pub open spec fn blank(w: int, h: int) -> Seq<Seq<char>> {
    Seq::new(h as nat, |j: int| blank_row(w))
}

/// What a parent cell becomes when a child cell is pasted on it: a space in
/// the child leaves the parent as it is, the wipe character blanks it, any
/// other character replaces it.
pub open spec fn overlay_cell(parent: char, child: char) -> char {
    if child == ' ' {
        parent
    } else if child == WIPE_CHAR {
        ' '
    } else {
        child
    }
}

/// One parent row after a child row is pasted on it from column `x` on.
/// Child cells that fall outside the parent row are dropped.
pub open spec fn overlay_row(parent: Seq<char>, child: Seq<char>, x: int) -> Seq<char> {
    Seq::new(
        parent.len(),
        |i: int|
            if x <= i < x + child.len() {
                overlay_cell(parent[i], child[i - x])
            } else {
                parent[i]
            },
    )
}

/// The parent grid after the child grid is pasted on it with its top-left
/// corner at column `x`, row `y`. The parent keeps its shape.
pub open spec fn overlay_spec(
    parent: Seq<Seq<char>>,
    child: Seq<Seq<char>>,
    x: int,
    y: int,
) -> Seq<Seq<char>> {
    Seq::new(
        parent.len(),
        |j: int|
            if y <= j < y + child.len() {
                overlay_row(parent[j], child[j - y], x)
            } else {
                parent[j]
            },
    )
}

/// The character printed for a cell.
pub open spec fn printable(ch: char) -> char {
    if ch == WIPE_CHAR {
        ' '
    } else {
        ch
    }
}

/// The printed form of one row.
pub open spec fn print_row(row: Seq<char>) -> Seq<char> {
    Seq::new(row.len(), |i: int| printable(row[i]))
}

/// The printed form of a grid: its rows, each in printed form, joined by
/// newlines.
pub open spec fn flatten(g: Seq<Seq<char>>) -> Seq<char>
    decreases g.len(),
{
    if g.len() == 0 {
        Seq::empty()
    } else if g.len() == 1 {
        print_row(g[0])
    } else {
        flatten(g.drop_last()) + seq!['\n'] + print_row(g.last())
    }
}

/// The extent of a rendered canvas along one axis: what was asked for, or the
/// widget's minimum where the widget never renders smaller than that.
pub open spec fn floored(floors: bool, min: u16, asked: u16) -> int {
    if floors && asked < min {
        min as int
    } else {
        asked as int
    }
}

/// A widget of the minimum size `size` is shown whole on the display.
pub open spec fn fits_display(size: (u16, u16)) -> bool {
    size.0 <= NIO_MAX_COLS && size.1 <= NIO_MAX_ROWS
}

/// What every layout node can do: report a minimum size, render itself into
/// an allocated size, and report a flex weight.
pub trait Widget {
    /// The sizes that the widget computes fit the machine types that hold them.
    spec fn well_formed(&self) -> bool;

    /// The minimum (width, height) of the widget.
    spec fn min_size_spec(&self) -> (u16, u16);

    /// The weight by which a row or column hands this widget spare room.
    spec fn flex_spec(&self) -> Option<i32>;

    /// Whether the widget renders at its minimum size when allocated less.
    spec fn floors(&self) -> bool;

    /// The grid that the widget renders into an allocation.
    spec fn render_spec(&self, width: u16, height: u16) -> Seq<Seq<char>>;

    /// Returns the minimum (width, height) that the widget needs.
    fn min_size(&self) -> (size: (u16, u16))
        requires
            self.well_formed(),
        ensures
            size == self.min_size_spec(),
    ;

    /// Renders the widget into a canvas of `height` rows and `width` columns
    /// (or of its minimum size, where the widget floors and is given less).
    fn render(&self, width: u16, height: u16) -> (canvas: Canvas)
        requires
            self.well_formed(),
        ensures
            grid(&canvas) == self.render_spec(width, height),
            is_rect(
                grid(&canvas),
                floored(self.floors(), self.min_size_spec().0, width),
                floored(self.floors(), self.min_size_spec().1, height),
            ),
    ;

    /// Returns the flex weight of the widget, if it has one.
    fn flex_factor(&self) -> (flex: Option<i32>)
        ensures
            flex == self.flex_spec(),
    ;
}

/// What can be made the child of a container.
pub trait IntoWidget: Sized {
    /// The conversion may be asked for.
    spec fn ready(&self) -> bool;

    /// `widget` is what the conversion may give.
    spec fn yields(&self, widget: AnyWidget) -> bool;

    /// Converts into a widget that a container can hold.
    fn into_widget(self) -> (widget: AnyWidget)
        requires
            self.ready(),
        ensures
            self.yields(widget),
    ;
}

/// Two widgets agree in what a container asks of its child before it renders
/// it: whether it is well formed, its minimum size, its flex weight, and
/// whether it floors.
pub open spec fn same_layout<A: Widget, B: Widget>(a: &A, b: &B) -> bool {
    &&& a.well_formed() == b.well_formed()
    &&& a.min_size_spec() == b.min_size_spec()
    &&& a.flex_spec() == b.flex_spec()
    &&& a.floors() == b.floors()
}

/// `canvas` is what `widget` renders into `width` columns and `height` rows.
pub open spec fn renders<W: Widget>(widget: &W, width: u16, height: u16, canvas: &Canvas) -> bool {
    grid(canvas) == widget.render_spec(width, height)
}

/// Builds a row of `width` copies of `ch`.
pub fn filled_row(ch: char, width: u16) -> (row: Vec<char>)
    ensures
        row@ == Seq::new(width as nat, |i: int| ch),
{
    let mut row: Vec<char> = Vec::new();
    let mut i: u16 = 0;
    while i < width
        invariant
            i <= width,
            row@ == Seq::new(i as nat, |k: int| ch),
        decreases width - i,
    {
        row.push(ch);
        i = i + 1;
        assert(row@ =~= Seq::new(i as nat, |k: int| ch));
    }
    row
}

/// Creates a canvas of `height` rows and `width` columns filled with spaces.
pub fn create_canvas(width: u16, height: u16) -> (canvas: Canvas)
    ensures
        grid(&canvas) == blank(width as int, height as int),
        is_rect(grid(&canvas), width as int, height as int),
{
    let mut canvas: Canvas = Vec::new();
    let mut j: u16 = 0;
    while j < height
        invariant
            j <= height,
            grid(&canvas) == blank(width as int, j as int),
        decreases height - j,
    {
        let ghost before = grid(&canvas);
        let row = filled_row(' ', width);
        assert(row@ =~= blank_row(width as int));
        canvas.push(row);
        j = j + 1;
        assert(grid(&canvas) =~= before.push(blank_row(width as int)));
        assert(grid(&canvas) =~= blank(width as int, j as int));
    }
    canvas
}

/// Pastes `child` on `row` from column `x` on.
fn overlay_onto_row(row: &mut Vec<char>, child: &Vec<char>, x: usize)
    ensures
        final(row)@ == overlay_row(old(row)@, child@, x as int),
{
    let row_len = row.len();
    let child_len = child.len();
    let mut i: usize = 0;
    while i < child_len && x < row_len && i < row_len - x
        invariant
            row@.len() == row_len,
            row_len == old(row)@.len(),
            child_len == child@.len(),
            i <= child_len,
            x < row_len ==> i <= row_len - x,
            forall|k: int|
                0 <= k < row_len ==> #[trigger] row@[k] == if x <= k < x + i {
                    overlay_cell(old(row)@[k], child@[k - x])
                } else {
                    old(row)@[k]
                },
        decreases child_len - i,
    {
        let ch = child[i];
        if ch == WIPE_CHAR {
            row[x + i] = ' ';
        } else if ch != ' ' {
            row[x + i] = ch;
        }
        i = i + 1;
    }
    assert(row@ =~= overlay_row(old(row)@, child@, x as int));
}

/// Pastes `child` on `canvas` with its top-left corner at column `offset_x`,
/// row `offset_y`. Spaces in the child leave the canvas as it is, the wipe
/// character blanks the cell beneath it, and what falls outside the canvas is
/// dropped.
pub fn overlay(canvas: &mut Canvas, child: &Canvas, offset_x: u16, offset_y: u16)
    ensures
        grid(final(canvas)) == overlay_spec(
            grid(old(canvas)),
            grid(child),
            offset_x as int,
            offset_y as int,
        ),
{
    let height = canvas.len();
    let child_height = child.len();
    let x = offset_x as usize;
    let y = offset_y as usize;
    let mut j: usize = 0;
    while j < child_height && y < height && j < height - y
        invariant
            canvas@.len() == height,
            height == old(canvas)@.len(),
            child_height == child@.len(),
            x == offset_x,
            y == offset_y,
            j <= child_height,
            y < height ==> j <= height - y,
            forall|r: int|
                0 <= r < height ==> #[trigger] canvas@[r]@ == if y <= r < y + j {
                    overlay_row(old(canvas)@[r]@, child@[r - y]@, x as int)
                } else {
                    old(canvas)@[r]@
                },
        decreases child_height - j,
    {
        overlay_onto_row(&mut canvas[y + j], &child[j], x);
        j = j + 1;
    }
    assert(grid(canvas) =~= overlay_spec(
        grid(old(canvas)),
        grid(child),
        offset_x as int,
        offset_y as int,
    ));
}

/// Appends the printed form of `row` to `out`.
fn push_printed(out: &mut Vec<char>, row: &Vec<char>)
    ensures
        final(out)@ == old(out)@ + print_row(row@),
{
    let n = row.len();
    let mut i: usize = 0;
    while i < n
        invariant
            n == row@.len(),
            i <= n,
            out@ == old(out)@ + print_row(row@).take(i as int),
        decreases n - i,
    {
        let ch = row[i];
        if ch == WIPE_CHAR {
            out.push(' ');
        } else {
            out.push(ch);
        }
        i = i + 1;
        assert(out@ =~= old(out)@ + print_row(row@).take(i as int));
    }
    assert(print_row(row@).take(n as int) =~= print_row(row@));
}

/// Turns a canvas into printable text: the rows joined by newlines, each
/// wipe character replaced by a space.
pub fn canvas_to_string(canvas: &Canvas) -> (s: String)
    ensures
        s@ == flatten(grid(canvas)),
{
    let mut out: Vec<char> = Vec::new();
    let n = canvas.len();
    let mut j: usize = 0;
    while j < n
        invariant
            n == canvas@.len(),
            j <= n,
            out@ == flatten(grid(canvas).take(j as int)),
        decreases n - j,
    {
        if j > 0 {
            out.push('\n');
        }
        push_printed(&mut out, &canvas[j]);
        j = j + 1;
        proof {
            let g = grid(canvas).take(j as int);
            assert(g.drop_last() =~= grid(canvas).take(j - 1));
            assert(g.last() == canvas@[j - 1]@);
            if j == 1 {
                assert(out@ =~= print_row(g[0]));
            } else {
                assert(out@ =~= flatten(g.drop_last()) + seq!['\n'] + print_row(g.last()));
            }
        }
    }
    assert(grid(canvas).take(n as int) =~= grid(canvas));
    string_from_chars(&out)
}

/// Renders `widget` at the size of the display and returns it as printable
/// text.
pub fn render_ui<W: Widget>(widget: W) -> (text: String)
    requires
        widget.well_formed(),
    ensures
        text@ == flatten(widget.render_spec(NIO_MAX_COLS, NIO_MAX_ROWS)),
{
    let canvas = widget.render(NIO_MAX_COLS, NIO_MAX_ROWS);
    canvas_to_string(&canvas)
}

/// Renders `widget` at the size of the display and returns it as printable
/// text, where the widget is well formed.
pub fn try_render_ui(widget: &AnyWidget) -> (text: Option<String>)
    ensures
        text is Some <==> widget.well_formed(),
        text matches Some(t) ==> t@ == flatten(widget.render_spec(NIO_MAX_COLS, NIO_MAX_ROWS)),
{
    match widget.try_render(NIO_MAX_COLS, NIO_MAX_ROWS) {
        Some(canvas) => Some(canvas_to_string(&canvas)),
        None => None,
    }
}

/// Pasting a child keeps the shape of the parent.
pub proof fn lemma_overlay_keeps_shape(
    parent: Seq<Seq<char>>,
    child: Seq<Seq<char>>,
    x: int,
    y: int,
)
    ensures
        overlay_spec(parent, child, x, y).len() == parent.len(),
        forall|j: int|
            0 <= j < parent.len() ==> (#[trigger] overlay_spec(parent, child, x, y)[j]).len()
                == parent[j].len(),
{
}

/// A space in the child never replaces what the parent holds beneath it.
pub proof fn lemma_overlay_space_keeps_parent(
    parent: Seq<Seq<char>>,
    child: Seq<Seq<char>>,
    x: int,
    y: int,
    i: int,
    j: int,
)
    requires
        0 <= j < parent.len(),
        0 <= i < parent[j].len(),
        y <= j < y + child.len(),
        x <= i < x + child[j - y].len(),
        child[j - y][i - x] == ' ',
    ensures
        overlay_spec(parent, child, x, y)[j][i] == parent[j][i],
{
}

/// The wipe character in the child blanks the cell of the parent beneath it,
/// whatever the parent held there.
pub proof fn lemma_overlay_wipe_blanks_parent(
    parent: Seq<Seq<char>>,
    child: Seq<Seq<char>>,
    x: int,
    y: int,
    i: int,
    j: int,
)
    requires
        0 <= j < parent.len(),
        0 <= i < parent[j].len(),
        y <= j < y + child.len(),
        x <= i < x + child[j - y].len(),
        child[j - y][i - x] == WIPE_CHAR,
    ensures
        overlay_spec(parent, child, x, y)[j][i] == ' ',
{
}

/// Any other character of the child replaces what the parent holds beneath
/// it, and a cell that the child does not cover stays as it is.
pub proof fn lemma_overlay_cells(
    parent: Seq<Seq<char>>,
    child: Seq<Seq<char>>,
    x: int,
    y: int,
    i: int,
    j: int,
)
    requires
        0 <= j < parent.len(),
        0 <= i < parent[j].len(),
    ensures
        overlay_spec(parent, child, x, y)[j][i] == if y <= j < y + child.len() && x <= i < x
            + child[j - y].len() {
            overlay_cell(parent[j][i], child[j - y][i - x])
        } else {
            parent[j][i]
        },
{
}

/// The printed form of a row never holds the wipe character.
pub proof fn lemma_print_has_no_wipe(row: Seq<char>, i: int)
    requires
        0 <= i < row.len(),
    ensures
        print_row(row)[i] != WIPE_CHAR,
{
}

/// The printed form of a grid never holds the wipe character.
pub proof fn lemma_flatten_has_no_wipe(g: Seq<Seq<char>>, i: int)
    requires
        0 <= i < flatten(g).len(),
    ensures
        flatten(g)[i] != WIPE_CHAR,
    decreases g.len(),
{
    if g.len() == 1 {
        lemma_print_has_no_wipe(g[0], i);
    } else if g.len() > 1 {
        let front = flatten(g.drop_last());
        if i < front.len() {
            lemma_flatten_has_no_wipe(g.drop_last(), i);
        } else if i > front.len() {
            lemma_print_has_no_wipe(g.last(), i - front.len() - 1);
        }
    }
}

/// Rendering is repeatable: two canvases that the same widget renders into
/// the same allocation hold the same rows of the same characters.
pub proof fn lemma_render_repeatable<W: Widget>(
    widget: &W,
    width: u16,
    height: u16,
    first: &Canvas,
    second: &Canvas,
)
    requires
        renders(widget, width, height, first),
        renders(widget, width, height, second),
    ensures
        first@.len() == second@.len(),
        forall|j: int| 0 <= j < first@.len() ==> (#[trigger] first@[j])@ == second@[j]@,
{
    assert(grid(first).len() == first@.len());
    assert(grid(second).len() == second@.len());
    assert forall|j: int| 0 <= j < first@.len() implies (#[trigger] first@[j])@ == second@[j]@ by {
        assert(grid(first)[j] == first@[j]@);
        assert(grid(second)[j] == second@[j]@);
    }
}

} // verus!
