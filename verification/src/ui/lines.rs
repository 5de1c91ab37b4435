//! Lines of characters: splitting text into them, measuring them and
//! drawing them.

use crate::ui::rendering::{grid, is_rect, Canvas};
use vstd::prelude::*;

verus! {

/// `String::from_iter` on the characters of a vector: the string that holds
/// exactly those characters, in their order. Verus takes this on trust.
#[verifier::external_body]
pub(crate) fn string_from_chars(chars: &Vec<char>) -> (s: String)
    ensures
        s@ == chars@,
{
    String::from_iter(chars)
}

/// Returns the characters of `s`.
pub fn chars_of(s: &str) -> (chars: Vec<char>)
    ensures
        chars@ == s@,
{
    let mut chars: Vec<char> = Vec::new();
    for c in it: s.chars()
        invariant
            it.seq() == s@,
            chars@ == s@.take(it.index() as int),
    {
        chars.push(c);
        assert(s@.take(it.index() + 1) == s@.take(it.index() as int).push(c));
    }
    assert(s@.take(s@.len() as int) == s@);
    chars
}

/// Returns the characters of `chars` from index `from` up to `to`.
pub fn copy_range(chars: &Vec<char>, from: usize, to: usize) -> (part: Vec<char>)
    requires
        from <= to <= chars@.len(),
    ensures
        part@ == chars@.subrange(from as int, to as int),
{
    let mut part: Vec<char> = Vec::new();
    let mut i: usize = from;
    while i < to
        invariant
            from <= i <= to <= chars@.len(),
            part@ == chars@.subrange(from as int, i as int),
        decreases to - i,
    {
        part.push(chars[i]);
        i = i + 1;
        assert(part@ =~= chars@.subrange(from as int, i as int));
    }
    part
}

/// The views of a vector of lines.
pub open spec fn lines_view(lines: &Vec<Vec<char>>) -> Seq<Seq<char>> {
    Seq::new(lines@.len(), |j: int| lines@[j]@)
}

/// The grid of `h` rows and `w` columns that shows `lines` from its top-left
/// corner on, clipped, with spaces elsewhere.
pub open spec fn lines_grid(lines: Seq<Seq<char>>, w: int, h: int) -> Seq<Seq<char>> {
    Seq::new(
        h as nat,
        |j: int|
            Seq::new(
                w as nat,
                |i: int|
                    if j < lines.len() && i < lines[j].len() {
                        lines[j][i]
                    } else {
                        ' '
                    },
            ),
    )
}

/// The length of the longest of `lines`, 0 where there is none.
pub open spec fn longest(lines: Seq<Seq<char>>) -> nat
    decreases lines.len(),
{
    if lines.len() == 0 {
        0
    } else if lines.last().len() > longest(lines.drop_last()) {
        lines.last().len()
    } else {
        longest(lines.drop_last())
    }
}

/// The lines are few and short enough for their extent to be a size.
pub open spec fn lines_fit(lines: Seq<Seq<char>>) -> bool {
    lines.len() <= u16::MAX && longest(lines) <= u16::MAX
}

/// No line is longer than `bound` exactly where the longest is not.
pub proof fn lemma_longest_bounds(lines: Seq<Seq<char>>, bound: nat)
    ensures
        longest(lines) <= bound <==> forall|j: int|
            0 <= j < lines.len() ==> (#[trigger] lines[j]).len() <= bound,
    decreases lines.len(),
{
    if lines.len() > 0 {
        let front = lines.drop_last();
        lemma_longest_bounds(front, bound);
        if longest(lines) <= bound {
            assert forall|j: int| 0 <= j < lines.len() implies (#[trigger] lines[j]).len()
                <= bound by {
                if j < front.len() {
                    assert(front[j] == lines[j]);
                }
            }
        }
        if forall|j: int| 0 <= j < lines.len() ==> (#[trigger] lines[j]).len() <= bound {
            assert forall|j: int| 0 <= j < front.len() implies (#[trigger] front[j]).len()
                <= bound by {
                assert(front[j] == lines[j]);
            }
            assert(lines.last() == lines[lines.len() - 1]);
        }
    }
}

/// Tells whether the lines are few and short enough for their extent to be a
/// size.
pub fn lines_can_fit(lines: &Vec<Vec<char>>) -> (ok: bool)
    ensures
        ok == lines_fit(lines_view(lines)),
{
    let n = lines.len();
    proof {
        lemma_longest_bounds(lines_view(lines), u16::MAX as nat);
    }
    if n > 0xffff {
        return false;
    }
    let mut j: usize = 0;
    while j < n
        invariant
            n == lines@.len(),
            j <= n,
            forall|m: int| 0 <= m < j ==> (#[trigger] lines_view(lines)[m]).len() <= u16::MAX,
        decreases n - j,
    {
        if lines[j].len() > 0xffff {
            proof {
                lemma_longest_bounds(lines_view(lines), u16::MAX as nat);
                assert(lines_view(lines)[j as int].len() > u16::MAX);
            }
            return false;
        }
        j = j + 1;
    }
    proof {
        lemma_longest_bounds(lines_view(lines), u16::MAX as nat);
    }
    true
}

/// Returns (length of the longest line, number of lines).
pub fn measure_lines(lines: &Vec<Vec<char>>) -> (size: (u16, u16))
    requires
        lines_fit(lines_view(lines)),
    ensures
        size.0 == longest(lines_view(lines)),
        size.1 == lines@.len(),
{
    let n = lines.len();
    let mut width: usize = 0;
    let mut j: usize = 0;
    while j < n
        invariant
            n == lines@.len(),
            j <= n,
            width == longest(lines_view(lines).take(j as int)),
        decreases n - j,
    {
        let len = lines[j].len();
        proof {
            let t = lines_view(lines).take(j + 1);
            assert(t.drop_last() =~= lines_view(lines).take(j as int));
            assert(t.last() == lines@[j as int]@);
        }
        if len > width {
            width = len;
        }
        j = j + 1;
    }
    proof {
        assert(lines_view(lines).take(n as int) =~= lines_view(lines));
    }
    (width as u16, n as u16)
}

/// Renders `lines` into a fresh canvas from its top-left corner on, clipped
/// to the canvas.
pub fn render_lines(lines: &Vec<Vec<char>>, width: u16, height: u16) -> (canvas: Canvas)
    ensures
        grid(&canvas) == lines_grid(lines_view(lines), width as int, height as int),
        is_rect(grid(&canvas), width as int, height as int),
{
    let mut canvas: Canvas = Vec::new();
    let n = lines.len();
    let mut j: u16 = 0;
    while j < height
        invariant
            n == lines@.len(),
            j <= height,
            grid(&canvas) == lines_grid(lines_view(lines), width as int, j as int),
        decreases height - j,
    {
        let ghost before = grid(&canvas);
        let mut row: Vec<char> = Vec::new();
        let mut i: u16 = 0;
        while i < width
            invariant
                n == lines@.len(),
                j < height,
                i <= width,
                row@ == lines_grid(lines_view(lines), i as int, j + 1)[j as int],
            decreases width - i,
        {
            let ghost prev = row@;
            if (j as usize) < n && (i as usize) < lines[j as usize].len() {
                row.push(lines[j as usize][i as usize]);
            } else {
                row.push(' ');
            }
            i = i + 1;
            assert(row@ =~= lines_grid(lines_view(lines), i as int, j + 1)[j as int]);
        }
        canvas.push(row);
        j = j + 1;
        assert(grid(&canvas) =~= before.push(row@));
        assert(grid(&canvas) =~= lines_grid(lines_view(lines), width as int, j as int));
    }
    canvas
}

} // verus!
