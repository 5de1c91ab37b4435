//! Children drawn one after the other along one axis: what rows and columns
//! have in common.

use crate::ui::layout::{is_drawn, lemma_offsets_grow, offset_of};
use crate::ui::rendering::{
    blank, create_canvas, grid, is_rect, overlay, overlay_spec, Canvas, Widget,
};
use crate::ui::tree::{all_well_formed, AnyWidget};
use vstd::prelude::*;

verus! {

/// The axis along which children follow each other.
#[derive(Clone, Copy)]
pub enum Axis {
    Across,
    Down,
}

/// The allocation along the axis.
pub open spec fn along(axis: Axis, width: u16, height: u16) -> u16 {
    match axis {
        Axis::Across => width,
        Axis::Down => height,
    }
}

/// `canvas` with `child` pasted at `offset` along the axis.
pub open spec fn paste_at(
    canvas: Seq<Seq<char>>,
    child: Seq<Seq<char>>,
    axis: Axis,
    offset: int,
) -> Seq<Seq<char>> {
    match axis {
        Axis::Across => overlay_spec(canvas, child, offset, 0),
        Axis::Down => overlay_spec(canvas, child, 0, offset),
    }
}

/// The grid of `height` rows and `width` columns on which `children` are
/// drawn in order, child `k` at the sum of what the children before it are
/// allocated. The first child is always drawn, another only if it begins
/// within the allocation.
pub open spec fn paint(
    children: Seq<AnyWidget>,
    alloc: Seq<u16>,
    axis: Axis,
    width: u16,
    height: u16,
) -> Seq<Seq<char>>
    decreases children,
{
    if children.len() == 0 {
        blank(width as int, height as int)
    } else {
        let k = children.len() - 1;
        let before = paint(children.drop_last(), alloc, axis, width, height);
        if is_drawn(alloc, k, along(axis, width, height)) {
            paste_at(
                before,
                match axis {
                Axis::Across => children.last().render_spec(alloc[k], height),
                Axis::Down => children.last().render_spec(width, alloc[k]),
            },
                axis,
                offset_of(alloc, k),
            )
        } else {
            before
        }
    }
}

/// One step of `paint`.
pub proof fn lemma_paint_step(
    children: Seq<AnyWidget>,
    alloc: Seq<u16>,
    axis: Axis,
    width: u16,
    height: u16,
    k: int,
)
    requires
        0 <= k < children.len(),
    ensures
        paint(children.take(k + 1), alloc, axis, width, height) == if is_drawn(
            alloc,
            k,
            along(axis, width, height),
        ) {
            paste_at(
                paint(children.take(k), alloc, axis, width, height),
                match axis {
                Axis::Across => children[k].render_spec(alloc[k], height),
                Axis::Down => children[k].render_spec(width, alloc[k]),
            },
                axis,
                offset_of(alloc, k),
            )
        } else {
            paint(children.take(k), alloc, axis, width, height)
        },
{
    let done = children.take(k + 1);
    assert(done.drop_last() =~= children.take(k));
    assert(done.last() == children[k]);
    assert(paint(done, alloc, axis, width, height) == if is_drawn(
        alloc,
        done.len() - 1,
        along(axis, width, height),
    ) {
        paste_at(
            paint(done.drop_last(), alloc, axis, width, height),
            match axis {
                Axis::Across => done.last().render_spec(alloc[done.len() - 1], height),
                Axis::Down => done.last().render_spec(width, alloc[done.len() - 1]),
            },
            axis,
            offset_of(alloc, done.len() - 1),
        )
    } else {
        paint(done.drop_last(), alloc, axis, width, height)
    });
}

/// Once a child begins at or beyond the end of the allocation, no later
/// child is drawn.
pub proof fn lemma_paint_rest(
    children: Seq<AnyWidget>,
    alloc: Seq<u16>,
    axis: Axis,
    width: u16,
    height: u16,
    k: int,
    m: int,
)
    requires
        1 <= k <= m <= children.len(),
        children.len() == alloc.len(),
        offset_of(alloc, k) >= along(axis, width, height),
    ensures
        paint(children.take(m), alloc, axis, width, height) == paint(
            children.take(k),
            alloc,
            axis,
            width,
            height,
        ),
    decreases m - k,
{
    if m > k {
        lemma_paint_rest(children, alloc, axis, width, height, k, m - 1);
        lemma_paint_step(children, alloc, axis, width, height, m - 1);
        lemma_offsets_grow(alloc, k, m - 1);
    }
}

/// Draws `children` one after the other along `axis`, child `k` with
/// `alloc[k]` along the axis.
pub fn paint_children(
    children: &Vec<AnyWidget>,
    alloc: &Vec<u16>,
    axis: Axis,
    width: u16,
    height: u16,
) -> (canvas: Canvas)
    requires
        all_well_formed(children@),
        alloc@.len() == children@.len(),
    ensures
        grid(&canvas) == paint(children@, alloc@, axis, width, height),
        is_rect(grid(&canvas), width as int, height as int),
    decreases children,
{
    let mut canvas = create_canvas(width, height);
    let n = children.len();
    let avail: u32 = match axis {
        Axis::Across => width as u32,
        Axis::Down => height as u32,
    };
    let mut offset: u32 = 0;
    let mut i: usize = 0;
    assert(children@.take(0) =~= Seq::<AnyWidget>::empty());
    assert(alloc@.take(0) =~= Seq::<u16>::empty());
    assert(paint(children@.take(0), alloc@, axis, width, height) == blank(
        width as int,
        height as int,
    ));
    while i < n && (i == 0 || offset < avail)
        invariant
            n == children@.len(),
            n == alloc@.len(),
            i <= n,
            all_well_formed(children@),
            avail == along(axis, width, height),
            offset == offset_of(alloc@, i as int),
            i > 0 ==> offset_of(alloc@, i - 1) < avail || i == 1,
            is_rect(grid(&canvas), width as int, height as int),
            grid(&canvas) == paint(children@.take(i as int), alloc@, axis, width, height),
        decreases n - i,
    {
        assert(children@[i as int].well_formed());
        proof {
            lemma_paint_step(children@, alloc@, axis, width, height, i as int);
            assert(alloc@.take(i + 1).drop_last() =~= alloc@.take(i as int));
        }
        match axis {
            Axis::Across => {
                let child_canvas = children[i].render(alloc[i], height);
                overlay(&mut canvas, &child_canvas, offset as u16, 0);
            },
            Axis::Down => {
                let child_canvas = children[i].render(width, alloc[i]);
                overlay(&mut canvas, &child_canvas, 0, offset as u16);
            },
        }
        offset = offset + alloc[i] as u32;
        i = i + 1;
    }
    proof {
        if i < n {
            lemma_paint_rest(children@, alloc@, axis, width, height, i as int, n as int);
        }
        assert(children@.take(n as int) =~= children@);
    }
    canvas
}

} // verus!
