//! Children drawn one over the other.

use crate::ui::layout::{largest_of, max_of};
use crate::ui::rendering::{
    blank, create_canvas, grid, is_rect, overlay, overlay_spec, same_layout, Canvas, IntoWidget,
    Widget,
};
use crate::ui::tree::{
    all_well_formed, children_well_formed, into_widgets, measure_children, min_heights, min_widths,
    AnyWidget,
};
use vstd::prelude::*;

verus! {

/// Children that each take the whole allocation, later ones drawn over
/// earlier ones.
pub struct Stack {
    pub children: Vec<AnyWidget>,
}

/// The grid of `height` rows and `width` columns on which each of `children`
/// is drawn in order, each into the whole of it.
pub open spec fn pile(children: Seq<AnyWidget>, width: u16, height: u16) -> Seq<Seq<char>>
    decreases children,
{
    if children.len() == 0 {
        blank(width as int, height as int)
    } else {
        overlay_spec(
            pile(children.drop_last(), width, height),
            children.last().render_spec(width, height),
            0,
            0,
        )
    }
}

impl Stack {
    /// What is well formed and the minimum size come to for a stack: the
    /// children are well formed, and the minimum size is the largest minimum
    /// width and the largest minimum height among them.
    pub open spec fn measured(&self) -> bool {
        &&& self.well_formed() == all_well_formed(self.children@)
        &&& self.min_size_spec() == (
            max_of(min_widths(self.children@)),
            max_of(min_heights(self.children@)),
        )
    }

    /// Every stack is measured so.
    pub proof fn lemma_measured(&self)
        ensures
            self.measured(),
    {
        assert(self.well_formed() == all_well_formed(self.children@));
        assert(self.min_size_spec() == (
            max_of(min_widths(self.children@)),
            max_of(min_heights(self.children@)),
        ));
    }

    /// A stack of `children`, the first at the bottom.
    pub fn from_children(children: Vec<AnyWidget>) -> (s: Self)
        ensures
            s.children == children,
            s.measured(),
    {
        let s = Self { children };
        proof {
            s.lemma_measured();
        }
        s
    }

    /// A stack of `children`, the first at the bottom.
    pub fn new<T: IntoWidget>(children: Vec<T>) -> (s: Self)
        requires
            forall|i: int| 0 <= i < children@.len() ==> (#[trigger] children@[i]).ready(),
        ensures
            s.children@.len() == children@.len(),
            forall|i: int|
                0 <= i < children@.len() ==> (#[trigger] children@[i]).yields(s.children@[i]),
            s.measured(),
    {
        let s = Self { children: into_widgets(children) };
        proof {
            s.lemma_measured();
        }
        s
    }

    /// Tells whether the widget is well formed.
    pub fn is_well_formed(&self) -> (ok: bool)
        ensures
            ok == self.well_formed(),
        decreases self,
    {
        children_well_formed(&self.children)
    }
}

impl Widget for Stack {
    open spec fn well_formed(&self) -> bool
        decreases self,
    {
        all_well_formed(self.children@)
    }

    open spec fn min_size_spec(&self) -> (u16, u16)
        decreases self,
    {
        (max_of(min_widths(self.children@)), max_of(min_heights(self.children@)))
    }

    open spec fn flex_spec(&self) -> Option<i32> {
        None
    }

    open spec fn floors(&self) -> bool {
        false
    }

    open spec fn render_spec(&self, width: u16, height: u16) -> Seq<Seq<char>>
        decreases self,
    {
        pile(self.children@, width, height)
    }

    fn min_size(&self) -> (size: (u16, u16))
        decreases self,
    {
        let (widths, heights, _) = measure_children(&self.children);
        (largest_of(&widths), largest_of(&heights))
    }

    fn render(&self, width: u16, height: u16) -> (canvas: Canvas)
        decreases self,
    {
        let mut canvas = create_canvas(width, height);
        let n = self.children.len();
        let mut i: usize = 0;
        assert(pile(self.children@.take(0), width, height) == blank(width as int, height as int));
        while i < n
            invariant
                n == self.children@.len(),
                i <= n,
                self.well_formed(),
                is_rect(grid(&canvas), width as int, height as int),
                grid(&canvas) == pile(self.children@.take(i as int), width, height),
            decreases n - i,
        {
            assert(self.children@[i as int].well_formed());
            let child_canvas = self.children[i].render(width, height);
            overlay(&mut canvas, &child_canvas, 0, 0);
            i = i + 1;
            proof {
                let done = self.children@.take(i as int);
                assert(done.drop_last() =~= self.children@.take(i - 1));
                assert(done.last() == self.children@[i - 1]);
                assert(pile(done, width, height) == overlay_spec(
                    pile(done.drop_last(), width, height),
                    done.last().render_spec(width, height),
                    0,
                    0,
                ));
            }
        }
        assert(self.children@.take(n as int) =~= self.children@);
        canvas
    }

    fn flex_factor(&self) -> (flex: Option<i32>) {
        None
    }
}

impl IntoWidget for Stack {
    open spec fn ready(&self) -> bool {
        true
    }

    open spec fn yields(&self, widget: AnyWidget) -> bool {
        widget == AnyWidget::Stack(*self) && same_layout(&widget, self)
    }

    fn into_widget(self) -> (widget: AnyWidget) {
        let ghost me = self;
        let widget = AnyWidget::Stack(self);
        assert(widget.well_formed() == me.well_formed());
        assert(widget.min_size_spec() == me.min_size_spec());
        assert(widget.flex_spec() == me.flex_spec());
        assert(widget.floors() == me.floors());
        widget
    }
}

/// A stack of `children`, the first at the bottom.
pub fn stack<T: IntoWidget>(children: Vec<T>) -> (s: Stack)
    requires
        forall|i: int| 0 <= i < children@.len() ==> (#[trigger] children@[i]).ready(),
    ensures
        s.children@.len() == children@.len(),
        forall|i: int|
            0 <= i < children@.len() ==> (#[trigger] children@[i]).yields(s.children@[i]),
        s.measured(),
{
    Stack::new(children)
}

} // verus!
