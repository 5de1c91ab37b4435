//! Children laid out from left to right.

use crate::ui::layout::{
    can_lay_out, distribute, flexed, largest_of, layout_fits, lemma_repair_fills, lemma_sum_nonneg,
    max_of, repair, repaired, sum_of, total_of, total_weight,
};
use crate::ui::rendering::{same_layout, Canvas, IntoWidget, Widget};
use crate::ui::tree::{
    all_well_formed, children_well_formed, flex_weights, into_widgets, lemma_layout_fits,
    lemma_min_sizes, measure_children, min_heights, min_widths, weights_ok, AnyWidget,
};
use crate::ui::widgets::linear::{paint, paint_children, Axis};
use vstd::prelude::*;

verus! {

/// Children laid out from left to right. Each gets its minimum width; room
/// beyond that is shared among the children with a flex weight, by weight,
/// each share rounded down. What rounding leaves over is then handed out, one more
/// for each child in order, until it is used up or each child had one.
pub struct Row {
    pub children: Vec<AnyWidget>,
}

impl Row {
    /// A row of `children`, in their order.
    pub fn new<T: IntoWidget>(children: Vec<T>) -> (c: Self)
        requires
            forall|i: int| 0 <= i < children@.len() ==> (#[trigger] children@[i]).ready(),
        ensures
            c.children@.len() == children@.len(),
            forall|i: int|
                0 <= i < children@.len() ==> (#[trigger] children@[i]).yields(c.children@[i]),
            c.measured(),
    {
        let c = Self { children: into_widgets(children) };
        proof {
            c.lemma_measured();
        }
        c
    }

    /// What is well formed and the minimum size come to for a row: the
    /// children are well formed, their minimum widths together fit a
    /// size, and none has a negative weight if the weights are positive
    /// together.
    pub open spec fn measured(&self) -> bool {
        &&& self.well_formed() == (all_well_formed(self.children@) && sum_of(
            min_widths(self.children@),
        ) <= u16::MAX && (total_weight(flex_weights(self.children@)) > 0 ==> weights_ok(
            self.children@,
        )))
        &&& self.min_size_spec() == (
            sum_of(min_widths(self.children@)) as u16,
            max_of(min_heights(self.children@)),
        )
    }

    /// Every row is measured so.
    pub proof fn lemma_measured(&self)
        ensures
            self.measured(),
    {
        lemma_min_sizes(self.children@);
        lemma_layout_fits(self.children@, min_widths(self.children@));
        assert(self.well_formed() == (all_well_formed(self.children@) && layout_fits(
            min_widths(self.children@),
            flex_weights(self.children@),
        )));
        assert(self.min_size_spec() == (
            sum_of(min_widths(self.children@)) as u16,
            max_of(min_heights(self.children@)),
        ));
    }

    /// A row of `children`, in their order.
    pub fn from_children(children: Vec<AnyWidget>) -> (c: Self)
        ensures
            c.children == children,
            c.measured(),
    {
        let c = Self { children };
        proof {
            c.lemma_measured();
        }
        c
    }

    /// The width that each child is allocated of `width`.
    pub open spec fn allocation(&self, width: u16) -> Seq<u16> {
        repaired(
            flexed(min_widths(self.children@), flex_weights(self.children@), width),
            width,
        )
    }

    /// Returns the width that each child is allocated of `width`.
    pub fn allocate(&self, width: u16) -> (alloc: Vec<u16>)
        requires
            self.well_formed(),
        ensures
            alloc@ == self.allocation(width),
    {
        let (widths, _, weights) = measure_children(&self.children);
        let shared = distribute(&widths, &weights, width);
        repair(shared, width)
    }

    /// Tells whether the widget is well formed.
    pub fn is_well_formed(&self) -> (ok: bool)
        ensures
            ok == self.well_formed(),
        decreases self,
    {
        if !children_well_formed(&self.children) {
            return false;
        }
        let (widths, _, weights) = measure_children(&self.children);
        can_lay_out(&widths, &weights)
    }
}

impl Widget for Row {
    open spec fn well_formed(&self) -> bool
        decreases self,
    {
        &&& all_well_formed(self.children@)
        &&& layout_fits(min_widths(self.children@), flex_weights(self.children@))
    }

    open spec fn min_size_spec(&self) -> (u16, u16)
        decreases self,
    {
        (sum_of(min_widths(self.children@)) as u16, max_of(min_heights(self.children@)))
    }

    open spec fn flex_spec(&self) -> Option<i32> {
        None
    }

    open spec fn floors(&self) -> bool {
        false
    }

    open spec fn render_spec(&self, width: u16, height: u16) -> Seq<Seq<char>>
        decreases self,
    {
        paint(self.children@, self.allocation(width), Axis::Across, width, height)
    }

    fn min_size(&self) -> (size: (u16, u16))
        decreases self,
    {
        let (widths, heights, _) = measure_children(&self.children);
        (total_of(&widths), largest_of(&heights))
    }

    fn render(&self, width: u16, height: u16) -> (canvas: Canvas)
        decreases self,
    {
        let (widths, _, weights) = measure_children(&self.children);
        let shared = distribute(&widths, &weights, width);
        let alloc = repair(shared, width);
        proof {
            lemma_min_sizes(self.children@);
        }
        paint_children(&self.children, &alloc, Axis::Across, width, height)
    }

    fn flex_factor(&self) -> (flex: Option<i32>) {
        None
    }
}

/// A row whose children have weight, given at least its minimum width,
/// allocates that width exactly.
pub proof fn lemma_row_fills_width(row: &Row, width: u16)
    requires
        row.well_formed(),
        total_weight(flex_weights(row.children@)) > 0,
        width >= row.min_size_spec().0,
    ensures
        sum_of(row.allocation(width)) == width,
{
    lemma_sum_nonneg(min_widths(row.children@));
    assert(row.min_size_spec().0 == sum_of(min_widths(row.children@)));
    lemma_repair_fills(min_widths(row.children@), flex_weights(row.children@), width);
}

impl IntoWidget for Row {
    open spec fn ready(&self) -> bool {
        true
    }

    open spec fn yields(&self, widget: AnyWidget) -> bool {
        widget == AnyWidget::Row(*self) && same_layout(&widget, self)
    }

    fn into_widget(self) -> (widget: AnyWidget) {
        let ghost me = self;
        let widget = AnyWidget::Row(self);
        assert(widget.well_formed() == me.well_formed());
        assert(widget.min_size_spec() == me.min_size_spec());
        assert(widget.flex_spec() == me.flex_spec());
        assert(widget.floors() == me.floors());
        widget
    }
}

/// A row of `children`, in their order.
pub fn row<T: IntoWidget>(children: Vec<T>) -> (c: Row)
    requires
        forall|i: int| 0 <= i < children@.len() ==> (#[trigger] children@[i]).ready(),
    ensures
        c.children@.len() == children@.len(),
        forall|i: int|
            0 <= i < children@.len() ==> (#[trigger] children@[i]).yields(c.children@[i]),
        c.measured(),
{
    Row::new(children)
}

} // verus!
