//! Children laid out from top to bottom.

use crate::ui::layout::{
    can_lay_out, distribute, flexed, largest_of, layout_fits, lemma_flexed_within, lemma_sum_nonneg,
    max_of, sum_of, total_of, total_weight,
};
use crate::ui::rendering::{same_layout, Canvas, IntoWidget, Widget};
use crate::ui::tree::{
    all_well_formed, children_well_formed, flex_weights, into_widgets, lemma_layout_fits,
    lemma_min_sizes, measure_children, min_heights, min_widths, weights_ok, AnyWidget,
};
use crate::ui::widgets::linear::{paint, paint_children, Axis};
use vstd::prelude::*;

verus! {

/// Children laid out from top to bottom. Each gets its minimum height; room
/// beyond that is shared among the children with a flex weight, by weight,
/// each share rounded down. What rounding leaves over stays unused.
pub struct Column {
    pub children: Vec<AnyWidget>,
}

impl Column {
    /// A column of `children`, in their order.
    pub fn new<T: IntoWidget>(children: Vec<T>) -> (c: Self)
        requires
            forall|i: int| 0 <= i < children@.len() ==> (#[trigger] children@[i]).ready(),
        ensures
            c.children@.len() == children@.len(),
            forall|i: int|
                0 <= i < children@.len() ==> (#[trigger] children@[i]).yields(c.children@[i]),
            c.measured(),
    {
        let c = Self { children: into_widgets(children) };
        proof {
            c.lemma_measured();
        }
        c
    }

    /// What is well formed and the minimum size come to for a column: the
    /// children are well formed, their minimum heights together fit a
    /// size, and none has a negative weight if the weights are positive
    /// together.
    pub open spec fn measured(&self) -> bool {
        &&& self.well_formed() == (all_well_formed(self.children@) && sum_of(
            min_heights(self.children@),
        ) <= u16::MAX && (total_weight(flex_weights(self.children@)) > 0 ==> weights_ok(
            self.children@,
        )))
        &&& self.min_size_spec() == (
            max_of(min_widths(self.children@)),
            sum_of(min_heights(self.children@)) as u16,
        )
    }

    /// Every column is measured so.
    pub proof fn lemma_measured(&self)
        ensures
            self.measured(),
    {
        lemma_min_sizes(self.children@);
        lemma_layout_fits(self.children@, min_heights(self.children@));
        assert(self.well_formed() == (all_well_formed(self.children@) && layout_fits(
            min_heights(self.children@),
            flex_weights(self.children@),
        )));
        assert(self.min_size_spec() == (
            max_of(min_widths(self.children@)),
            sum_of(min_heights(self.children@)) as u16,
        ));
    }

    /// A column of `children`, in their order.
    pub fn from_children(children: Vec<AnyWidget>) -> (c: Self)
        ensures
            c.children == children,
            c.measured(),
    {
        let c = Self { children };
        proof {
            c.lemma_measured();
        }
        c
    }

    /// The height that each child is allocated of `height`.
    pub open spec fn allocation(&self, height: u16) -> Seq<u16> {
        flexed(min_heights(self.children@), flex_weights(self.children@), height)
    }

    /// Returns the height that each child is allocated of `height`.
    pub fn allocate(&self, height: u16) -> (alloc: Vec<u16>)
        requires
            self.well_formed(),
        ensures
            alloc@ == self.allocation(height),
    {
        let (_, heights, weights) = measure_children(&self.children);
        distribute(&heights, &weights, height)
    }

    /// Tells whether the widget is well formed.
    pub fn is_well_formed(&self) -> (ok: bool)
        ensures
            ok == self.well_formed(),
        decreases self,
    {
        if !children_well_formed(&self.children) {
            return false;
        }
        let (_, heights, weights) = measure_children(&self.children);
        can_lay_out(&heights, &weights)
    }
}

impl Widget for Column {
    open spec fn well_formed(&self) -> bool
        decreases self,
    {
        &&& all_well_formed(self.children@)
        &&& layout_fits(min_heights(self.children@), flex_weights(self.children@))
    }

    open spec fn min_size_spec(&self) -> (u16, u16)
        decreases self,
    {
        (max_of(min_widths(self.children@)), sum_of(min_heights(self.children@)) as u16)
    }

    open spec fn flex_spec(&self) -> Option<i32> {
        None
    }

    open spec fn floors(&self) -> bool {
        false
    }

    open spec fn render_spec(&self, width: u16, height: u16) -> Seq<Seq<char>>
        decreases self,
    {
        paint(self.children@, self.allocation(height), Axis::Down, width, height)
    }

    fn min_size(&self) -> (size: (u16, u16))
        decreases self,
    {
        let (widths, heights, _) = measure_children(&self.children);
        (largest_of(&widths), total_of(&heights))
    }

    fn render(&self, width: u16, height: u16) -> (canvas: Canvas)
        decreases self,
    {
        let (_, heights, weights) = measure_children(&self.children);
        let alloc = distribute(&heights, &weights, height);
        proof {
            lemma_min_sizes(self.children@);
        }
        paint_children(&self.children, &alloc, Axis::Down, width, height)
    }

    fn flex_factor(&self) -> (flex: Option<i32>) {
        None
    }
}

/// A column given at least its minimum height allocates no more than that
/// height; what rounding leaves over of it stays unused.
pub proof fn lemma_column_within_height(column: &Column, height: u16)
    requires
        column.well_formed(),
        height >= column.min_size_spec().1,
    ensures
        column.min_size_spec().1 <= sum_of(column.allocation(height)) <= height,
{
    lemma_sum_nonneg(min_heights(column.children@));
    assert(column.min_size_spec().1 == sum_of(min_heights(column.children@)));
    lemma_flexed_within(min_heights(column.children@), flex_weights(column.children@), height);
}

impl IntoWidget for Column {
    open spec fn ready(&self) -> bool {
        true
    }

    open spec fn yields(&self, widget: AnyWidget) -> bool {
        widget == AnyWidget::Column(*self) && same_layout(&widget, self)
    }

    fn into_widget(self) -> (widget: AnyWidget) {
        let ghost me = self;
        let widget = AnyWidget::Column(self);
        assert(widget.well_formed() == me.well_formed());
        assert(widget.min_size_spec() == me.min_size_spec());
        assert(widget.flex_spec() == me.flex_spec());
        assert(widget.floors() == me.floors());
        widget
    }
}

/// A column of `children`, in their order.
pub fn column<T: IntoWidget>(children: Vec<T>) -> (c: Column)
    requires
        forall|i: int| 0 <= i < children@.len() ==> (#[trigger] children@[i]).ready(),
    ensures
        c.children@.len() == children@.len(),
        forall|i: int|
            0 <= i < children@.len() ==> (#[trigger] children@[i]).yields(c.children@[i]),
        c.measured(),
{
    Column::new(children)
}

} // verus!
