//! A child that takes a share of the spare room of a row or column.

use crate::ui::rendering::{same_layout, Canvas, IntoWidget, Widget};
use crate::ui::tree::AnyWidget;
use vstd::prelude::*;

verus! {

/// A child with a flex weight. It sizes and renders as the child does; the
/// row or column that holds it directly hands it spare room by the weight.
pub struct Flexible {
    pub flex: i32,
    pub child: Box<AnyWidget>,
}

impl Flexible {
    /// What is well formed, the minimum size and whether it floors come to
    /// for a flexible child: those of the child.
    pub open spec fn measured(&self) -> bool {
        &&& self.well_formed() == self.child.well_formed()
        &&& self.min_size_spec() == self.child.min_size_spec()
        &&& self.floors() == self.child.floors()
    }

    /// Every flexible child is measured by its child.
    pub proof fn lemma_measured(&self)
        ensures
            self.measured(),
    {
        assert(self.well_formed() == self.child.well_formed());
        assert(self.min_size_spec() == self.child.min_size_spec());
        assert(self.floors() == self.child.floors());
    }

    /// `child` with the weight `flex`.
    pub fn new<T: IntoWidget>(flex: i32, child: T) -> (f: Self)
        requires
            child.ready(),
        ensures
            f.flex == flex,
            child.yields(*f.child),
            f.measured(),
    {
        let f = Self { flex, child: Box::new(child.into_widget()) };
        proof {
            f.lemma_measured();
        }
        f
    }

    /// Tells whether the widget is well formed.
    pub fn is_well_formed(&self) -> (ok: bool)
        ensures
            ok == self.well_formed(),
        decreases self,
    {
        self.child.is_well_formed()
    }
}

impl Widget for Flexible {
    open spec fn well_formed(&self) -> bool
        decreases self,
    {
        self.child.well_formed()
    }

    open spec fn min_size_spec(&self) -> (u16, u16)
        decreases self,
    {
        self.child.min_size_spec()
    }

    open spec fn flex_spec(&self) -> Option<i32> {
        Some(self.flex)
    }

    open spec fn floors(&self) -> bool
        decreases self,
    {
        self.child.floors()
    }

    open spec fn render_spec(&self, width: u16, height: u16) -> Seq<Seq<char>>
        decreases self,
    {
        self.child.render_spec(width, height)
    }

    fn min_size(&self) -> (size: (u16, u16))
        decreases self,
    {
        self.child.min_size()
    }

    fn render(&self, width: u16, height: u16) -> (canvas: Canvas)
        decreases self,
    {
        let canvas = self.child.render(width, height);
        assert(self.floors() == self.child.floors());
        assert(self.min_size_spec() == self.child.min_size_spec());
        canvas
    }

    fn flex_factor(&self) -> (flex: Option<i32>) {
        Some(self.flex)
    }
}

impl IntoWidget for Flexible {
    open spec fn ready(&self) -> bool {
        true
    }

    open spec fn yields(&self, widget: AnyWidget) -> bool {
        widget == AnyWidget::Flexible(*self) && same_layout(&widget, self)
    }

    fn into_widget(self) -> (widget: AnyWidget) {
        let ghost me = self;
        let widget = AnyWidget::Flexible(self);
        assert(widget.well_formed() == me.well_formed());
        assert(widget.min_size_spec() == me.min_size_spec());
        assert(widget.flex_spec() == me.flex_spec());
        assert(widget.floors() == me.floors());
        widget
    }
}

/// `child` with the weight `flex`.
pub fn flexible<T: IntoWidget>(flex: i32, child: T) -> (f: Flexible)
    requires
        child.ready(),
    ensures
        f.flex == flex,
        child.yields(*f.child),
        f.measured(),
{
    Flexible::new(flex, child)
}

} // verus!
