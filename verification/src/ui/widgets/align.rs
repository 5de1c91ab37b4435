//! A child placed within a larger allocation.

use crate::ui::rendering::{
    blank, create_canvas, overlay, overlay_spec, same_layout, Canvas, IntoWidget, Widget,
};
use crate::ui::tree::AnyWidget;
use vstd::prelude::*;

verus! {

/// How a child is placed from left to right.
#[derive(Clone, Copy, PartialEq, Eq, Structural)]
pub enum AlignHorizontal {
    Start,
    Center,
    End,
    Stretch,
}

/// How a child is placed from top to bottom.
#[derive(Clone, Copy, PartialEq, Eq, Structural)]
pub enum AlignVertical {
    Start,
    Center,
    End,
    Stretch,
}

/// The placement along both axes.
pub struct Alignment {
    pub horizontal: AlignHorizontal,
    pub vertical: AlignVertical,
}

/// A child placed within its allocation.
pub struct Align {
    pub child: Box<AnyWidget>,
    pub alignment: Alignment,
}

/// The extent at which the child is rendered along one axis: the whole
/// allocation where it stretches, else its minimum or the allocation,
/// whichever is less.
pub open spec fn aligned_extent(stretch: bool, child_min: u16, allocated: u16) -> u16 {
    if stretch || allocated < child_min {
        allocated
    } else {
        child_min
    }
}

/// The offset of the child from the left edge.
pub open spec fn offset_x(a: AlignHorizontal, allocated: u16, rendered: u16) -> int {
    match a {
        AlignHorizontal::Start | AlignHorizontal::Stretch => 0,
        AlignHorizontal::Center => (allocated - rendered) / 2,
        AlignHorizontal::End => allocated - rendered,
    }
}

/// The offset of the child from the top edge.
pub open spec fn offset_y(a: AlignVertical, allocated: u16, rendered: u16) -> int {
    match a {
        AlignVertical::Start | AlignVertical::Stretch => 0,
        AlignVertical::Center => (allocated - rendered) / 2,
        AlignVertical::End => allocated - rendered,
    }
}

impl Align {
    /// `child`, centred along both axes.
    pub fn new<T: IntoWidget>(child: T) -> (a: Self)
        requires
            child.ready(),
        ensures
            child.yields(*a.child),
            a.alignment.horizontal is Center,
            a.alignment.vertical is Center,
            a.measured(),
    {
        let a = Self {
            child: Box::new(child.into_widget()),
            alignment: Alignment {
                horizontal: AlignHorizontal::Center,
                vertical: AlignVertical::Center,
            },
        };
        proof {
            a.lemma_measured();
        }
        a
    }

    /// The same, placed by `h` from left to right.
    pub fn horizontal(self, h: AlignHorizontal) -> (a: Self)
        ensures
            a.child == self.child,
            a.alignment.horizontal == h,
            a.alignment.vertical == self.alignment.vertical,
            a.measured(),
    {
        let a = Self {
            child: self.child,
            alignment: Alignment { horizontal: h, vertical: self.alignment.vertical },
        };
        proof {
            a.lemma_measured();
        }
        a
    }

    /// The same, placed by `v` from top to bottom.
    pub fn vertical(self, v: AlignVertical) -> (a: Self)
        ensures
            a.child == self.child,
            a.alignment.horizontal == self.alignment.horizontal,
            a.alignment.vertical == v,
            a.measured(),
    {
        let a = Self {
            child: self.child,
            alignment: Alignment { horizontal: self.alignment.horizontal, vertical: v },
        };
        proof {
            a.lemma_measured();
        }
        a
    }

    /// What is well formed and the minimum size come to for an alignment:
    /// those of its child.
    pub open spec fn measured(&self) -> bool {
        &&& self.well_formed() == self.child.well_formed()
        &&& self.min_size_spec() == self.child.min_size_spec()
    }

    /// Every alignment is measured by its child.
    pub proof fn lemma_measured(&self)
        ensures
            self.measured(),
    {
        assert(self.well_formed() == self.child.well_formed());
        assert(self.min_size_spec() == self.child.min_size_spec());
    }

    /// The width at which the child is rendered.
    pub open spec fn child_width(&self, width: u16) -> u16 {
        aligned_extent(
            self.alignment.horizontal is Stretch,
            self.child.min_size_spec().0,
            width,
        )
    }

    /// The height at which the child is rendered.
    pub open spec fn child_height(&self, height: u16) -> u16 {
        aligned_extent(self.alignment.vertical is Stretch, self.child.min_size_spec().1, height)
    }

    /// Tells whether the widget is well formed.
    pub fn is_well_formed(&self) -> (ok: bool)
        ensures
            ok == self.well_formed(),
        decreases self,
    {
        self.child.is_well_formed()
    }
}

impl Widget for Align {
    open spec fn well_formed(&self) -> bool
        decreases self,
    {
        self.child.well_formed()
    }

    open spec fn min_size_spec(&self) -> (u16, u16)
        decreases self,
    {
        self.child.min_size_spec()
    }

    open spec fn flex_spec(&self) -> Option<i32> {
        None
    }

    open spec fn floors(&self) -> bool {
        false
    }

    open spec fn render_spec(&self, width: u16, height: u16) -> Seq<Seq<char>>
        decreases self,
    {
        let w = self.child_width(width);
        let h = self.child_height(height);
        overlay_spec(
            blank(width as int, height as int),
            self.child.render_spec(w, h),
            offset_x(self.alignment.horizontal, width, w),
            offset_y(self.alignment.vertical, height, h),
        )
    }

    fn min_size(&self) -> (size: (u16, u16))
        decreases self,
    {
        self.child.min_size()
    }

    fn render(&self, width: u16, height: u16) -> (canvas: Canvas)
        decreases self,
    {
        let mut canvas = create_canvas(width, height);
        let (child_w, child_h) = self.child.min_size();
        let render_w = match self.alignment.horizontal {
            AlignHorizontal::Stretch => width,
            _ => if child_w < width {
                child_w
            } else {
                width
            },
        };
        let render_h = match self.alignment.vertical {
            AlignVertical::Stretch => height,
            _ => if child_h < height {
                child_h
            } else {
                height
            },
        };
        let x = match self.alignment.horizontal {
            AlignHorizontal::Start | AlignHorizontal::Stretch => 0,
            AlignHorizontal::Center => (width - render_w) / 2,
            AlignHorizontal::End => width - render_w,
        };
        let y = match self.alignment.vertical {
            AlignVertical::Start | AlignVertical::Stretch => 0,
            AlignVertical::Center => (height - render_h) / 2,
            AlignVertical::End => height - render_h,
        };
        let child_canvas = self.child.render(render_w, render_h);
        overlay(&mut canvas, &child_canvas, x, y);
        canvas
    }

    fn flex_factor(&self) -> (flex: Option<i32>) {
        None
    }
}

impl IntoWidget for Align {
    open spec fn ready(&self) -> bool {
        true
    }

    open spec fn yields(&self, widget: AnyWidget) -> bool {
        widget == AnyWidget::Align(*self) && same_layout(&widget, self)
    }

    fn into_widget(self) -> (widget: AnyWidget) {
        let ghost me = self;
        let widget = AnyWidget::Align(self);
        assert(widget.well_formed() == me.well_formed());
        assert(widget.min_size_spec() == me.min_size_spec());
        assert(widget.flex_spec() == me.flex_spec());
        assert(widget.floors() == me.floors());
        widget
    }
}

/// `child`, centred along both axes.
pub fn align<T: IntoWidget>(child: T) -> (a: Align)
    requires
        child.ready(),
    ensures
        child.yields(*a.child),
        a.alignment.horizontal is Center,
        a.alignment.vertical is Center,
        a.measured(),
{
    Align::new(child)
}

} // verus!
