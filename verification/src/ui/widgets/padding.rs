//! Blank room around a child.

use crate::ui::rendering::{
    blank, create_canvas, overlay, overlay_spec, same_layout, Canvas, IntoWidget, Widget,
};
use crate::ui::tree::AnyWidget;
use vstd::prelude::*;

verus! {

/// A child with blank room on each of its four sides.
pub struct Padding {
    pub child: Box<AnyWidget>,
    pub top: u16,
    pub left: u16,
    pub right: u16,
    pub bottom: u16,
}

/// What is left of `allocated` once `before` and `after` are taken from it,
/// and 0 where that is more than there is.
pub open spec fn inner_extent(allocated: u16, before: u16, after: u16) -> u16 {
    if allocated >= before + after {
        (allocated - before - after) as u16
    } else {
        0
    }
}

impl Padding {
    /// What is well formed and the minimum size come to for a padding: the
    /// child is well formed and, with the room around it, still fits; and the
    /// minimum size is that of the child and the room around it.
    pub open spec fn measured(&self) -> bool {
        &&& self.well_formed() == (self.child.well_formed() && self.child.min_size_spec().0
            + self.left + self.right <= u16::MAX && self.child.min_size_spec().1 + self.top
            + self.bottom <= u16::MAX)
        &&& self.min_size_spec() == (
            (self.child.min_size_spec().0 + self.left + self.right) as u16,
            (self.child.min_size_spec().1 + self.top + self.bottom) as u16,
        )
    }

    /// Every padding is measured so.
    pub proof fn lemma_measured(&self)
        ensures
            self.measured(),
    {
        assert(self.well_formed() == (self.child.well_formed() && self.child.min_size_spec().0
            + self.left + self.right <= u16::MAX && self.child.min_size_spec().1 + self.top
            + self.bottom <= u16::MAX));
        assert(self.min_size_spec() == (
            (self.child.min_size_spec().0 + self.left + self.right) as u16,
            (self.child.min_size_spec().1 + self.top + self.bottom) as u16,
        ));
    }

    /// `child` with no room around it.
    pub fn new<T: IntoWidget>(child: T) -> (p: Self)
        requires
            child.ready(),
        ensures
            child.yields(*p.child),
            p.top == 0,
            p.left == 0,
            p.right == 0,
            p.bottom == 0,
            p.measured(),
    {
        let p = Self { child: Box::new(child.into_widget()), top: 0, left: 0, right: 0, bottom: 0 };
        proof {
            p.lemma_measured();
        }
        p
    }

    /// The same, with `amount` rows above.
    pub fn top(self, amount: u16) -> (p: Self)
        ensures
            p == (Padding { top: amount, ..self }),
            p.measured(),
    {
        let p = Self { top: amount, ..self };
        proof {
            p.lemma_measured();
        }
        p
    }

    /// The same, with `amount` columns to the left.
    pub fn left(self, amount: u16) -> (p: Self)
        ensures
            p == (Padding { left: amount, ..self }),
            p.measured(),
    {
        let p = Self { left: amount, ..self };
        proof {
            p.lemma_measured();
        }
        p
    }

    /// The same, with `amount` columns to the right.
    pub fn right(self, amount: u16) -> (p: Self)
        ensures
            p == (Padding { right: amount, ..self }),
            p.measured(),
    {
        let p = Self { right: amount, ..self };
        proof {
            p.lemma_measured();
        }
        p
    }

    /// The same, with `amount` rows below.
    pub fn bottom(self, amount: u16) -> (p: Self)
        ensures
            p == (Padding { bottom: amount, ..self }),
            p.measured(),
    {
        let p = Self { bottom: amount, ..self };
        proof {
            p.lemma_measured();
        }
        p
    }

    /// The same, with `amount` rows or columns on every side.
    pub fn all(self, amount: u16) -> (p: Self)
        ensures
            p == (Padding { top: amount, left: amount, right: amount, bottom: amount, ..self }),
            p.measured(),
    {
        let p = Self { top: amount, left: amount, right: amount, bottom: amount, ..self };
        proof {
            p.lemma_measured();
        }
        p
    }

    /// The same, with `amount` columns to the left and to the right.
    pub fn horizontal(self, amount: u16) -> (p: Self)
        ensures
            p == (Padding { left: amount, right: amount, ..self }),
            p.measured(),
    {
        let p = Self { left: amount, right: amount, ..self };
        proof {
            p.lemma_measured();
        }
        p
    }

    /// The same, with `amount` rows above and below.
    pub fn vertical(self, amount: u16) -> (p: Self)
        ensures
            p == (Padding { top: amount, bottom: amount, ..self }),
            p.measured(),
    {
        let p = Self { top: amount, bottom: amount, ..self };
        proof {
            p.lemma_measured();
        }
        p
    }

    /// Tells whether the widget is well formed.
    pub fn is_well_formed(&self) -> (ok: bool)
        ensures
            ok == self.well_formed(),
        decreases self,
    {
        if !self.child.is_well_formed() {
            return false;
        }
        let (child_w, child_h) = self.child.min_size();
        child_w as u32 + self.left as u32 + self.right as u32 <= 0xffff && child_h as u32
            + self.top as u32 + self.bottom as u32 <= 0xffff
    }
}

impl Widget for Padding {
    open spec fn well_formed(&self) -> bool
        decreases self,
    {
        &&& self.child.well_formed()
        &&& self.child.min_size_spec().0 + self.left + self.right <= u16::MAX
        &&& self.child.min_size_spec().1 + self.top + self.bottom <= u16::MAX
    }

    open spec fn min_size_spec(&self) -> (u16, u16)
        decreases self,
    {
        (
            (self.child.min_size_spec().0 + self.left + self.right) as u16,
            (self.child.min_size_spec().1 + self.top + self.bottom) as u16,
        )
    }

    open spec fn flex_spec(&self) -> Option<i32> {
        None
    }

    open spec fn floors(&self) -> bool {
        false
    }

    open spec fn render_spec(&self, width: u16, height: u16) -> Seq<Seq<char>>
        decreases self,
    {
        overlay_spec(
            blank(width as int, height as int),
            self.child.render_spec(
                inner_extent(width, self.left, self.right),
                inner_extent(height, self.top, self.bottom),
            ),
            self.left as int,
            self.top as int,
        )
    }

    fn min_size(&self) -> (size: (u16, u16))
        decreases self,
    {
        let (child_w, child_h) = self.child.min_size();
        (child_w + self.left + self.right, child_h + self.top + self.bottom)
    }

    fn render(&self, width: u16, height: u16) -> (canvas: Canvas)
        decreases self,
    {
        let mut canvas = create_canvas(width, height);
        let inner_width = width.saturating_sub(self.left + self.right);
        let inner_height = height.saturating_sub(self.top + self.bottom);
        let child_canvas = self.child.render(inner_width, inner_height);
        overlay(&mut canvas, &child_canvas, self.left, self.top);
        canvas
    }

    fn flex_factor(&self) -> (flex: Option<i32>) {
        None
    }
}

impl IntoWidget for Padding {
    open spec fn ready(&self) -> bool {
        true
    }

    open spec fn yields(&self, widget: AnyWidget) -> bool {
        widget == AnyWidget::Padding(*self) && same_layout(&widget, self)
    }

    fn into_widget(self) -> (widget: AnyWidget) {
        let ghost me = self;
        let widget = AnyWidget::Padding(self);
        assert(widget.well_formed() == me.well_formed());
        assert(widget.min_size_spec() == me.min_size_spec());
        assert(widget.flex_spec() == me.flex_spec());
        assert(widget.floors() == me.floors());
        widget
    }
}

/// `child` with no room around it yet.
pub fn padding<T: IntoWidget>(child: T) -> (p: Padding)
    requires
        child.ready(),
    ensures
        child.yields(*p.child),
        p.top == 0,
        p.left == 0,
        p.right == 0,
        p.bottom == 0,
        p.measured(),
{
    Padding::new(child)
}

} // verus!
