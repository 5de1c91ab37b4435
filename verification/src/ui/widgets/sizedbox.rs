//! A child held to a given width or height.

use crate::ui::rendering::{
    blank, create_canvas, overlay, overlay_spec, same_layout, Canvas, IntoWidget, Widget,
};
use crate::ui::tree::AnyWidget;
use vstd::prelude::*;

verus! {

/// A child whose width, height or both are fixed, whatever it asks for.
pub struct SizedBox {
    pub child: Box<AnyWidget>,
    pub forced_width: Option<u16>,
    pub forced_height: Option<u16>,
}

/// The forced extent where there is one, else `natural`.
pub open spec fn forced_or(forced: Option<u16>, natural: u16) -> u16 {
    match forced {
        Some(extent) => extent,
        None => natural,
    }
}

impl SizedBox {
    /// What is well formed and the minimum size come to for a sized box: it
    /// is well formed as its child is, and as large as forced or as the
    /// child is.
    pub open spec fn measured(&self) -> bool {
        &&& self.well_formed() == self.child.well_formed()
        &&& self.min_size_spec() == (
            forced_or(self.forced_width, self.child.min_size_spec().0),
            forced_or(self.forced_height, self.child.min_size_spec().1),
        )
    }

    /// Every sized box is measured so.
    pub proof fn lemma_measured(&self)
        ensures
            self.measured(),
    {
        assert(self.well_formed() == self.child.well_formed());
        assert(self.min_size_spec() == (
            forced_or(self.forced_width, self.child.min_size_spec().0),
            forced_or(self.forced_height, self.child.min_size_spec().1),
        ));
    }

    /// `child` with neither extent fixed.
    pub fn new<T: IntoWidget>(child: T) -> (b: Self)
        requires
            child.ready(),
        ensures
            child.yields(*b.child),
            b.forced_width is None,
            b.forced_height is None,
            b.measured(),
    {
        let b = Self {
            child: Box::new(child.into_widget()),
            forced_width: None,
            forced_height: None,
        };
        proof {
            b.lemma_measured();
        }
        b
    }

    /// The same, `w` columns wide.
    pub fn width(self, w: u16) -> (b: Self)
        ensures
            b == (SizedBox { forced_width: Some(w), ..self }),
            b.measured(),
    {
        let b = Self { forced_width: Some(w), ..self };
        proof {
            b.lemma_measured();
        }
        b
    }

    /// The same, `h` rows high.
    pub fn height(self, h: u16) -> (b: Self)
        ensures
            b == (SizedBox { forced_height: Some(h), ..self }),
            b.measured(),
    {
        let b = Self { forced_height: Some(h), ..self };
        proof {
            b.lemma_measured();
        }
        b
    }

    /// Tells whether the widget is well formed.
    pub fn is_well_formed(&self) -> (ok: bool)
        ensures
            ok == self.well_formed(),
        decreases self,
    {
        self.child.is_well_formed()
    }
}

impl Widget for SizedBox {
    open spec fn well_formed(&self) -> bool
        decreases self,
    {
        self.child.well_formed()
    }

    open spec fn min_size_spec(&self) -> (u16, u16)
        decreases self,
    {
        (
            forced_or(self.forced_width, self.child.min_size_spec().0),
            forced_or(self.forced_height, self.child.min_size_spec().1),
        )
    }

    open spec fn flex_spec(&self) -> Option<i32> {
        None
    }

    open spec fn floors(&self) -> bool {
        false
    }

    open spec fn render_spec(&self, width: u16, height: u16) -> Seq<Seq<char>>
        decreases self,
    {
        overlay_spec(
            blank(width as int, height as int),
            self.child.render_spec(
                forced_or(self.forced_width, width),
                forced_or(self.forced_height, height),
            ),
            0,
            0,
        )
    }

    fn min_size(&self) -> (size: (u16, u16))
        decreases self,
    {
        let (child_w, child_h) = self.child.min_size();
        let w = match self.forced_width {
            Some(extent) => extent,
            None => child_w,
        };
        let h = match self.forced_height {
            Some(extent) => extent,
            None => child_h,
        };
        (w, h)
    }

    fn render(&self, width: u16, height: u16) -> (canvas: Canvas)
        decreases self,
    {
        let mut canvas = create_canvas(width, height);
        let child_width = match self.forced_width {
            Some(extent) => extent,
            None => width,
        };
        let child_height = match self.forced_height {
            Some(extent) => extent,
            None => height,
        };
        let child_canvas = self.child.render(child_width, child_height);
        overlay(&mut canvas, &child_canvas, 0, 0);
        canvas
    }

    fn flex_factor(&self) -> (flex: Option<i32>) {
        None
    }
}

impl IntoWidget for SizedBox {
    open spec fn ready(&self) -> bool {
        true
    }

    open spec fn yields(&self, widget: AnyWidget) -> bool {
        widget == AnyWidget::SizedBox(*self) && same_layout(&widget, self)
    }

    fn into_widget(self) -> (widget: AnyWidget) {
        let ghost me = self;
        let widget = AnyWidget::SizedBox(self);
        assert(widget.well_formed() == me.well_formed());
        assert(widget.min_size_spec() == me.min_size_spec());
        assert(widget.flex_spec() == me.flex_spec());
        assert(widget.floors() == me.floors());
        widget
    }
}

/// `child` with neither extent fixed yet.
pub fn sizedbox<T: IntoWidget>(child: T) -> (b: SizedBox)
    requires
        child.ready(),
    ensures
        child.yields(*b.child),
        b.forced_width is None,
        b.forced_height is None,
        b.measured(),
{
    SizedBox::new(child)
}

} // verus!
