//! A widget that is made anew each time it is asked for.

use crate::ui::rendering::{floored, grid, is_rect, renders, Canvas, IntoWidget, Widget};
use crate::ui::tree::AnyWidget;
use vstd::prelude::*;

verus! {

/// A widget given by a producer, which is called afresh whenever the size or
/// the rendering is asked for.
pub struct BuilderWidget<F: Fn() -> AnyWidget> {
    pub builder: F,
}

/// The contract of `producer` allows one widget at most.
pub open spec fn gives_one<F: Fn() -> AnyWidget>(producer: F) -> bool {
    forall|one: AnyWidget, other: AnyWidget|
        #![trigger call_ensures(producer, (), one), call_ensures(producer, (), other)]
        call_ensures(producer, (), one) && call_ensures(producer, (), other) ==> one == other
}

/// Every widget that the contract of `producer` allows is well formed.
pub open spec fn gives_well_formed<F: Fn() -> AnyWidget>(producer: F) -> bool {
    forall|widget: AnyWidget| #[trigger]
        call_ensures(producer, (), widget) ==> widget.well_formed()
}

/// What a builder comes to, in terms of its producer: it has no flex
/// weight; it can be made a child where the producer can be called, and then
/// yields what the producer gives; and it is well formed where the producer
/// can be called and its contract allows one widget at most, and a well
/// formed one.
pub open spec fn measured<F: Fn() -> AnyWidget>(b: &BuilderWidget<F>) -> bool {
    &&& b.flex_spec() is None
    &&& b.ready() == call_requires(b.builder, ())
    &&& forall|widget: AnyWidget| #[trigger]
        b.yields(widget) == call_ensures(b.builder, (), widget)
    &&& b.well_formed() == (call_requires(b.builder, ()) && gives_one(b.builder)
        && gives_well_formed(b.builder))
}

/// Every builder is measured so.
pub proof fn lemma_measured<F: Fn() -> AnyWidget>(b: &BuilderWidget<F>)
    ensures
        measured(b),
{
}

impl<F: Fn() -> AnyWidget> BuilderWidget<F> {
    /// The widget that `builder` produces.
    pub fn new(builder: F) -> (b: Self)
        ensures
            b.builder == builder,
            measured(&b),
    {
        let b = Self { builder };
        proof {
            lemma_measured(&b);
        }
        b
    }

    /// A widget that the contract of the producer allows.
    pub open spec fn built(&self) -> AnyWidget {
        choose|widget: AnyWidget| #[trigger] call_ensures(self.builder, (), widget)
    }

    /// Asks the producer for a widget and renders it into `width` columns
    /// and `height` rows, where it is well formed. The producer need not
    /// give the same widget each time.
    pub fn try_render(&self, width: u16, height: u16) -> (canvas: Option<Canvas>)
        requires
            call_requires(self.builder, ()),
        ensures
            exists|widget: AnyWidget|
                call_ensures(self.builder, (), widget) && (canvas is Some
                    <==> widget.well_formed()) && (canvas matches Some(c) ==> renders(
                    &widget,
                    width,
                    height,
                    &c,
                )),
    {
        let widget = (self.builder)();
        let canvas = widget.try_render(width, height);
        assert(call_ensures(self.builder, (), widget) && (canvas is Some
            <==> widget.well_formed()) && (canvas matches Some(c) ==> renders(
            &widget,
            width,
            height,
            &c,
        )));
        canvas
    }
}

impl<F: Fn() -> AnyWidget> Widget for BuilderWidget<F> {
    /// The producer can be called, and its contract allows one widget at
    /// most, and a well formed one.
    open spec fn well_formed(&self) -> bool {
        &&& call_requires(self.builder, ())
        &&& gives_one(self.builder)
        &&& gives_well_formed(self.builder)
    }

    open spec fn min_size_spec(&self) -> (u16, u16) {
        self.built().min_size_spec()
    }

    open spec fn flex_spec(&self) -> Option<i32> {
        None
    }

    open spec fn floors(&self) -> bool {
        self.built().floors()
    }

    open spec fn render_spec(&self, width: u16, height: u16) -> Seq<Seq<char>> {
        self.built().render_spec(width, height)
    }

    /// Returns the minimum size of the widget that the producer gives.
    fn min_size(&self) -> (size: (u16, u16))
        ensures
            exists|widget: AnyWidget|
                call_ensures(self.builder, (), widget) && size == widget.min_size_spec(),
    {
        let widget = (self.builder)();
        assert(call_ensures(self.builder, (), self.built()));
        assert(call_ensures(self.builder, (), widget));
        widget.min_size()
    }

    /// Renders the widget that the producer gives.
    fn render(&self, width: u16, height: u16) -> (canvas: Canvas)
        ensures
            exists|widget: AnyWidget|
                call_ensures(self.builder, (), widget) && renders(&widget, width, height, &canvas)
                    && is_rect(
                    grid(&canvas),
                    floored(widget.floors(), widget.min_size_spec().0, width),
                    floored(widget.floors(), widget.min_size_spec().1, height),
                ),
    {
        let widget = (self.builder)();
        assert(call_ensures(self.builder, (), self.built()));
        assert(call_ensures(self.builder, (), widget));
        let canvas = widget.render(width, height);
        assert(call_ensures(self.builder, (), widget) && renders(&widget, width, height, &canvas)
            && is_rect(
            grid(&canvas),
            floored(widget.floors(), widget.min_size_spec().0, width),
            floored(widget.floors(), widget.min_size_spec().1, height),
        ));
        canvas
    }

    fn flex_factor(&self) -> (flex: Option<i32>) {
        None
    }
}

impl<F: Fn() -> AnyWidget> IntoWidget for BuilderWidget<F> {
    open spec fn ready(&self) -> bool {
        call_requires(self.builder, ())
    }

    open spec fn yields(&self, widget: AnyWidget) -> bool {
        call_ensures(self.builder, (), widget)
    }

    fn into_widget(self) -> (widget: AnyWidget) {
        (self.builder)()
    }
}

/// The widget that `producer` produces.
pub fn builder<F: Fn() -> AnyWidget>(producer: F) -> (b: BuilderWidget<F>)
    ensures
        b.builder == producer,
        measured(&b),
{
    BuilderWidget::new(producer)
}

} // verus!
