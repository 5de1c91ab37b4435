//! The widget tree: a widget of any kind, and what containers ask of their
//! children.

use crate::ui::layout::{
    larger, layout_fits, lemma_size_added, lemma_weight_added, max_of, sum_of, total_weight,
    weight_of,
};
use crate::ui::rendering::{floored, grid, is_rect, renders, Canvas, IntoWidget, Widget};
use crate::ui::widgets::align::Align;
use crate::ui::widgets::border::Border;
use crate::ui::widgets::column::Column;
use crate::ui::widgets::divider::Divider;
use crate::ui::widgets::flexible::Flexible;
use crate::ui::widgets::image::Image;
use crate::ui::widgets::padding::Padding;
use crate::ui::widgets::progress_bar::ProgressBar;
use crate::ui::widgets::row::Row;
use crate::ui::widgets::sizedbox::SizedBox;
use crate::ui::widgets::stack::Stack;
use crate::ui::widgets::text::Text;
use vstd::prelude::*;

verus! {

/// A widget of any kind: what a container holds as its child.
pub enum AnyWidget {
    Text(Text),
    Image(Image),
    Divider(Divider),
    ProgressBar(ProgressBar),
    Align(Align),
    Border(Border),
    Padding(Padding),
    SizedBox(SizedBox),
    Flexible(Flexible),
    Column(Column),
    Row(Row),
    Stack(Stack),
}

impl Widget for AnyWidget {
    open spec fn well_formed(&self) -> bool
        decreases self,
    {
        match self {
            AnyWidget::Text(w) => w.well_formed(),
            AnyWidget::Image(w) => w.well_formed(),
            AnyWidget::Divider(w) => w.well_formed(),
            AnyWidget::ProgressBar(w) => w.well_formed(),
            AnyWidget::Align(w) => w.well_formed(),
            AnyWidget::Border(w) => w.well_formed(),
            AnyWidget::Padding(w) => w.well_formed(),
            AnyWidget::SizedBox(w) => w.well_formed(),
            AnyWidget::Flexible(w) => w.well_formed(),
            AnyWidget::Column(w) => w.well_formed(),
            AnyWidget::Row(w) => w.well_formed(),
            AnyWidget::Stack(w) => w.well_formed(),
        }
    }

    open spec fn min_size_spec(&self) -> (u16, u16)
        decreases self,
    {
        match self {
            AnyWidget::Text(w) => w.min_size_spec(),
            AnyWidget::Image(w) => w.min_size_spec(),
            AnyWidget::Divider(w) => w.min_size_spec(),
            AnyWidget::ProgressBar(w) => w.min_size_spec(),
            AnyWidget::Align(w) => w.min_size_spec(),
            AnyWidget::Border(w) => w.min_size_spec(),
            AnyWidget::Padding(w) => w.min_size_spec(),
            AnyWidget::SizedBox(w) => w.min_size_spec(),
            AnyWidget::Flexible(w) => w.min_size_spec(),
            AnyWidget::Column(w) => w.min_size_spec(),
            AnyWidget::Row(w) => w.min_size_spec(),
            AnyWidget::Stack(w) => w.min_size_spec(),
        }
    }

    open spec fn flex_spec(&self) -> Option<i32> {
        match self {
            AnyWidget::Text(w) => w.flex_spec(),
            AnyWidget::Image(w) => w.flex_spec(),
            AnyWidget::Divider(w) => w.flex_spec(),
            AnyWidget::ProgressBar(w) => w.flex_spec(),
            AnyWidget::Align(w) => w.flex_spec(),
            AnyWidget::Border(w) => w.flex_spec(),
            AnyWidget::Padding(w) => w.flex_spec(),
            AnyWidget::SizedBox(w) => w.flex_spec(),
            AnyWidget::Flexible(w) => w.flex_spec(),
            AnyWidget::Column(w) => w.flex_spec(),
            AnyWidget::Row(w) => w.flex_spec(),
            AnyWidget::Stack(w) => w.flex_spec(),
        }
    }

    open spec fn floors(&self) -> bool
        decreases self,
    {
        match self {
            AnyWidget::Text(w) => w.floors(),
            AnyWidget::Image(w) => w.floors(),
            AnyWidget::Divider(w) => w.floors(),
            AnyWidget::ProgressBar(w) => w.floors(),
            AnyWidget::Align(w) => w.floors(),
            AnyWidget::Border(w) => w.floors(),
            AnyWidget::Padding(w) => w.floors(),
            AnyWidget::SizedBox(w) => w.floors(),
            AnyWidget::Flexible(w) => w.floors(),
            AnyWidget::Column(w) => w.floors(),
            AnyWidget::Row(w) => w.floors(),
            AnyWidget::Stack(w) => w.floors(),
        }
    }

    open spec fn render_spec(&self, width: u16, height: u16) -> Seq<Seq<char>>
        decreases self,
    {
        match self {
            AnyWidget::Text(w) => w.render_spec(width, height),
            AnyWidget::Image(w) => w.render_spec(width, height),
            AnyWidget::Divider(w) => w.render_spec(width, height),
            AnyWidget::ProgressBar(w) => w.render_spec(width, height),
            AnyWidget::Align(w) => w.render_spec(width, height),
            AnyWidget::Border(w) => w.render_spec(width, height),
            AnyWidget::Padding(w) => w.render_spec(width, height),
            AnyWidget::SizedBox(w) => w.render_spec(width, height),
            AnyWidget::Flexible(w) => w.render_spec(width, height),
            AnyWidget::Column(w) => w.render_spec(width, height),
            AnyWidget::Row(w) => w.render_spec(width, height),
            AnyWidget::Stack(w) => w.render_spec(width, height),
        }
    }

    fn min_size(&self) -> (size: (u16, u16))
        decreases self,
    {
        match self {
            AnyWidget::Text(w) => w.min_size(),
            AnyWidget::Image(w) => w.min_size(),
            AnyWidget::Divider(w) => w.min_size(),
            AnyWidget::ProgressBar(w) => w.min_size(),
            AnyWidget::Align(w) => w.min_size(),
            AnyWidget::Border(w) => w.min_size(),
            AnyWidget::Padding(w) => w.min_size(),
            AnyWidget::SizedBox(w) => w.min_size(),
            AnyWidget::Flexible(w) => w.min_size(),
            AnyWidget::Column(w) => w.min_size(),
            AnyWidget::Row(w) => w.min_size(),
            AnyWidget::Stack(w) => w.min_size(),
        }
    }

    fn render(&self, width: u16, height: u16) -> (canvas: Canvas)
        decreases self,
    {
        match self {
            AnyWidget::Text(w) => {
                let canvas = w.render(width, height);
                assert(self.floors() == w.floors());
                assert(self.min_size_spec() == w.min_size_spec());
                canvas
            },
            AnyWidget::Image(w) => {
                let canvas = w.render(width, height);
                assert(self.floors() == w.floors());
                assert(self.min_size_spec() == w.min_size_spec());
                canvas
            },
            AnyWidget::Divider(w) => {
                let canvas = w.render(width, height);
                assert(self.floors() == w.floors());
                assert(self.min_size_spec() == w.min_size_spec());
                canvas
            },
            AnyWidget::ProgressBar(w) => {
                let canvas = w.render(width, height);
                assert(self.floors() == w.floors());
                assert(self.min_size_spec() == w.min_size_spec());
                canvas
            },
            AnyWidget::Align(w) => {
                let canvas = w.render(width, height);
                assert(self.floors() == w.floors());
                assert(self.min_size_spec() == w.min_size_spec());
                canvas
            },
            AnyWidget::Border(w) => {
                let canvas = w.render(width, height);
                assert(self.floors() == w.floors());
                assert(self.min_size_spec() == w.min_size_spec());
                canvas
            },
            AnyWidget::Padding(w) => {
                let canvas = w.render(width, height);
                assert(self.floors() == w.floors());
                assert(self.min_size_spec() == w.min_size_spec());
                canvas
            },
            AnyWidget::SizedBox(w) => {
                let canvas = w.render(width, height);
                assert(self.floors() == w.floors());
                assert(self.min_size_spec() == w.min_size_spec());
                canvas
            },
            AnyWidget::Flexible(w) => {
                let canvas = w.render(width, height);
                assert(self.floors() == w.floors());
                assert(self.min_size_spec() == w.min_size_spec());
                canvas
            },
            AnyWidget::Column(w) => {
                let canvas = w.render(width, height);
                assert(self.floors() == w.floors());
                assert(self.min_size_spec() == w.min_size_spec());
                canvas
            },
            AnyWidget::Row(w) => {
                let canvas = w.render(width, height);
                assert(self.floors() == w.floors());
                assert(self.min_size_spec() == w.min_size_spec());
                canvas
            },
            AnyWidget::Stack(w) => {
                let canvas = w.render(width, height);
                assert(self.floors() == w.floors());
                assert(self.min_size_spec() == w.min_size_spec());
                canvas
            },
        }
    }

    fn flex_factor(&self) -> (flex: Option<i32>) {
        match self {
            AnyWidget::Text(w) => w.flex_factor(),
            AnyWidget::Image(w) => w.flex_factor(),
            AnyWidget::Divider(w) => w.flex_factor(),
            AnyWidget::ProgressBar(w) => w.flex_factor(),
            AnyWidget::Align(w) => w.flex_factor(),
            AnyWidget::Border(w) => w.flex_factor(),
            AnyWidget::Padding(w) => w.flex_factor(),
            AnyWidget::SizedBox(w) => w.flex_factor(),
            AnyWidget::Flexible(w) => w.flex_factor(),
            AnyWidget::Column(w) => w.flex_factor(),
            AnyWidget::Row(w) => w.flex_factor(),
            AnyWidget::Stack(w) => w.flex_factor(),
        }
    }
}

impl AnyWidget {
    /// Tells whether the widget is well formed.
    pub fn is_well_formed(&self) -> (ok: bool)
        ensures
            ok == self.well_formed(),
        decreases self,
    {
        match self {
            AnyWidget::Text(w) => w.is_well_formed(),
            AnyWidget::Image(w) => w.is_well_formed(),
            AnyWidget::Divider(w) => w.is_well_formed(),
            AnyWidget::ProgressBar(w) => w.is_well_formed(),
            AnyWidget::Align(w) => w.is_well_formed(),
            AnyWidget::Border(w) => w.is_well_formed(),
            AnyWidget::Padding(w) => w.is_well_formed(),
            AnyWidget::SizedBox(w) => w.is_well_formed(),
            AnyWidget::Flexible(w) => w.is_well_formed(),
            AnyWidget::Column(w) => w.is_well_formed(),
            AnyWidget::Row(w) => w.is_well_formed(),
            AnyWidget::Stack(w) => w.is_well_formed(),
        }
    }

    /// Renders the widget into `width` columns and `height` rows, where it is
    /// well formed.
    pub fn try_render(&self, width: u16, height: u16) -> (canvas: Option<Canvas>)
        ensures
            canvas is Some <==> self.well_formed(),
            canvas matches Some(c) ==> renders(self, width, height, &c) && is_rect(
                grid(&c),
                floored(self.floors(), self.min_size_spec().0, width),
                floored(self.floors(), self.min_size_spec().1, height),
            ),
    {
        if self.is_well_formed() {
            Some(self.render(width, height))
        } else {
            None
        }
    }
}

impl IntoWidget for AnyWidget {
    open spec fn ready(&self) -> bool {
        true
    }

    open spec fn yields(&self, widget: AnyWidget) -> bool {
        widget == *self
    }

    fn into_widget(self) -> (widget: AnyWidget) {
        self
    }
}

/// Every one of `children` is well formed.
pub open spec fn all_well_formed(children: Seq<AnyWidget>) -> bool
    decreases children,
{
    forall|i: int| 0 <= i < children.len() ==> (#[trigger] children[i]).well_formed()
}

/// The minimum widths of `children`.
pub open spec fn min_widths(children: Seq<AnyWidget>) -> Seq<u16>
    decreases children,
{
    if children.len() == 0 {
        Seq::empty()
    } else {
        min_widths(children.drop_last()).push(children.last().min_size_spec().0)
    }
}

/// The minimum heights of `children`.
pub open spec fn min_heights(children: Seq<AnyWidget>) -> Seq<u16>
    decreases children,
{
    if children.len() == 0 {
        Seq::empty()
    } else {
        min_heights(children.drop_last()).push(children.last().min_size_spec().1)
    }
}

/// The flex weights of `children`.
pub open spec fn flex_weights(children: Seq<AnyWidget>) -> Seq<Option<i32>> {
    Seq::new(children.len(), |i: int| children[i].flex_spec())
}

/// No child has a negative flex weight.
pub open spec fn weights_ok(children: Seq<AnyWidget>) -> bool {
    forall|i: int| 0 <= i < children.len() ==> weight_of((#[trigger] children[i]).flex_spec()) >= 0
}

/// The children of a row or column can be laid out exactly where their
/// minimum sizes together fit a size and, if their weights are positive
/// together, none has a negative weight.
pub proof fn lemma_layout_fits(children: Seq<AnyWidget>, sizes: Seq<u16>)
    requires
        sizes.len() == children.len(),
    ensures
        layout_fits(sizes, flex_weights(children)) == (sum_of(sizes) <= u16::MAX && (total_weight(
            flex_weights(children),
        ) > 0 ==> weights_ok(children))),
{
    let flex = flex_weights(children);
    if weights_ok(children) {
        assert forall|i: int| 0 <= i < flex.len() implies weight_of(#[trigger] flex[i]) >= 0 by {
            assert(flex[i] == children[i].flex_spec());
        }
    }
    if forall|i: int| 0 <= i < flex.len() ==> weight_of(#[trigger] flex[i]) >= 0 {
        assert forall|i: int| 0 <= i < children.len() implies weight_of(
            (#[trigger] children[i]).flex_spec(),
        ) >= 0 by {
            assert(flex[i] == children[i].flex_spec());
        }
    }
}

/// What one more child adds to what a container asks of its children.
pub proof fn lemma_child_added(children: Seq<AnyWidget>, child: AnyWidget)
    ensures
        all_well_formed(children.push(child)) == (all_well_formed(children)
            && child.well_formed()),
        weights_ok(children.push(child)) == (weights_ok(children) && weight_of(child.flex_spec())
            >= 0),
        min_widths(children.push(child)) == min_widths(children).push(child.min_size_spec().0),
        min_heights(children.push(child)) == min_heights(children).push(child.min_size_spec().1),
        flex_weights(children.push(child)) == flex_weights(children).push(child.flex_spec()),
{
    let more = children.push(child);
    assert(more.drop_last() =~= children);
    assert(more.last() == child);
    assert(min_widths(more) == min_widths(more.drop_last()).push(more.last().min_size_spec().0));
    assert(min_heights(more) == min_heights(more.drop_last()).push(more.last().min_size_spec().1));
    assert(flex_weights(more) =~= flex_weights(children).push(child.flex_spec()));
    if all_well_formed(more) {
        assert(more[children.len() as int].well_formed());
        assert forall|i: int| 0 <= i < children.len() implies (
        #[trigger] children[i]).well_formed() by {
            assert(more[i] == children[i]);
        }
    }
    if all_well_formed(children) && child.well_formed() {
        assert forall|i: int| 0 <= i < more.len() implies (#[trigger] more[i]).well_formed() by {
            if i < children.len() {
                assert(more[i] == children[i]);
            }
        }
    }
    if weights_ok(more) {
        assert(weight_of(more[children.len() as int].flex_spec()) >= 0);
        assert forall|i: int| 0 <= i < children.len() implies weight_of(
            (#[trigger] children[i]).flex_spec(),
        ) >= 0 by {
            assert(more[i] == children[i]);
        }
    }
    if weights_ok(children) && weight_of(child.flex_spec()) >= 0 {
        assert forall|i: int| 0 <= i < more.len() implies weight_of(
            (#[trigger] more[i]).flex_spec(),
        ) >= 0 by {
            if i < children.len() {
                assert(more[i] == children[i]);
            }
        }
    }
}

/// Returns an empty list of children.
pub fn no_children() -> (children: Vec<AnyWidget>)
    ensures
        children@.len() == 0,
        all_well_formed(children@),
        weights_ok(children@),
        sum_of(min_widths(children@)) == 0,
        sum_of(min_heights(children@)) == 0,
        max_of(min_widths(children@)) == 0,
        max_of(min_heights(children@)) == 0,
        total_weight(flex_weights(children@)) == 0,
{
    let children: Vec<AnyWidget> = Vec::new();
    proof {
        assert(min_widths(children@) == Seq::<u16>::empty());
        assert(min_heights(children@) == Seq::<u16>::empty());
        assert(flex_weights(children@) =~= Seq::<Option<i32>>::empty());
    }
    children
}

/// `after` is `before` with one more child at its end, and holds for the
/// new child what a container asks of its children taken together.
pub open spec fn with_child(before: Seq<AnyWidget>, after: Seq<AnyWidget>) -> bool {
    let child = after.last();
    &&& after.len() == before.len() + 1
    &&& after.drop_last() == before
    &&& all_well_formed(after) == (all_well_formed(before) && child.well_formed())
    &&& weights_ok(after) == (weights_ok(before) && weight_of(child.flex_spec()) >= 0)
    &&& sum_of(min_widths(after)) == sum_of(min_widths(before)) + child.min_size_spec().0
    &&& sum_of(min_heights(after)) == sum_of(min_heights(before)) + child.min_size_spec().1
    &&& max_of(min_widths(after)) == larger(max_of(min_widths(before)), child.min_size_spec().0)
    &&& max_of(min_heights(after)) == larger(max_of(min_heights(before)), child.min_size_spec().1)
    &&& total_weight(flex_weights(after)) == total_weight(flex_weights(before)) + weight_of(
        child.flex_spec(),
    )
}

/// Appends `child` to `children`.
pub fn add_child<T: IntoWidget>(children: &mut Vec<AnyWidget>, child: T)
    requires
        child.ready(),
    ensures
        child.yields(final(children)@.last()),
        with_child(old(children)@, final(children)@),
{
    let widget = child.into_widget();
    proof {
        lemma_child_added(children@, widget);
        lemma_size_added(min_widths(children@), widget.min_size_spec().0);
        lemma_size_added(min_heights(children@), widget.min_size_spec().1);
        lemma_weight_added(flex_weights(children@), widget.flex_spec());
    }
    children.push(widget);
    assert(children@.drop_last() =~= old(children)@);
    assert(children@ =~= old(children)@.push(widget));
}

/// `min_widths` and `min_heights` hold the minimum size of each child.
pub proof fn lemma_min_sizes(children: Seq<AnyWidget>)
    ensures
        min_widths(children).len() == children.len(),
        min_heights(children).len() == children.len(),
        forall|i: int|
            0 <= i < children.len() ==> #[trigger] min_widths(children)[i]
                == children[i].min_size_spec().0,
        forall|i: int|
            0 <= i < children.len() ==> #[trigger] min_heights(children)[i]
                == children[i].min_size_spec().1,
    decreases children.len(),
{
    if children.len() == 0 {
        assert(min_widths(children) == Seq::<u16>::empty());
        assert(min_heights(children) == Seq::<u16>::empty());
    } else {
        let front = children.drop_last();
        lemma_min_sizes(front);
        assert(min_widths(children) == min_widths(front).push(children.last().min_size_spec().0));
        assert(min_heights(children) == min_heights(front).push(
            children.last().min_size_spec().1,
        ));
        assert forall|i: int| 0 <= i < children.len() implies #[trigger] min_widths(children)[i]
            == children[i].min_size_spec().0 by {
            if i < front.len() {
                assert(front[i] == children[i]);
            }
        }
        assert forall|i: int| 0 <= i < children.len() implies #[trigger] min_heights(children)[i]
            == children[i].min_size_spec().1 by {
            if i < front.len() {
                assert(front[i] == children[i]);
            }
        }
    }
}

/// Returns the minimum widths, the minimum heights and the flex weights of
/// `children`.
pub fn measure_children(children: &Vec<AnyWidget>) -> (sizes: (
    Vec<u16>,
    Vec<u16>,
    Vec<Option<i32>>,
))
    requires
        all_well_formed(children@),
    ensures
        sizes.0@ == min_widths(children@),
        sizes.1@ == min_heights(children@),
        sizes.2@ == flex_weights(children@),
    decreases children,
{
    let n = children.len();
    let mut widths: Vec<u16> = Vec::new();
    let mut heights: Vec<u16> = Vec::new();
    let mut weights: Vec<Option<i32>> = Vec::new();
    let mut i: usize = 0;
    proof {
        lemma_min_sizes(children@);
    }
    while i < n
        invariant
            n == children@.len(),
            i <= n,
            all_well_formed(children@),
            widths@ == min_widths(children@).take(i as int),
            heights@ == min_heights(children@).take(i as int),
            weights@ == flex_weights(children@).take(i as int),
        decreases n - i,
    {
        assert(children@[i as int].well_formed());
        proof {
            lemma_min_sizes(children@);
        }
        let (w, h) = children[i].min_size();
        let f = children[i].flex_factor();
        widths.push(w);
        heights.push(h);
        weights.push(f);
        i = i + 1;
        assert(widths@ =~= min_widths(children@).take(i as int));
        assert(heights@ =~= min_heights(children@).take(i as int));
        assert(weights@ =~= flex_weights(children@).take(i as int));
    }
    proof {
        lemma_min_sizes(children@);
    }
    assert(min_widths(children@).take(n as int) =~= min_widths(children@));
    assert(min_heights(children@).take(n as int) =~= min_heights(children@));
    assert(flex_weights(children@).take(n as int) =~= flex_weights(children@));
    (widths, heights, weights)
}

/// Tells whether every one of `children` is well formed.
pub fn children_well_formed(children: &Vec<AnyWidget>) -> (ok: bool)
    ensures
        ok == all_well_formed(children@),
    decreases children,
{
    let n = children.len();
    let mut i: usize = 0;
    while i < n
        invariant
            n == children@.len(),
            i <= n,
            forall|k: int| 0 <= k < i ==> (#[trigger] children@[k]).well_formed(),
        decreases n - i,
    {
        if !children[i].is_well_formed() {
            return false;
        }
        i = i + 1;
    }
    true
}

/// Converts each of `items` into a widget that a container can hold.
pub fn into_widgets<T: IntoWidget>(items: Vec<T>) -> (widgets: Vec<AnyWidget>)
    requires
        forall|i: int| 0 <= i < items@.len() ==> (#[trigger] items@[i]).ready(),
    ensures
        widgets@.len() == items@.len(),
        forall|i: int| 0 <= i < items@.len() ==> (#[trigger] items@[i]).yields(widgets@[i]),
{
    let mut widgets: Vec<AnyWidget> = Vec::new();
    let ghost all = items@;
    for item in it: items
        invariant
            it.seq() == all,
            forall|i: int| 0 <= i < all.len() ==> (#[trigger] all[i]).ready(),
            widgets@.len() == it.index(),
            forall|i: int| 0 <= i < it.index() ==> (#[trigger] all[i]).yields(widgets@[i]),
    {
        let widget = item.into_widget();
        widgets.push(widget);
    }
    widgets
}

} // verus!
