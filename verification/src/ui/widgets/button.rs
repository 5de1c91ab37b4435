//! A framed label that shows whether it is selected.

use crate::ui::rendering::{same_layout, Canvas, IntoWidget, Widget};
use crate::ui::tree::AnyWidget;
use crate::ui::theme::{
    borders_plain, borders_plain_spec, borders_selected, borders_selected_spec, corners_round,
    corners_round_spec,
};
use crate::ui::widgets::align::{Align, AlignHorizontal, Alignment, AlignVertical};
use crate::ui::widgets::border::{edge, Border, Borders, Corners};
use crate::ui::widgets::text::{lemma_short_text_fits, Text};
use vstd::prelude::*;

verus! {

/// A label centred in a frame. The frame has one style while the button is
/// selected and another while it is not; a style that is not set is the
/// default one.
pub struct Button {
    pub text: String,
    pub is_selected: bool,
    pub borders: Option<Borders>,
    pub corners: Option<Corners>,
    pub borders_selected: Option<Borders>,
    pub corners_selected: Option<Corners>,
}

impl Button {
    /// A button labelled `s`, not selected, in the default styles.
    pub fn new(s: &str) -> (button: Self)
        ensures
            button.text@ == s@,
            !button.is_selected,
            button.borders is None,
            button.corners is None,
            button.borders_selected is None,
            button.corners_selected is None,
            button.measured(),
    {
        let button = Self {
            text: s.to_owned(),
            is_selected: false,
            borders: None,
            corners: None,
            borders_selected: None,
            corners_selected: None,
        };
        proof {
            button.lemma_measured();
        }
        button
    }

    /// The same button, selected or not as `sel` says.
    pub fn selected(self, sel: bool) -> (button: Self)
        ensures
            button == (Button { is_selected: sel, ..self }),
            button.measured(),
    {
        let button = Self { is_selected: sel, ..self };
        proof {
            button.lemma_measured();
        }
        button
    }

    /// The sides of the frame in the button's present state.
    pub open spec fn borders_spec(&self) -> Borders {
        if self.is_selected {
            match self.borders_selected {
                Some(borders) => borders,
                None => borders_selected_spec(),
            }
        } else {
            match self.borders {
                Some(borders) => borders,
                None => borders_plain_spec(),
            }
        }
    }

    /// The corners of the frame in the button's present state.
    pub open spec fn corners_spec(&self) -> Corners {
        if self.is_selected {
            match self.corners_selected {
                Some(corners) => corners,
                None => corners_round_spec(),
            }
        } else {
            match self.corners {
                Some(corners) => corners,
                None => corners_round_spec(),
            }
        }
    }

    /// The widgets that the button is made of: its label, centred, in a
    /// frame of its present style.
    pub open spec fn composite(&self) -> Border {
        Border {
            child: Box::new(
                AnyWidget::Align(
                    Align {
                        child: Box::new(AnyWidget::Text(Text { text: self.text, max_width: None })),
                        alignment: Alignment {
                            horizontal: AlignHorizontal::Center,
                            vertical: AlignVertical::Center,
                        },
                    },
                ),
            ),
            borders: self.borders_spec(),
            corners: self.corners_spec(),
        }
    }

    /// What is well formed and the minimum size come to for a button whose
    /// label, with its frame, is at most 65535 characters wide: it is well
    /// formed, and as large as the label and the drawn sides of the frame.
    pub open spec fn measured(&self) -> bool {
        self.text@.len() + 2 <= u16::MAX ==> {
            &&& self.well_formed()
            &&& self.min_size_spec() == (
                (self.text@.len() + edge(self.borders_spec().left) + edge(
                    self.borders_spec().right,
                )) as u16,
                (1 + edge(self.borders_spec().top) + edge(self.borders_spec().bottom)) as u16,
            )
        }
    }

    /// Every button is measured so.
    pub proof fn lemma_measured(&self)
        ensures
            self.measured(),
    {
        if self.text@.len() + 2 <= u16::MAX {
            let label = Text { text: self.text, max_width: None };
            let centred = Align {
                child: Box::new(AnyWidget::Text(label)),
                alignment: Alignment {
                    horizontal: AlignHorizontal::Center,
                    vertical: AlignVertical::Center,
                },
            };
            let framed = self.composite();
            lemma_short_text_fits(&label);
            centred.lemma_measured();
            framed.lemma_measured();
            assert(*centred.child == AnyWidget::Text(label));
            assert(centred.child.well_formed() == label.well_formed());
            assert(centred.child.min_size_spec() == label.min_size_spec());
            assert(*framed.child == AnyWidget::Align(centred));
            assert(framed.child.well_formed() == centred.well_formed());
            assert(framed.child.min_size_spec() == centred.min_size_spec());
        }
    }

    /// Builds the widgets that the button is made of.
    pub fn build_widget(&self) -> (widget: AnyWidget)
        ensures
            widget == AnyWidget::Border(self.composite()),
    {
        let borders = if self.is_selected {
            match self.borders_selected {
                Some(borders) => borders,
                None => borders_selected(),
            }
        } else {
            match self.borders {
                Some(borders) => borders,
                None => borders_plain(),
            }
        };
        let corners = if self.is_selected {
            match self.corners_selected {
                Some(corners) => corners,
                None => corners_round(),
            }
        } else {
            match self.corners {
                Some(corners) => corners,
                None => corners_round(),
            }
        };
        let label = Text { text: self.text.clone(), max_width: None };
        let centred = Align {
            child: Box::new(AnyWidget::Text(label)),
            alignment: Alignment {
                horizontal: AlignHorizontal::Center,
                vertical: AlignVertical::Center,
            },
        };
        AnyWidget::Border(Border { child: Box::new(AnyWidget::Align(centred)), borders, corners })
    }

    /// Tells whether the widget is well formed.
    pub fn is_well_formed(&self) -> (ok: bool)
        ensures
            ok == self.well_formed(),
    {
        let widget = self.build_widget();
        assert(widget.well_formed() == self.composite().well_formed());
        widget.is_well_formed()
    }
}

impl Widget for Button {
    open spec fn well_formed(&self) -> bool {
        self.composite().well_formed()
    }

    open spec fn min_size_spec(&self) -> (u16, u16) {
        self.composite().min_size_spec()
    }

    open spec fn flex_spec(&self) -> Option<i32> {
        None
    }

    open spec fn floors(&self) -> bool {
        true
    }

    open spec fn render_spec(&self, width: u16, height: u16) -> Seq<Seq<char>> {
        self.composite().render_spec(width, height)
    }

    fn min_size(&self) -> (size: (u16, u16)) {
        let widget = self.build_widget();
        assert(widget.well_formed() == self.composite().well_formed());
        assert(widget.min_size_spec() == self.composite().min_size_spec());
        widget.min_size()
    }

    fn render(&self, width: u16, height: u16) -> (canvas: Canvas) {
        let widget = self.build_widget();
        assert(widget.well_formed() == self.composite().well_formed());
        assert(widget.min_size_spec() == self.composite().min_size_spec());
        assert(widget.floors() == self.composite().floors());
        assert(widget.render_spec(width, height) == self.composite().render_spec(width, height));
        widget.render(width, height)
    }

    fn flex_factor(&self) -> (flex: Option<i32>) {
        None
    }
}

impl IntoWidget for Button {
    open spec fn ready(&self) -> bool {
        true
    }

    open spec fn yields(&self, widget: AnyWidget) -> bool {
        widget == AnyWidget::Border(self.composite()) && same_layout(&widget, self)
    }

    fn into_widget(self) -> (widget: AnyWidget) {
        let widget = self.build_widget();
        assert(widget.well_formed() == self.composite().well_formed());
        assert(widget.min_size_spec() == self.composite().min_size_spec());
        assert(widget.flex_spec() == self.composite().flex_spec());
        assert(widget.floors() == self.composite().floors());
        widget
    }
}

/// A button labelled `s`, not selected, in the default styles.
pub fn button(s: &str) -> (button: Button)
    ensures
        button.text@ == s@,
        !button.is_selected,
        button.borders is None,
        button.corners is None,
        button.borders_selected is None,
        button.corners_selected is None,
        button.measured(),
{
    Button::new(s)
}

} // verus!
