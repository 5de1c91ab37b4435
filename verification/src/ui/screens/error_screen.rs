//! The page that reports a failure.

use crate::errors::AppError;
use crate::navigator::NavAction;
use crate::platform::input::InputKey;
use crate::ui::rendering::{IntoWidget, Widget};
use crate::ui::shape::{
    child_of, children_of, corners_plus, is_button, is_centred, is_column, is_divider, is_flexible,
    is_framed, is_padded, is_sized, is_text, is_wrapped_text,
};
use crate::ui::theme::{borders_plain, borders_plain_spec, corners_round, corners_round_spec};
use crate::ui::tree::{add_child, no_children, AnyWidget};
use crate::ui::widgets::align::align;
use crate::ui::widgets::border::{border, Corners};
use crate::ui::widgets::button::button;
use crate::ui::widgets::column::Column;
use crate::ui::widgets::divider::divider;
use crate::ui::widgets::flexible::flexible;
use crate::ui::widgets::padding::padding;
use crate::ui::widgets::sizedbox::sizedbox;
use crate::ui::widgets::text::text;
use vstd::prelude::*;
use vstd::string::*;

verus! {

/// The most characters of a message for which the page is sure to be well
/// formed, whatever its words.
pub const MAX_MESSAGE: usize = 65521;

/// The report of a failure, to be acknowledged.
pub struct ErrorScreen {
    pub error: AppError,
}

/// `page` is the page that shows `message` as a failure: in a plain frame
/// with `+` at the corners, a column of the heading `ERROR` with a row of
/// room above and below, a line, a blank row, the message, a selected OK
/// button of 8 columns and 3 rows, and two blank rows. The message is
/// wrapped at 40 columns, in a frame with rounded corners, centred, and
/// takes the spare rows; heading and button are centred too.
pub open spec fn error_page(page: AnyWidget, message: Seq<char>) -> bool {
    let parts = children_of(child_of(page));
    let shown = child_of(parts[3]);
    &&& is_framed(page, borders_plain_spec(), corners_plus())
    &&& is_column(child_of(page), 7)
    &&& is_centred(parts[0])
    &&& is_padded(child_of(parts[0]), 1, 0, 0, 1)
    &&& is_text(child_of(child_of(parts[0])), "ERROR"@)
    &&& is_divider(parts[1], '-', false)
    &&& is_text(parts[2], ""@)
    &&& is_flexible(parts[3], 1)
    &&& is_centred(shown)
    &&& is_framed(child_of(shown), borders_plain_spec(), corners_round_spec())
    &&& is_padded(child_of(child_of(shown)), 0, 0, 0, 0)
    &&& is_wrapped_text(child_of(child_of(child_of(shown))), message, 40)
    &&& is_centred(parts[4])
    &&& is_sized(child_of(parts[4]), Some(8u16), Some(3u16))
    &&& is_button(child_of(child_of(parts[4])), "OK"@, true)
    &&& is_text(parts[5], ""@)
    &&& is_text(parts[6], ""@)
}

/// Builds the page that shows `message` as a failure.
pub fn error_view(message: &str) -> (widget: AnyWidget)
    ensures
        error_page(widget, message@),
        message@.len() <= MAX_MESSAGE ==> widget.well_formed(),
{
    proof {
        reveal_strlit("ERROR");
        reveal_strlit("");
        reveal_strlit("OK");
    }
    let mut parts = no_children();
    add_child(&mut parts, align(padding(text("ERROR")).vertical(1)));
    let ghost heading = parts@[0];
    add_child(&mut parts, divider('-'));
    let ghost line = parts@[1];
    add_child(&mut parts, text(""));
    let ghost gap = parts@[2];
    add_child(
        &mut parts,
        flexible(1, align(border(padding(text(message).max_width(40))).corners(corners_round()))),
    );
    let ghost shown = parts@[3];
    add_child(&mut parts, align(sizedbox(button("OK").selected(true)).width(8).height(3)));
    let ghost button = parts@[4];
    add_child(&mut parts, text(""));
    let ghost below = parts@[5];
    add_child(&mut parts, text(""));
    assert(parts@[0] == heading && parts@[1] == line && parts@[2] == gap && parts@[3] == shown
        && parts@[4] == button && parts@[5] == below);
    border(Column::from_children(parts)).borders(borders_plain()).corners(
        Corners {
            top_left: Some('+'),
            top_right: Some('+'),
            bottom_left: Some('+'),
            bottom_right: Some('+'),
        },
    ).into_widget()
}

impl ErrorScreen {
    /// Builds the page that reports the failure: the page that shows the
    /// message of the error.
    pub fn view(&self) -> (widget: AnyWidget)
        ensures
            exists|text: Seq<char>|
                self.error.shows(text) && error_page(widget, text) && (text.len() <= MAX_MESSAGE
                    ==> widget.well_formed()),
    {
        let message = self.error.message();
        let widget = error_view(message.as_str());
        assert(self.error.shows(message@) && error_page(widget, message@));
        widget
    }

    /// Returns what `key` asks for: Enter acknowledges the report and leaves
    /// it, any other key does nothing.
    pub fn on_key<S>(&self, key: InputKey) -> (action: NavAction<S>)
        ensures
            key is Enter ==> action is Pop,
            !(key is Enter) ==> action is Stay,
    {
        match key {
            InputKey::Enter => NavAction::Pop,
            _ => NavAction::Stay,
        }
    }
}

} // verus!
