//! The page that says who made the program.

use crate::navigator::NavAction;
use crate::platform::input::InputKey;
use crate::ui::rendering::{IntoWidget, Widget};
use crate::ui::shape::{
    child_of, children_of, corners_plus, is_aligned, is_centred, is_column, is_divider,
    is_flexible, is_framed, is_padded, is_sized, is_stack, is_text, is_wrapped_text,
};
use crate::ui::theme::{
    borders_plain_spec, corners_none, corners_none_spec, corners_round, corners_round_spec,
};
use crate::ui::tree::{add_child, no_children, AnyWidget};
use crate::ui::widgets::align::{align, AlignHorizontal, AlignVertical};
use crate::ui::widgets::border::{border, Borders};
use crate::ui::widgets::column::Column;
use crate::ui::widgets::divider::divider;
use crate::ui::widgets::flexible::flexible;
use crate::ui::widgets::padding::padding;
use crate::ui::widgets::sizedbox::sizedbox;
use crate::ui::widgets::stack::Stack;
use crate::ui::widgets::text::text;
use vstd::prelude::*;
use vstd::string::*;

verus! {

/// The most characters of a version for which the page is sure to be well
/// formed.
pub const MAX_VERSION: usize = 65529;

/// The page that says who made the program.
pub struct AboutScreen;

/// The version as the page shows it: ` v`, the version, and a space.
pub open spec fn version_label(version: Seq<char>) -> Seq<char> {
    " v"@ + version + " "@
}

/// The sides of the tab that shows the way back: a line above, a slope on
/// its right.
pub open spec fn way_back_sides_spec() -> Borders {
    Borders { left: None, right: Some('\\'), top: Some('_'), bottom: None }
}

/// The sides of the tab that shows the version: a line above, a slope on
/// its left.
pub open spec fn version_sides_spec() -> Borders {
    Borders { left: Some('/'), right: None, top: Some('_'), bottom: None }
}

/// The sides of the tab that shows the way back.
#[verifier::when_used_as_spec(way_back_sides_spec)]
pub fn way_back_sides() -> (sides: Borders)
    ensures
        sides == way_back_sides_spec(),
{
    Borders { left: None, right: Some('\\'), top: Some('_'), bottom: None }
}

/// The sides of the tab that shows the version.
#[verifier::when_used_as_spec(version_sides_spec)]
pub fn version_sides() -> (sides: Borders)
    ensures
        sides == version_sides_spec(),
{
    Borders { left: Some('/'), right: None, top: Some('_'), bottom: None }
}

/// The warning that the page shows.
pub open spec fn warning_text() -> Seq<char> {
    "This application is provided without any warranty. Make sure you have backups of your save files before using it!"@
}

/// `widget` is `s` on one line, centred.
pub open spec fn is_centred_text(widget: AnyWidget, s: Seq<char>) -> bool {
    is_centred(widget) && is_text(child_of(widget), s)
}

/// `thanks` is the list of thanks: three columns of room on its left, then
/// a column of the heading with a line beneath it, placed at the left, and
/// the three lines of thanks.
pub open spec fn thanks_part(thanks: AnyWidget) -> bool {
    let lines = children_of(child_of(thanks));
    let heading = children_of(child_of(lines[0]));
    &&& is_padded(thanks, 0, 3, 0, 0)
    &&& is_column(child_of(thanks), 4)
    &&& is_aligned(lines[0], AlignHorizontal::Start, AlignVertical::Center)
    &&& is_column(child_of(lines[0]), 2)
    &&& is_text(heading[0], "Special thanks to:"@)
    &&& is_divider(heading[1], '-', false)
    &&& is_text(lines[1], "- pkmn-savedata by Zayaldrie"@)
    &&& is_text(lines[2], "- ndless-rs by Ben Schattinger (lights0123)"@)
    &&& is_text(lines[3], "- Ndless by the Ndless team"@)
}

/// `footer` is the foot of the page, which takes the spare rows: a stack of
/// the way back in a tab at the bottom left, the home of the program and its
/// licence, centred, and the version in a tab at the bottom right.
pub open spec fn footer_part(footer: AnyWidget, version: Seq<char>) -> bool {
    let layers = children_of(child_of(child_of(footer)));
    let home = children_of(child_of(layers[1]));
    &&& is_flexible(footer, 1)
    &&& is_padded(child_of(footer), 0, 0, 0, 0)
    &&& is_stack(child_of(child_of(footer)), 3)
    &&& is_aligned(layers[0], AlignHorizontal::Start, AlignVertical::End)
    &&& is_framed(child_of(layers[0]), way_back_sides_spec(), corners_none_spec())
    &&& is_text(child_of(child_of(layers[0])), " < esc "@)
    &&& is_centred(layers[1])
    &&& is_column(child_of(layers[1]), 2)
    &&& is_centred_text(home[0], "github.com/ciriousjoker/nTradeAdvance"@)
    &&& is_centred_text(home[1], "CC BY-NC-SA 4.0"@)
    &&& is_aligned(layers[2], AlignHorizontal::End, AlignVertical::End)
    &&& is_framed(child_of(layers[2]), version_sides_spec(), corners_none_spec())
    &&& is_text(child_of(child_of(layers[2])), version_label(version))
}

/// `page` is what the about page shows for `version`: in a plain frame with
/// `+` at the corners, a column of the author and where the program was
/// made, the warning, two lines on the history of the program, the thanks
/// and the foot, with blank rows between them. The warning is wrapped at 40
/// columns and held to that width, with a column of room on either side, in
/// a frame with rounded corners, centred.
pub open spec fn about_page(page: AnyWidget, version: Seq<char>) -> bool {
    let parts = children_of(child_of(page));
    let warning = child_of(child_of(parts[5]));
    &&& is_framed(page, borders_plain_spec(), corners_plus())
    &&& is_column(child_of(page), 15)
    &&& is_text(parts[0], ""@)
    &&& is_text(parts[1], ""@)
    &&& is_centred_text(parts[2], "Philipp Bauer"@)
    &&& is_centred_text(parts[3], "Made in Germany in 2025"@)
    &&& is_text(parts[4], ""@)
    &&& is_centred(parts[5])
    &&& is_framed(child_of(parts[5]), borders_plain_spec(), corners_round_spec())
    &&& is_padded(warning, 0, 1, 1, 0)
    &&& is_sized(child_of(warning), Some(40u16), None)
    &&& is_wrapped_text(child_of(child_of(warning)), warning_text(), 40)
    &&& is_text(parts[6], ""@)
    &&& is_centred_text(parts[7], "The first version, from 2014, was written"@)
    &&& is_centred_text(parts[8], "in c, v2.0.0 onwards is written in Rust."@)
    &&& is_text(parts[9], ""@)
    &&& is_text(parts[10], ""@)
    &&& thanks_part(parts[11])
    &&& is_text(parts[12], ""@)
    &&& is_text(parts[13], ""@)
    &&& footer_part(parts[14], version)
}

impl AboutScreen {
    /// Builds the label that shows `version`.
    pub fn version_text(version: &str) -> (label: String)
        ensures
            label@ == version_label(version@),
    {
        let mut label = String::from_str(" v");
        label.append(version);
        label.append(" ");
        label
    }

    /// Builds what the page shows. Where the version has at most
    /// `MAX_VERSION` characters the page is well formed.
    pub fn view(&self, version: &str) -> (widget: AnyWidget)
        ensures
            about_page(widget, version@),
            version@.len() <= MAX_VERSION ==> widget.well_formed(),
    {
        proof {
            reveal_strlit("");
            reveal_strlit(" v");
            reveal_strlit(" ");
            reveal_strlit("Philipp Bauer");
            reveal_strlit("Made in Germany in 2025");
            reveal_strlit(
                "This application is provided without any warranty. Make sure you have backups of your save files before using it!",
            );
            reveal_strlit("The first version, from 2014, was written");
            reveal_strlit("in c, v2.0.0 onwards is written in Rust.");
            reveal_strlit("Special thanks to:");
            reveal_strlit("- pkmn-savedata by Zayaldrie");
            reveal_strlit("- ndless-rs by Ben Schattinger (lights0123)");
            reveal_strlit("- Ndless by the Ndless team");
            reveal_strlit(" < esc ");
            reveal_strlit("github.com/ciriousjoker/nTradeAdvance");
            reveal_strlit("CC BY-NC-SA 4.0");
        }
        let mut heading = no_children();
        add_child(&mut heading, text("Special thanks to:"));
        let ghost h0 = heading@[0];
        add_child(&mut heading, divider('-'));
        assert(heading@[0] == h0);

        let mut thanks = no_children();
        add_child(
            &mut thanks,
            align(Column::from_children(heading)).horizontal(AlignHorizontal::Start),
        );
        let ghost t0 = thanks@[0];
        add_child(&mut thanks, text("- pkmn-savedata by Zayaldrie"));
        let ghost t1 = thanks@[1];
        add_child(&mut thanks, text("- ndless-rs by Ben Schattinger (lights0123)"));
        let ghost t2 = thanks@[2];
        add_child(&mut thanks, text("- Ndless by the Ndless team"));
        assert(thanks@[0] == t0 && thanks@[1] == t1 && thanks@[2] == t2);

        let mut home = no_children();
        add_child(&mut home, align(text("github.com/ciriousjoker/nTradeAdvance")));
        let ghost g0 = home@[0];
        add_child(&mut home, align(text("CC BY-NC-SA 4.0")));
        assert(home@[0] == g0);

        let label = Self::version_text(version);
        let mut footer = no_children();
        add_child(
            &mut footer,
            align(border(text(" < esc ")).borders(way_back_sides()).corners(corners_none()))
                .horizontal(AlignHorizontal::Start).vertical(AlignVertical::End),
        );
        let ghost f0 = footer@[0];
        add_child(&mut footer, align(Column::from_children(home)));
        let ghost f1 = footer@[1];
        add_child(
            &mut footer,
            align(border(text(label.as_str())).borders(version_sides()).corners(corners_none()))
                .horizontal(AlignHorizontal::End).vertical(AlignVertical::End),
        );
        assert(footer@[0] == f0 && footer@[1] == f1);

        let mut parts = no_children();
        add_child(&mut parts, text(""));
        let ghost part0 = parts@[0];
        add_child(&mut parts, text(""));
        let ghost part1 = parts@[1];
        add_child(&mut parts, align(text("Philipp Bauer")));
        let ghost part2 = parts@[2];
        add_child(&mut parts, align(text("Made in Germany in 2025")));
        let ghost part3 = parts@[3];
        add_child(&mut parts, text(""));
        let ghost part4 = parts@[4];
        add_child(
            &mut parts,
            align(
                border(
                    padding(
                        sizedbox(
                            text(
                                "This application is provided without any warranty. Make sure you have backups of your save files before using it!",
                            ).max_width(40),
                        ).width(40),
                    ).horizontal(1),
                ).corners(corners_round()),
            ),
        );
        let ghost part5 = parts@[5];
        add_child(&mut parts, text(""));
        let ghost part6 = parts@[6];
        add_child(&mut parts, align(text("The first version, from 2014, was written")));
        let ghost part7 = parts@[7];
        add_child(&mut parts, align(text("in c, v2.0.0 onwards is written in Rust.")));
        let ghost part8 = parts@[8];
        add_child(&mut parts, text(""));
        let ghost part9 = parts@[9];
        add_child(&mut parts, text(""));
        let ghost part10 = parts@[10];
        add_child(&mut parts, padding(Column::from_children(thanks)).left(3));
        let ghost part11 = parts@[11];
        add_child(&mut parts, text(""));
        let ghost part12 = parts@[12];
        add_child(&mut parts, text(""));
        let ghost part13 = parts@[13];
        add_child(
            &mut parts,
            flexible(1, padding(Stack::from_children(footer)).horizontal(0).bottom(0)),
        );
        assert(parts@[0] == part0 && parts@[1] == part1 && parts@[2] == part2 && parts@[3] == part3
            && parts@[4] == part4 && parts@[5] == part5 && parts@[6] == part6);
        assert(parts@[7] == part7 && parts@[8] == part8 && parts@[9] == part9 && parts@[10]
            == part10 && parts@[11] == part11 && parts@[12] == part12 && parts@[13] == part13);
        border(Column::from_children(parts)).into_widget()
    }

    /// Returns what `key` asks for: Escape and Enter leave the page, any
    /// other key does nothing.
    pub fn on_key<S>(&self, key: InputKey) -> (action: NavAction<S>)
        ensures
            key is Escape || key is Enter ==> action is Pop,
            !(key is Escape || key is Enter) ==> action is Stay,
    {
        match key {
            InputKey::Escape | InputKey::Enter => NavAction::Pop,
            _ => NavAction::Stay,
        }
    }
}

} // verus!
