//! The page on which two party members are chosen and traded.

use crate::platform::input::InputKey;
use crate::ui::layout::{sum_of, total_weight};
use crate::ui::lines::{chars_of, string_from_chars};
use crate::ui::rendering::{fits_display, IntoWidget, Widget, NIO_MAX_COLS, NIO_MAX_ROWS};
use crate::ui::screens::error_screen::MAX_MESSAGE;
use crate::ui::shape::{
    child_of, children_of, corners_plus, is_button, is_centred, is_column, is_divider, is_flexible,
    is_framed, is_padded, is_progress_bar, is_row, is_sized, is_text,
};
use crate::ui::theme::{borders_plain, borders_plain_spec, corners_round, corners_round_spec};
use crate::ui::tree::{
    add_child, all_well_formed, flex_weights, min_heights, no_children, weights_ok, AnyWidget,
};
use crate::ui::widgets::align::{align, AlignHorizontal, AlignVertical};
use crate::ui::widgets::border::{border, Corners};
use crate::ui::widgets::button::button;
use crate::ui::widgets::column::Column;
use crate::ui::widgets::divider::divider;
use crate::ui::widgets::flexible::flexible;
use crate::ui::widgets::padding::padding;
use crate::ui::widgets::progress_bar::progress_bar;
use crate::ui::widgets::row::Row;
use crate::ui::widgets::sizedbox::sizedbox;
use crate::ui::widgets::text::text;
use vstd::prelude::*;
use vstd::string::*;

verus! {

/// One of the two trainers.
#[derive(Clone, Copy, Debug, PartialEq, Eq, Structural)]
pub enum Trainer {
    Trainer1,
    Trainer2,
}

/// One of the two buttons beneath the parties.
#[derive(Clone, Copy, Debug, PartialEq, Eq, Structural)]
pub enum Action {
    Back,
    Trade,
}

/// The state of the trade page: the two parties, the member chosen of each,
/// and where the cursor stands. The cursor is on a member of the current
/// trainer's party, or, while `selected_action` is set, on a button.
pub struct TradeScreen {
    pub saves: Option<(String, String)>,
    pub selected_pokemon_trainer1: Option<usize>,
    pub selected_pokemon_trainer2: Option<usize>,
    pub pokemon_list_trainer1: Vec<String>,
    pub pokemon_list_trainer2: Vec<String>,
    pub current_trainer: Trainer,
    pub trainer_name1: String,
    pub trainer_name2: String,
    pub cursor_position: usize,
    pub selected_action: Option<Action>,
    pub message: String,
}

/// What the trade page asks for after a key.
#[derive(Clone, Copy, Debug, PartialEq, Eq, Structural)]
pub enum TradeStep {
    /// Stay on the page.
    Stay,
    /// Leave the page.
    Leave,
    /// Trade the member at the first place of the first party for the member
    /// at the second place of the second party.
    Trade(usize, usize),
}

/// The cursor and the choices of the trade page: what a key changes.
pub struct Cursor {
    pub trainer: Trainer,
    pub position: usize,
    pub action: Option<Action>,
    pub chosen1: Option<usize>,
    pub chosen2: Option<usize>,
}

/// The most characters of a name for which the page is sure to be well
/// formed.
pub const MAX_NAME: usize = 65529;

/// The most members of a party for which the page is sure to be well formed.
pub const MAX_PARTY: usize = 65517;

/// The width to which the name of a member is filled up with spaces.
pub const NAME_WIDTH: usize = 10;

/// `name`, filled up with spaces at its end to `NAME_WIDTH` characters; a
/// longer name stays as it is.
pub open spec fn padded(name: Seq<char>) -> Seq<char> {
    if name.len() < NAME_WIDTH {
        name + Seq::new((NAME_WIDTH - name.len()) as nat, |i: int| ' ')
    } else {
        name
    }
}

/// What stands before the name of a member: a bracket where the cursor is on
/// it, an arrow where it is chosen.
pub open spec fn label_open(highlighted: bool, selected: bool) -> Seq<char> {
    if selected && highlighted {
        seq![' ', '[', '>']
    } else if selected {
        seq![' ', ' ', '>']
    } else if highlighted {
        seq![' ', '[', ' ']
    } else {
        seq![' ', ' ', ' ']
    }
}

/// What stands behind the name of a member.
pub open spec fn label_close(highlighted: bool, selected: bool) -> Seq<char> {
    if selected && highlighted {
        seq!['<', ']', ' ']
    } else if selected {
        seq!['<', ' ', ' ']
    } else if highlighted {
        seq![' ', ']', ' ']
    } else {
        seq![' ', ' ', ' ']
    }
}

/// The row of one member: its padded name between the marks.
pub open spec fn label_of(name: Seq<char>, highlighted: bool, selected: bool) -> Seq<char> {
    label_open(highlighted, selected) + padded(name) + label_close(highlighted, selected)
}

/// Builds the row of one member.
pub fn member_label(name: &str, highlighted: bool, selected: bool) -> (label: String)
    ensures
        label@ == label_of(name@, highlighted, selected),
{
    let chars = chars_of(name);
    let mut row: Vec<char> = Vec::new();
    row.push(' ');
    row.push(if highlighted {
        '['
    } else {
        ' '
    });
    row.push(if selected {
        '>'
    } else {
        ' '
    });
    if selected && !highlighted {
        row.set(1, ' ');
    }
    assert(row@ =~= label_open(highlighted, selected));
    let mut i: usize = 0;
    while i < chars.len()
        invariant
            i <= chars@.len(),
            row@ == label_open(highlighted, selected) + chars@.take(i as int),
        decreases chars@.len() - i,
    {
        row.push(chars[i]);
        i = i + 1;
        assert(row@ =~= label_open(highlighted, selected) + chars@.take(i as int));
    }
    assert(chars@.take(chars@.len() as int) =~= chars@);
    let mut filled: usize = chars.len();
    while filled < NAME_WIDTH
        invariant
            chars@.len() <= filled,
            chars@.len() < NAME_WIDTH ==> filled <= NAME_WIDTH,
            chars@.len() >= NAME_WIDTH ==> filled == chars@.len(),
            row@ == label_open(highlighted, selected) + chars@ + Seq::new(
                (filled - chars@.len()) as nat,
                |i: int| ' ',
            ),
        decreases NAME_WIDTH - filled,
    {
        row.push(' ');
        filled = filled + 1;
        assert(row@ =~= label_open(highlighted, selected) + chars@ + Seq::new(
            (filled - chars@.len()) as nat,
            |i: int| ' ',
        ));
    }
    assert(chars@ + Seq::new((filled - chars@.len()) as nat, |i: int| ' ') =~= padded(chars@));
    assert(row@ =~= label_open(highlighted, selected) + padded(chars@));
    let ghost before = row@;
    row.push(if selected {
        '<'
    } else {
        ' '
    });
    row.push(if highlighted {
        ']'
    } else {
        ' '
    });
    row.push(' ');
    if selected && !highlighted {
        let last = row.len() - 2;
        row.set(last, ' ');
    }
    assert(row@ =~= before + label_close(highlighted, selected));
    string_from_chars(&row)
}

/// Every one of `names` has at most `MAX_NAME` characters.
pub open spec fn names_fit(names: Seq<String>) -> bool {
    forall|i: int| 0 <= i < names.len() ==> (#[trigger] names[i])@.len() <= MAX_NAME
}

/// Tells whether the names are few and short enough to be shown.
pub fn names_can_fit(names: &Vec<String>) -> (ok: bool)
    ensures
        ok == (names@.len() <= MAX_PARTY && names_fit(names@)),
{
    if names.len() > MAX_PARTY {
        return false;
    }
    let mut i: usize = 0;
    while i < names.len()
        invariant
            i <= names@.len(),
            forall|k: int| 0 <= k < i ==> (#[trigger] names@[k])@.len() <= MAX_NAME,
        decreases names@.len() - i,
    {
        if names[i].as_str().unicode_len() > MAX_NAME {
            return false;
        }
        i = i + 1;
    }
    true
}

/// The lesser of two places.
pub open spec fn lesser(a: usize, b: usize) -> usize {
    if a < b {
        a
    } else {
        b
    }
}

/// `chosen` once the member at `position` was picked: chosen, or no longer
/// chosen where it was.
pub open spec fn toggled(chosen: Option<usize>, position: usize) -> Option<usize> {
    if chosen == Some(position) {
        None
    } else {
        Some(position)
    }
}

/// The cursor and the choices after `key`, in parties of `len1` and `len2`
/// members.
///
/// Up leaves the buttons, or moves one member up. Down moves one member
/// down, and from the last member to the Back button. Left goes from Trade
/// to Back, and else to the first party; Right goes from Back to Trade, and
/// else to the second party; the cursor then stays within the party. Enter
/// on a member picks it. Nothing else moves the cursor.
pub open spec fn cursor_after(c: Cursor, key: InputKey, len1: usize, len2: usize) -> Cursor {
    let len = match c.trainer {
        Trainer::Trainer1 => len1,
        Trainer::Trainer2 => len2,
    };
    match key {
        InputKey::Up => if c.action is Some {
            Cursor { action: None, ..c }
        } else if c.position > 0 {
            Cursor { position: (c.position - 1) as usize, ..c }
        } else {
            c
        },
        InputKey::Down => if c.action is None && c.position == len - 1 {
            Cursor { action: Some(Action::Back), ..c }
        } else if c.position < len - 1 {
            Cursor { position: (c.position + 1) as usize, ..c }
        } else {
            c
        },
        InputKey::Left => if c.action == Some(Action::Trade) {
            Cursor { action: Some(Action::Back), ..c }
        } else {
            Cursor {
                trainer: Trainer::Trainer1,
                position: lesser(c.position, (len1 - 1) as usize),
                action: None,
                ..c
            }
        },
        InputKey::Right => if c.action == Some(Action::Back) {
            Cursor { action: Some(Action::Trade), ..c }
        } else {
            Cursor {
                trainer: Trainer::Trainer2,
                position: lesser(c.position, (len2 - 1) as usize),
                action: None,
                ..c
            }
        },
        InputKey::Enter => if c.action is Some {
            c
        } else {
            match c.trainer {
                Trainer::Trainer1 => Cursor { chosen1: toggled(c.chosen1, c.position), ..c },
                Trainer::Trainer2 => Cursor { chosen2: toggled(c.chosen2, c.position), ..c },
            }
        },
        InputKey::Escape => c,
    }
}

/// What the page asks for after `key`: Escape, and Enter on Back, leave the
/// page; Enter on Trade trades the two chosen members, if one of each party
/// is chosen.
pub open spec fn step_after(c: Cursor, key: InputKey) -> TradeStep {
    match key {
        InputKey::Escape => TradeStep::Leave,
        InputKey::Enter => match c.action {
            Some(Action::Back) => TradeStep::Leave,
            Some(Action::Trade) => match (c.chosen1, c.chosen2) {
                (Some(first), Some(second)) => TradeStep::Trade(first, second),
                _ => TradeStep::Stay,
            },
            None => TradeStep::Stay,
        },
        _ => TradeStep::Stay,
    }
}

/// Whether `key` asks for a trade while a member is still to be chosen.
pub open spec fn asks_for_choice(c: Cursor, key: InputKey) -> bool {
    key is Enter && c.action == Some(Action::Trade) && (c.chosen1 is None || c.chosen2 is None)
}

/// The words shown when a trade is asked for before both members are chosen.
pub open spec fn choice_wanted_text() -> Seq<char> {
    "Please select a pokemon from each trainer."@
}

impl TradeScreen {
    /// Each party has a member.
    pub open spec fn well_formed(&self) -> bool {
        self.pokemon_list_trainer1@.len() > 0 && self.pokemon_list_trainer2@.len() > 0
    }

    /// The cursor and the choices.
    pub open spec fn cursor(&self) -> Cursor {
        Cursor {
            trainer: self.current_trainer,
            position: self.cursor_position,
            action: self.selected_action,
            chosen1: self.selected_pokemon_trainer1,
            chosen2: self.selected_pokemon_trainer2,
        }
    }

    /// What the page holds is few and short enough for the page to be sure
    /// to be well formed.
    pub open spec fn drawable(&self) -> bool {
        &&& self.pokemon_list_trainer1@.len() <= MAX_PARTY
        &&& self.pokemon_list_trainer2@.len() <= MAX_PARTY
        &&& names_fit(self.pokemon_list_trainer1@)
        &&& names_fit(self.pokemon_list_trainer2@)
        &&& self.trainer_name1@.len() <= MAX_NAME
        &&& self.trainer_name2@.len() <= MAX_NAME
        &&& self.message@.len() <= MAX_MESSAGE
    }

    /// Tells whether what the page holds can be shown.
    pub fn can_draw(&self) -> (ok: bool)
        ensures
            ok == self.drawable(),
    {
        names_can_fit(&self.pokemon_list_trainer1) && names_can_fit(&self.pokemon_list_trainer2)
            && self.trainer_name1.as_str().unicode_len() <= MAX_NAME
            && self.trainer_name2.as_str().unicode_len() <= MAX_NAME
            && self.message.as_str().unicode_len() <= MAX_MESSAGE
    }

    /// Whether the cursor is on member `index` of the party of `trainer`.
    pub open spec fn is_highlighted(&self, trainer: Trainer, index: usize) -> bool {
        self.current_trainer == trainer && self.cursor_position == index && self.selected_action
            is None
    }

    /// Whether member `index` of the party of `trainer` is chosen.
    pub open spec fn is_chosen(&self, trainer: Trainer, index: usize) -> bool {
        match trainer {
            Trainer::Trainer1 => self.selected_pokemon_trainer1 == Some(index),
            Trainer::Trainer2 => self.selected_pokemon_trainer2 == Some(index),
        }
    }

    /// The names of the party of `trainer`.
    pub open spec fn party_of(&self, trainer: Trainer) -> Seq<String> {
        match trainer {
            Trainer::Trainer1 => self.pokemon_list_trainer1@,
            Trainer::Trainer2 => self.pokemon_list_trainer2@,
        }
    }

    /// The rows that the page needs: 16 and the members of the longer party,
    /// and two more while progress is shown.
    pub open spec fn rows_needed(&self, with_progress: bool) -> int {
        let members = if self.pokemon_list_trainer1@.len() < self.pokemon_list_trainer2@.len() {
            self.pokemon_list_trainer2@.len()
        } else {
            self.pokemon_list_trainer1@.len()
        };
        members + 16 + if with_progress {
            2int
        } else {
            0int
        }
    }

    /// The name of `trainer`.
    pub open spec fn name_of(&self, trainer: Trainer) -> Seq<char> {
        match trainer {
            Trainer::Trainer1 => self.trainer_name1@,
            Trainer::Trainer2 => self.trainer_name2@,
        }
    }

    /// `part` shows the party of `trainer`: 16 columns wide, a column of the
    /// name of the trainer, centred, a line, and a column with the row of
    /// each member in the order of the party.
    pub open spec fn party_part(&self, part: AnyWidget, trainer: Trainer) -> bool {
        let rows = children_of(child_of(part));
        let members = children_of(rows[2]);
        &&& is_sized(part, Some(16u16), None)
        &&& is_column(child_of(part), 3)
        &&& is_centred(rows[0])
        &&& is_text(child_of(rows[0]), self.name_of(trainer))
        &&& is_divider(rows[1], '-', false)
        &&& is_column(rows[2], self.party_of(trainer).len() as int)
        &&& forall|k: int|
            0 <= k < members.len() ==> is_text(
                #[trigger] members[k],
                label_of(
                    self.party_of(trainer)[k]@,
                    self.is_highlighted(trainer, k as usize),
                    self.is_chosen(trainer, k as usize),
                ),
            )
    }

    /// `page` is what the trade page shows, with the progress of a trade as
    /// `numer / denom` where one is under way: in a plain frame with `+` at
    /// the corners, a column of the title, three rows high; the two parties
    /// side by side with a line between them, in a frame with rounded
    /// corners; a blank row; the buttons Back and Trade, 12 columns wide
    /// each, the one that the cursor is on marked; the message, which takes
    /// the spare rows; and the progress bar in a frame with rounded corners,
    /// or a blank row where no trade is under way, with two columns of room
    /// on either side and a row beneath.
    pub open spec fn trade_page(&self, page: AnyWidget, progress: Option<(u32, u32)>) -> bool {
        let parts = children_of(child_of(page));
        let parties = children_of(child_of(children_of(child_of(parts[1]))[0]));
        let buttons = children_of(child_of(parts[3]));
        let bar = child_of(parts[5]);
        &&& is_framed(page, borders_plain_spec(), corners_plus())
        &&& is_column(child_of(page), 6)
        &&& is_sized(parts[0], None, Some(3u16))
        &&& is_centred(child_of(parts[0]))
        &&& is_text(child_of(child_of(parts[0])), "Trading"@)
        &&& is_centred(parts[1])
        &&& is_row(child_of(parts[1]), 1)
        &&& is_framed(
            children_of(child_of(parts[1]))[0],
            borders_plain_spec(),
            corners_round_spec(),
        )
        &&& is_row(child_of(children_of(child_of(parts[1]))[0]), 3)
        &&& self.party_part(parties[0], Trainer::Trainer1)
        &&& is_divider(parties[1], '|', true)
        &&& self.party_part(parties[2], Trainer::Trainer2)
        &&& is_text(parts[2], ""@)
        &&& is_centred(parts[3])
        &&& is_row(child_of(parts[3]), 3)
        &&& is_sized(buttons[0], Some(12u16), None)
        &&& is_button(child_of(buttons[0]), "Back"@, self.selected_action == Some(Action::Back))
        &&& is_text(buttons[1], "   "@)
        &&& is_sized(buttons[2], Some(12u16), None)
        &&& is_button(child_of(buttons[2]), "Trade"@, self.selected_action == Some(Action::Trade))
        &&& is_flexible(parts[4], 1)
        &&& is_centred(child_of(parts[4]))
        &&& is_text(child_of(child_of(parts[4])), self.message@)
        &&& is_padded(parts[5], 0, 2, 2, 1)
        &&& match progress {
            Some((numer, denom)) => is_framed(bar, borders_plain_spec(), corners_round_spec())
                && is_progress_bar(child_of(bar), numer, denom, '/', '|', ' '),
            None => is_text(bar, ""@),
        }
    }

    /// Builds the column of one party. Where what the page holds is
    /// drawable, the column is well formed and as high as the party and two
    /// rows more.
    pub fn party_view(&self, trainer: Trainer) -> (widget: AnyWidget)
        ensures
            self.party_part(widget, trainer),
            widget.flex_spec() is None,
            self.drawable() ==> widget.well_formed() && widget.min_size_spec() == (
                16u16,
                (self.party_of(trainer).len() + 2) as u16,
            ),
    {
        let (name, list, chosen) = match trainer {
            Trainer::Trainer1 => (
                &self.trainer_name1,
                &self.pokemon_list_trainer1,
                self.selected_pokemon_trainer1,
            ),
            Trainer::Trainer2 => (
                &self.trainer_name2,
                &self.pokemon_list_trainer2,
                self.selected_pokemon_trainer2,
            ),
        };
        let mut members = no_children();
        let mut i: usize = 0;
        while i < list.len()
            invariant
                i <= list@.len(),
                members@.len() == i,
                list@ == self.party_of(trainer),
                chosen == match trainer {
                    Trainer::Trainer1 => self.selected_pokemon_trainer1,
                    Trainer::Trainer2 => self.selected_pokemon_trainer2,
                },
                weights_ok(members@),
                total_weight(flex_weights(members@)) == 0,
                self.drawable() ==> all_well_formed(members@) && sum_of(min_heights(members@))
                    == i,
                forall|k: int|
                    0 <= k < i ==> is_text(
                        #[trigger] members@[k],
                        label_of(
                            list@[k]@,
                            self.is_highlighted(trainer, k as usize),
                            self.is_chosen(trainer, k as usize),
                        ),
                    ),
            decreases list@.len() - i,
        {
            let highlighted = self.current_trainer == trainer && self.cursor_position == i
                && self.selected_action.is_none();
            let selected = chosen == Some(i);
            let label = member_label(list[i].as_str(), highlighted, selected);
            let ghost before = members@;
            proof {
                if self.drawable() {
                    assert(list@[i as int]@.len() <= MAX_NAME);
                }
            }
            add_child(&mut members, text(label.as_str()));
            proof {
                assert forall|k: int| 0 <= k < i + 1 implies is_text(
                    #[trigger] members@[k],
                    label_of(
                        list@[k]@,
                        self.is_highlighted(trainer, k as usize),
                        self.is_chosen(trainer, k as usize),
                    ),
                ) by {
                    if k < i {
                        assert(members@[k] == before[k]);
                    }
                }
            }
            i = i + 1;
        }
        let mut parts = no_children();
        add_child(&mut parts, align(text(name.as_str())).horizontal(AlignHorizontal::Center));
        let ghost r0 = parts@[0];
        add_child(&mut parts, divider('-'));
        let ghost r1 = parts@[1];
        add_child(&mut parts, Column::from_children(members));
        assert(parts@[0] == r0 && parts@[1] == r1);
        sizedbox(Column::from_children(parts)).width(16).into_widget()
    }

    /// Builds what the page shows. Where what the page holds is drawable, the
    /// page is well formed, and it is shown whole on the display exactly
    /// where the message is no wider than the inside of the frame and the
    /// rows that the page needs are there.
    pub fn view(&self, progress: Option<(u32, u32)>) -> (widget: AnyWidget)
        ensures
            self.trade_page(widget, progress),
            self.drawable() ==> widget.well_formed() && (fits_display(widget.min_size_spec())
                <==> self.message@.len() <= NIO_MAX_COLS - 2 && self.rows_needed(progress is Some)
                <= NIO_MAX_ROWS),
    {
        proof {
            reveal_strlit("Trading");
            reveal_strlit("");
            reveal_strlit("   ");
            reveal_strlit("Back");
            reveal_strlit("Trade");
        }
        let mut parties = no_children();
        add_child(&mut parties, self.party_view(Trainer::Trainer1));
        let ghost y0 = parties@[0];
        add_child(&mut parties, divider('|').vertical());
        let ghost y1 = parties@[1];
        add_child(&mut parties, self.party_view(Trainer::Trainer2));
        assert(parties@[0] == y0 && parties@[1] == y1);

        let mut framed = no_children();
        add_child(&mut framed, border(Row::from_children(parties)).corners(corners_round()));

        let mut buttons = no_children();
        add_child(
            &mut buttons,
            sizedbox(button("Back").selected(self.selected_action == Some(Action::Back))).width(
                12,
            ),
        );
        let ghost b0 = buttons@[0];
        add_child(&mut buttons, text("   "));
        let ghost b1 = buttons@[1];
        add_child(
            &mut buttons,
            sizedbox(button("Trade").selected(self.selected_action == Some(Action::Trade))).width(
                12,
            ),
        );
        assert(buttons@[0] == b0 && buttons@[1] == b1);

        let bar = match progress {
            Some((numer, denom)) => border(progress_bar(numer, denom, '/', '|', ' ')).corners(
                corners_round(),
            ).into_widget(),
            None => text("").into_widget(),
        };

        let mut parts = no_children();
        add_child(
            &mut parts,
            sizedbox(
                align(text("Trading")).horizontal(AlignHorizontal::Center).vertical(
                    AlignVertical::Center,
                ),
            ).height(3),
        );
        let ghost part0 = parts@[0];
        add_child(
            &mut parts,
            align(Row::from_children(framed)).horizontal(AlignHorizontal::Center),
        );
        let ghost part1 = parts@[1];
        add_child(&mut parts, text(""));
        let ghost part2 = parts@[2];
        add_child(&mut parts, align(Row::from_children(buttons)));
        let ghost part3 = parts@[3];
        add_child(&mut parts, flexible(1, align(text(self.message.as_str()))));
        let ghost part4 = parts@[4];
        add_child(&mut parts, padding(bar).horizontal(2).bottom(1));
        assert(parts@[0] == part0 && parts@[1] == part1 && parts@[2] == part2 && parts@[3] == part3
            && parts@[4] == part4);
        border(Column::from_children(parts)).borders(borders_plain()).corners(
            Corners {
                top_left: Some('+'),
                top_right: Some('+'),
                bottom_left: Some('+'),
                bottom_right: Some('+'),
            },
        ).into_widget()
    }

    /// Returns what the page asks for once a trade is done and a key is
    /// pressed: Escape leaves the page, any other key begins anew.
    pub fn after_trade(key: InputKey) -> (leave: bool)
        ensures
            leave == (key is Escape),
    {
        match key {
            InputKey::Escape => true,
            _ => false,
        }
    }

    /// The page before any save file is read: two parties of four, nothing
    /// chosen, the cursor on the first member of the first party.
    pub fn new() -> (screen: Self)
        ensures
            screen.well_formed(),
            screen.saves is None,
            screen.pokemon_list_trainer1@.len() == 4,
            screen.pokemon_list_trainer1@[0]@ == "Bulbasaur"@,
            screen.pokemon_list_trainer1@[1]@ == "Charmander"@,
            screen.pokemon_list_trainer1@[2]@ == "Squirtle"@,
            screen.pokemon_list_trainer1@[3]@ == "Pikachu"@,
            screen.pokemon_list_trainer2@.len() == 4,
            screen.pokemon_list_trainer2@[0]@ == "Eevee"@,
            screen.pokemon_list_trainer2@[1]@ == "Vaporeon"@,
            screen.pokemon_list_trainer2@[2]@ == "Jolteon"@,
            screen.pokemon_list_trainer2@[3]@ == "Flareon"@,
            screen.cursor() == (Cursor {
                trainer: Trainer::Trainer1,
                position: 0,
                action: None,
                chosen1: None,
                chosen2: None,
            }),
            screen.message@.len() == 0,
            screen.trainer_name1@.len() == 0,
            screen.trainer_name2@.len() == 0,
    {
        let mut first: Vec<String> = Vec::new();
        first.push(String::from_str("Bulbasaur"));
        first.push(String::from_str("Charmander"));
        first.push(String::from_str("Squirtle"));
        first.push(String::from_str("Pikachu"));
        let mut second: Vec<String> = Vec::new();
        second.push(String::from_str("Eevee"));
        second.push(String::from_str("Vaporeon"));
        second.push(String::from_str("Jolteon"));
        second.push(String::from_str("Flareon"));
        TradeScreen {
            saves: None,
            selected_pokemon_trainer1: None,
            selected_pokemon_trainer2: None,
            pokemon_list_trainer1: first,
            pokemon_list_trainer2: second,
            current_trainer: Trainer::Trainer1,
            trainer_name1: String::new(),
            trainer_name2: String::new(),
            cursor_position: 0,
            selected_action: None,
            message: String::new(),
        }
    }

    /// `key` can be taken in. A key that moves the cursor within or into a
    /// party needs that party to have a member: Down the party of the current
    /// trainer, Left the first party unless the cursor is on Trade, Right the
    /// second party unless the cursor is on Back. Every other key can always
    /// be taken in.
    pub open spec fn accepts(&self, key: InputKey) -> bool {
        match key {
            InputKey::Down => self.party_of(self.current_trainer).len() > 0,
            InputKey::Left => self.selected_action == Some(Action::Trade)
                || self.pokemon_list_trainer1@.len() > 0,
            InputKey::Right => self.selected_action == Some(Action::Back)
                || self.pokemon_list_trainer2@.len() > 0,
            _ => true,
        }
    }

    /// Tells whether `key` can be taken in.
    pub fn can_take(&self, key: InputKey) -> (ok: bool)
        ensures
            ok == self.accepts(key),
    {
        match key {
            InputKey::Down => match self.current_trainer {
                Trainer::Trainer1 => self.pokemon_list_trainer1.len() > 0,
                Trainer::Trainer2 => self.pokemon_list_trainer2.len() > 0,
            },
            InputKey::Left => self.selected_action == Some(Action::Trade)
                || self.pokemon_list_trainer1.len() > 0,
            InputKey::Right => self.selected_action == Some(Action::Back)
                || self.pokemon_list_trainer2.len() > 0,
            _ => true,
        }
    }

    /// Takes in `key`: clears the message, moves the cursor or picks a member,
    /// and returns what the page asks for. Where a trade is asked for before
    /// both members are chosen, the message says so.
    pub fn on_key(&mut self, key: InputKey) -> (step: TradeStep)
        requires
            old(self).accepts(key),
        ensures
            final(self).cursor() == cursor_after(
                old(self).cursor(),
                key,
                old(self).pokemon_list_trainer1@.len() as usize,
                old(self).pokemon_list_trainer2@.len() as usize,
            ),
            step == step_after(old(self).cursor(), key),
            final(self).message@ == if asks_for_choice(old(self).cursor(), key) {
                choice_wanted_text()
            } else {
                Seq::<char>::empty()
            },
            final(self).saves == old(self).saves,
            final(self).pokemon_list_trainer1 == old(self).pokemon_list_trainer1,
            final(self).pokemon_list_trainer2 == old(self).pokemon_list_trainer2,
            final(self).trainer_name1 == old(self).trainer_name1,
            final(self).trainer_name2 == old(self).trainer_name2,
    {
        self.message = String::new();
        let len1 = self.pokemon_list_trainer1.len();
        let len2 = self.pokemon_list_trainer2.len();
        let len = match self.current_trainer {
            Trainer::Trainer1 => len1,
            Trainer::Trainer2 => len2,
        };
        match key {
            InputKey::Up => {
                if self.selected_action.is_some() {
                    self.selected_action = None;
                } else if self.cursor_position > 0 {
                    self.cursor_position = self.cursor_position - 1;
                }
                TradeStep::Stay
            },
            InputKey::Down => {
                if self.selected_action.is_none() && self.cursor_position == len - 1 {
                    self.selected_action = Some(Action::Back);
                } else if self.cursor_position < len - 1 {
                    self.cursor_position = self.cursor_position + 1;
                }
                TradeStep::Stay
            },
            InputKey::Left => {
                if self.selected_action == Some(Action::Trade) {
                    self.selected_action = Some(Action::Back);
                } else {
                    self.current_trainer = Trainer::Trainer1;
                    if self.cursor_position > len1 - 1 {
                        self.cursor_position = len1 - 1;
                    }
                    self.selected_action = None;
                }
                TradeStep::Stay
            },
            InputKey::Right => {
                if self.selected_action == Some(Action::Back) {
                    self.selected_action = Some(Action::Trade);
                } else {
                    self.current_trainer = Trainer::Trainer2;
                    if self.cursor_position > len2 - 1 {
                        self.cursor_position = len2 - 1;
                    }
                    self.selected_action = None;
                }
                TradeStep::Stay
            },
            InputKey::Enter => {
                match self.selected_action {
                    Some(Action::Back) => TradeStep::Leave,
                    Some(Action::Trade) => {
                        match (self.selected_pokemon_trainer1, self.selected_pokemon_trainer2) {
                            (Some(first), Some(second)) => TradeStep::Trade(first, second),
                            _ => {
                                self.message = String::from_str(
                                    "Please select a pokemon from each trainer.",
                                );
                                TradeStep::Stay
                            },
                        }
                    },
                    None => {
                        match self.current_trainer {
                            Trainer::Trainer1 => {
                                if self.selected_pokemon_trainer1 == Some(self.cursor_position) {
                                    self.selected_pokemon_trainer1 = None;
                                } else {
                                    self.selected_pokemon_trainer1 = Some(self.cursor_position);
                                }
                            },
                            Trainer::Trainer2 => {
                                if self.selected_pokemon_trainer2 == Some(self.cursor_position) {
                                    self.selected_pokemon_trainer2 = None;
                                } else {
                                    self.selected_pokemon_trainer2 = Some(self.cursor_position);
                                }
                            },
                        }
                        TradeStep::Stay
                    },
                }
            },
            InputKey::Escape => TradeStep::Leave,
        }
    }
}

} // verus!
