//! The main menu.

use crate::platform::input::InputKey;
use crate::ui::lines::longest;
use crate::ui::rendering::{fits_display, IntoWidget, Widget};
use crate::ui::shape::{
    child_of, children_of, corners_plus, is_button, is_centred, is_column, is_framed, is_image,
    is_padded, is_sized, is_text,
};
use crate::ui::theme::borders_plain_spec;
use crate::ui::tree::{add_child, no_children, AnyWidget};
use crate::ui::widgets::align::align;
use crate::ui::widgets::border::border;
use crate::ui::widgets::button::button;
use crate::ui::widgets::column::Column;
use crate::ui::widgets::image::{image, split_lines};
use crate::ui::widgets::padding::padding;
use crate::ui::widgets::sizedbox::sizedbox;
use crate::ui::widgets::text::text;
use vstd::prelude::*;

verus! {

/// The number of entries of the menu.
pub const MENU_ENTRIES: usize = 3;

/// The most characters of a logo for which the menu is sure to be well
/// formed.
pub const MAX_PICTURE: usize = 65514;

/// The main menu: three entries, one of them selected.
pub struct MenuScreen {
    pub selected: usize,
}

/// What the menu asks for after a key.
#[derive(Clone, Copy, Debug, PartialEq, Eq, Structural)]
pub enum MenuChoice {
    /// Stay on the menu.
    Stay,
    /// Open the trade page.
    Trade,
    /// Open the about page.
    About,
    /// Leave every screen.
    Exit,
    /// Leave the menu.
    Back,
}

/// The logo leaves room for the rest of the menu: it has at most 9 rows of
/// at most 51 characters.
pub open spec fn logo_fits(logo: Seq<char>) -> bool {
    split_lines(logo).len() <= 9 && longest(split_lines(logo)) <= 51
}

/// `entry` is entry `index` of the menu: a button labelled `label`, 16
/// columns wide and centred, marked while entry `selected` is that entry.
pub open spec fn menu_entry(entry: AnyWidget, label: Seq<char>, index: usize, selected: usize)
    -> bool {
    &&& is_centred(entry)
    &&& is_sized(child_of(entry), Some(16u16), None)
    &&& is_button(child_of(child_of(entry)), label, selected == index)
}

/// `page` is what the menu shows while entry `selected` is selected: in a
/// plain frame with `+` at the corners, a column of the logo and the word
/// `Advance`, both centred, two blank rows, the entries, and a blank row. The
/// entries are a centred column, with one column of room on its left and two
/// on its right, of two lines on what the program does, two blank rows, and
/// the three buttons Trade, About and Exit with a row of one space between
/// them.
pub open spec fn menu_page(page: AnyWidget, logo: Seq<char>, selected: usize) -> bool {
    let parts = children_of(child_of(page));
    let entries = children_of(child_of(child_of(parts[4])));
    &&& is_framed(page, borders_plain_spec(), corners_plus())
    &&& is_column(child_of(page), 6)
    &&& is_centred(parts[0])
    &&& is_image(child_of(parts[0]), logo)
    &&& is_centred(parts[1])
    &&& is_text(child_of(parts[1]), "Advance"@)
    &&& is_text(parts[2], ""@)
    &&& is_text(parts[3], ""@)
    &&& is_centred(parts[4])
    &&& is_padded(child_of(parts[4]), 0, 1, 2, 0)
    &&& is_column(child_of(child_of(parts[4])), 9)
    &&& is_text(parts[5], ""@)
    &&& is_text(entries[0], "Trade Pokemon between Ruby, Sapphire,"@)
    &&& is_centred(entries[1])
    &&& is_text(child_of(entries[1]), "Emerald, FireRed & LeafGreen!"@)
    &&& is_text(entries[2], ""@)
    &&& is_text(entries[3], ""@)
    &&& menu_entry(entries[4], "Trade"@, 0, selected)
    &&& is_text(entries[5], " "@)
    &&& menu_entry(entries[6], "About"@, 1, selected)
    &&& is_text(entries[7], " "@)
    &&& menu_entry(entries[8], "Exit"@, 2, selected)
}

/// The entry that is selected after `key`, where `selected` was before: Up
/// and Down move by one and stop at the first and the last entry.
pub open spec fn selection_after(selected: usize, key: InputKey) -> usize {
    match key {
        InputKey::Up => if selected > 0 {
            (selected - 1) as usize
        } else {
            selected
        },
        InputKey::Down => if selected < 2 {
            (selected + 1) as usize
        } else {
            selected
        },
        _ => selected,
    }
}

/// What the menu asks for after `key` while entry `selected` is selected:
/// Enter opens the selected entry, Escape leaves the menu.
pub open spec fn choice_after(selected: usize, key: InputKey) -> MenuChoice {
    match key {
        InputKey::Enter => if selected == 0 {
            MenuChoice::Trade
        } else if selected == 1 {
            MenuChoice::About
        } else {
            MenuChoice::Exit
        },
        InputKey::Escape => MenuChoice::Back,
        _ => MenuChoice::Stay,
    }
}

impl MenuScreen {
    /// The selected entry is one of the menu's.
    pub open spec fn well_formed(&self) -> bool {
        self.selected < MENU_ENTRIES
    }

    /// The menu with its first entry selected.
    pub fn new() -> (menu: Self)
        ensures
            menu.selected == 0,
            menu.well_formed(),
    {
        MenuScreen { selected: 0 }
    }

    /// Builds what the menu shows. Where the logo has at most `MAX_PICTURE`
    /// characters the page is well formed, and it is shown whole on the
    /// display exactly where the logo leaves the room for it.
    pub fn view(&self, logo: &str) -> (widget: AnyWidget)
        ensures
            menu_page(widget, logo@, self.selected),
            logo@.len() <= MAX_PICTURE ==> widget.well_formed() && (fits_display(
                widget.min_size_spec(),
            ) <==> logo_fits(logo@)),
    {
        proof {
            reveal_strlit("Advance");
            reveal_strlit("");
            reveal_strlit(" ");
            reveal_strlit("Trade Pokemon between Ruby, Sapphire,");
            reveal_strlit("Emerald, FireRed & LeafGreen!");
            reveal_strlit("Trade");
            reveal_strlit("About");
            reveal_strlit("Exit");
        }
        let mut entries = no_children();
        add_child(&mut entries, text("Trade Pokemon between Ruby, Sapphire,"));
        let ghost e0 = entries@[0];
        add_child(&mut entries, align(text("Emerald, FireRed & LeafGreen!")));
        let ghost e1 = entries@[1];
        add_child(&mut entries, text(""));
        let ghost e2 = entries@[2];
        add_child(&mut entries, text(""));
        let ghost e3 = entries@[3];
        add_child(
            &mut entries,
            align(sizedbox(button("Trade").selected(self.selected == 0)).width(16)),
        );
        let ghost e4 = entries@[4];
        add_child(&mut entries, text(" "));
        let ghost e5 = entries@[5];
        add_child(
            &mut entries,
            align(sizedbox(button("About").selected(self.selected == 1)).width(16)),
        );
        let ghost e6 = entries@[6];
        add_child(&mut entries, text(" "));
        let ghost e7 = entries@[7];
        add_child(
            &mut entries,
            align(sizedbox(button("Exit").selected(self.selected == 2)).width(16)),
        );
        assert(entries@[0] == e0 && entries@[1] == e1 && entries@[2] == e2 && entries@[3] == e3
            && entries@[4] == e4 && entries@[5] == e5 && entries@[6] == e6 && entries@[7] == e7);
        let mut parts = no_children();
        add_child(&mut parts, align(image(logo)));
        let ghost part0 = parts@[0];
        add_child(&mut parts, align(text("Advance")));
        let ghost part1 = parts@[1];
        add_child(&mut parts, text(""));
        let ghost part2 = parts@[2];
        add_child(&mut parts, text(""));
        let ghost part3 = parts@[3];
        add_child(&mut parts, align(padding(Column::from_children(entries)).left(1).right(2)));
        let ghost part4 = parts@[4];
        add_child(&mut parts, text(""));
        assert(parts@[0] == part0 && parts@[1] == part1 && parts@[2] == part2 && parts@[3] == part3
            && parts@[4] == part4);
        border(Column::from_children(parts)).into_widget()
    }

    /// Takes in `key`: moves the selection, and returns what the menu asks
    /// for. Enter needs the selected entry to be one of the menu's.
    pub fn on_key(&mut self, key: InputKey) -> (choice: MenuChoice)
        requires
            key is Enter ==> old(self).well_formed(),
        ensures
            old(self).well_formed() ==> final(self).well_formed(),
            final(self).selected == selection_after(old(self).selected, key),
            choice == choice_after(old(self).selected, key),
    {
        match key {
            InputKey::Up => {
                if self.selected > 0 {
                    self.selected = self.selected - 1;
                }
                MenuChoice::Stay
            },
            InputKey::Down => {
                if self.selected < 2 {
                    self.selected = self.selected + 1;
                }
                MenuChoice::Stay
            },
            InputKey::Enter => {
                if self.selected == 0 {
                    MenuChoice::Trade
                } else if self.selected == 1 {
                    MenuChoice::About
                } else {
                    MenuChoice::Exit
                }
            },
            InputKey::Escape => MenuChoice::Back,
            _ => MenuChoice::Stay,
        }
    }
}

} // verus!
