use ntrade_advance::navigator::NavAction;
use ntrade_advance::platform::input::InputKey;
use ntrade_advance::errors::AppError;
use ntrade_advance::ui::screens::about_screen::AboutScreen;
use ntrade_advance::ui::screens::error_screen::ErrorScreen;
use ntrade_advance::ui::screens::menu_screen::{MenuChoice, MenuScreen};
use ntrade_advance::ui::screens::trade_screen::{Action, TradeScreen, TradeStep, Trainer};

const KEYS: [InputKey; 6] = [
    InputKey::Up,
    InputKey::Down,
    InputKey::Left,
    InputKey::Right,
    InputKey::Enter,
    InputKey::Escape,
];

#[test]
fn error_screen_leaves_on_enter_only() {
    let report = ErrorScreen { error: AppError::PokemonNotFound };
    for key in KEYS {
        let action: NavAction<()> = report.on_key(key);
        if key == InputKey::Enter {
            assert!(matches!(action, NavAction::Pop));
        } else {
            assert!(matches!(action, NavAction::Stay));
        }
    }
}

#[test]
fn about_screen_leaves_on_enter_and_escape() {
    for key in KEYS {
        let action: NavAction<()> = AboutScreen.on_key(key);
        if key == InputKey::Enter || key == InputKey::Escape {
            assert!(matches!(action, NavAction::Pop));
        } else {
            assert!(matches!(action, NavAction::Stay));
        }
    }
}

#[test]
fn menu_moves_between_its_three_entries() {
    let mut menu = MenuScreen::new();
    assert_eq!(menu.selected, 0);
    assert_eq!(menu.on_key(InputKey::Up), MenuChoice::Stay);
    assert_eq!(menu.selected, 0);
    assert_eq!(menu.on_key(InputKey::Down), MenuChoice::Stay);
    assert_eq!(menu.selected, 1);
    menu.on_key(InputKey::Down);
    assert_eq!(menu.selected, 2);
    menu.on_key(InputKey::Down);
    assert_eq!(menu.selected, 2);
    menu.on_key(InputKey::Up);
    assert_eq!(menu.selected, 1);
    assert_eq!(menu.on_key(InputKey::Left), MenuChoice::Stay);
    assert_eq!(menu.on_key(InputKey::Right), MenuChoice::Stay);
    assert_eq!(menu.selected, 1);
}

#[test]
fn menu_opens_the_selected_entry() {
    let mut menu = MenuScreen::new();
    assert_eq!(menu.on_key(InputKey::Enter), MenuChoice::Trade);
    menu.on_key(InputKey::Down);
    assert_eq!(menu.on_key(InputKey::Enter), MenuChoice::About);
    menu.on_key(InputKey::Down);
    assert_eq!(menu.on_key(InputKey::Enter), MenuChoice::Exit);
    assert_eq!(menu.selected, 2);
    assert_eq!(menu.on_key(InputKey::Escape), MenuChoice::Back);
}

#[test]
fn trade_screen_starts_on_the_first_member() {
    let screen = TradeScreen::new();
    assert_eq!(screen.pokemon_list_trainer1, vec!["Bulbasaur", "Charmander", "Squirtle", "Pikachu"]);
    assert_eq!(screen.pokemon_list_trainer2, vec!["Eevee", "Vaporeon", "Jolteon", "Flareon"]);
    assert_eq!(screen.current_trainer, Trainer::Trainer1);
    assert_eq!(screen.cursor_position, 0);
    assert_eq!(screen.selected_action, None);
    assert_eq!(screen.selected_pokemon_trainer1, None);
    assert_eq!(screen.selected_pokemon_trainer2, None);
    assert_eq!(screen.message, "");
    assert!(screen.saves.is_none());
}

#[test]
fn trade_cursor_moves_within_the_party_and_to_the_buttons() {
    let mut screen = TradeScreen::new();
    assert_eq!(screen.on_key(InputKey::Up), TradeStep::Stay);
    assert_eq!(screen.cursor_position, 0);
    screen.on_key(InputKey::Down);
    screen.on_key(InputKey::Down);
    screen.on_key(InputKey::Down);
    assert_eq!(screen.cursor_position, 3);
    assert_eq!(screen.selected_action, None);
    screen.on_key(InputKey::Down);
    assert_eq!(screen.cursor_position, 3);
    assert_eq!(screen.selected_action, Some(Action::Back));
    screen.on_key(InputKey::Down);
    assert_eq!(screen.cursor_position, 3);
    assert_eq!(screen.selected_action, Some(Action::Back));
    screen.on_key(InputKey::Right);
    assert_eq!(screen.selected_action, Some(Action::Trade));
    screen.on_key(InputKey::Right);
    assert_eq!(screen.selected_action, None);
    assert_eq!(screen.current_trainer, Trainer::Trainer2);
    screen.on_key(InputKey::Down);
    screen.on_key(InputKey::Right);
    assert_eq!(screen.selected_action, Some(Action::Trade));
    screen.on_key(InputKey::Left);
    assert_eq!(screen.selected_action, Some(Action::Back));
    screen.on_key(InputKey::Left);
    assert_eq!(screen.selected_action, None);
    assert_eq!(screen.current_trainer, Trainer::Trainer1);
    screen.on_key(InputKey::Down);
    screen.on_key(InputKey::Up);
    assert_eq!(screen.selected_action, None);
    assert_eq!(screen.cursor_position, 3);
    screen.on_key(InputKey::Up);
    assert_eq!(screen.cursor_position, 2);
}

#[test]
fn trade_cursor_stays_within_the_shorter_party() {
    let mut screen = TradeScreen::new();
    screen.pokemon_list_trainer2.truncate(2);
    screen.on_key(InputKey::Down);
    screen.on_key(InputKey::Down);
    screen.on_key(InputKey::Down);
    assert_eq!(screen.cursor_position, 3);
    screen.on_key(InputKey::Right);
    assert_eq!(screen.current_trainer, Trainer::Trainer2);
    assert_eq!(screen.cursor_position, 1);
    screen.on_key(InputKey::Left);
    assert_eq!(screen.current_trainer, Trainer::Trainer1);
    assert_eq!(screen.cursor_position, 1);
}

#[test]
fn trade_cursor_moves_down_beneath_a_button() {
    let mut screen = TradeScreen::new();
    screen.selected_action = Some(Action::Trade);
    screen.on_key(InputKey::Down);
    assert_eq!(screen.cursor_position, 1);
    assert_eq!(screen.selected_action, Some(Action::Trade));
}

#[test]
fn trade_enter_picks_and_unpicks_members() {
    let mut screen = TradeScreen::new();
    screen.on_key(InputKey::Down);
    assert_eq!(screen.on_key(InputKey::Enter), TradeStep::Stay);
    assert_eq!(screen.selected_pokemon_trainer1, Some(1));
    screen.on_key(InputKey::Enter);
    assert_eq!(screen.selected_pokemon_trainer1, None);
    screen.on_key(InputKey::Enter);
    screen.on_key(InputKey::Down);
    screen.on_key(InputKey::Enter);
    assert_eq!(screen.selected_pokemon_trainer1, Some(2));
    screen.on_key(InputKey::Right);
    screen.on_key(InputKey::Enter);
    assert_eq!(screen.selected_pokemon_trainer2, Some(2));
    assert_eq!(screen.selected_pokemon_trainer1, Some(2));
}

#[test]
fn trade_button_needs_both_members() {
    let mut screen = TradeScreen::new();
    screen.selected_action = Some(Action::Trade);
    assert_eq!(screen.on_key(InputKey::Enter), TradeStep::Stay);
    assert_eq!(screen.message, "Please select a pokemon from each trainer.");
    screen.on_key(InputKey::Up);
    assert_eq!(screen.message, "");
    screen.selected_pokemon_trainer1 = Some(0);
    screen.selected_action = Some(Action::Trade);
    assert_eq!(screen.on_key(InputKey::Enter), TradeStep::Stay);
    assert_eq!(screen.message, "Please select a pokemon from each trainer.");
    screen.selected_pokemon_trainer2 = Some(3);
    assert_eq!(screen.on_key(InputKey::Enter), TradeStep::Trade(0, 3));
    assert_eq!(screen.message, "");
}

#[test]
fn trade_screen_is_left_by_escape_and_back() {
    let mut screen = TradeScreen::new();
    assert_eq!(screen.on_key(InputKey::Escape), TradeStep::Leave);
    screen.selected_action = Some(Action::Back);
    assert_eq!(screen.on_key(InputKey::Enter), TradeStep::Leave);
    screen.message = "old".to_string();
    screen.on_key(InputKey::Escape);
    assert_eq!(screen.message, "");
}

#[test]
fn trade_screen_with_an_empty_party_takes_the_keys_that_do_not_read_it() {
    let mut screen = TradeScreen::new();
    screen.pokemon_list_trainer1.clear();
    screen.pokemon_list_trainer2.clear();
    assert!(!screen.can_take(InputKey::Down));
    assert!(!screen.can_take(InputKey::Left));
    assert!(!screen.can_take(InputKey::Right));
    assert!(screen.can_take(InputKey::Up));
    assert!(screen.can_take(InputKey::Enter));
    assert!(screen.can_take(InputKey::Escape));
    assert_eq!(screen.on_key(InputKey::Up), TradeStep::Stay);
    assert_eq!(screen.on_key(InputKey::Escape), TradeStep::Leave);
    screen.selected_action = Some(Action::Trade);
    assert!(screen.can_take(InputKey::Left));
    assert!(!screen.can_take(InputKey::Right));
    assert_eq!(screen.on_key(InputKey::Enter), TradeStep::Stay);
    assert_eq!(screen.message, "Please select a pokemon from each trainer.");
    assert_eq!(screen.selected_action, Some(Action::Trade));
    assert_eq!(screen.cursor_position, 0);
    assert_eq!(screen.current_trainer, Trainer::Trainer1);
    assert_eq!(screen.selected_pokemon_trainer1, None);
    assert_eq!(screen.selected_pokemon_trainer2, None);
    assert_eq!(screen.on_key(InputKey::Left), TradeStep::Stay);
    assert_eq!(screen.selected_action, Some(Action::Back));
    assert!(screen.can_take(InputKey::Right));
    assert!(!screen.can_take(InputKey::Left));
    screen.pokemon_list_trainer2.push("Mew".to_string());
    screen.selected_action = None;
    assert!(screen.can_take(InputKey::Right));
    assert!(!screen.can_take(InputKey::Down));
    screen.on_key(InputKey::Right);
    assert!(screen.can_take(InputKey::Down));
}
