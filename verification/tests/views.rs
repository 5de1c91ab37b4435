use ntrade_advance::errors::AppError;
use ntrade_advance::ui::rendering::{render_ui, Widget, NIO_MAX_COLS};
use ntrade_advance::ui::screens::about_screen::AboutScreen;
use ntrade_advance::platform::input::InputKey;
use ntrade_advance::ui::screens::animation::{
    picture_view, progress_at, progress_steps, Frame, Picture, FPS, LEAD_IN, PARTS,
};
use ntrade_advance::ui::screens::error_screen::{error_view, ErrorScreen};
use ntrade_advance::ui::screens::exit_screen::ExitScreen;
use ntrade_advance::ui::screens::menu_screen::MenuScreen;
use ntrade_advance::ui::screens::splash_screen::SplashScreen;
use ntrade_advance::ui::screens::trade_screen::{member_label, names_can_fit, Action, TradeScreen, Trainer};
use ntrade_advance::ui::theme::{
    COLOR_LIGHTMAGENTA, COLOR_LIGHTYELLOW, COLOR_MAGENTA, COLOR_WHITE, COLOR_YELLOW,
};
use ntrade_advance::ui::tree::add_child;
use ntrade_advance::ui::tree::no_children;
use ntrade_advance::ui::widgets::text::text;

fn lines_of(frame: &str) -> Vec<String> {
    let lines: Vec<String> = frame.split('\n').map(|l| l.to_string()).collect();
    assert_eq!(lines.len(), 30);
    for line in &lines {
        assert_eq!(line.chars().count(), NIO_MAX_COLS as usize);
    }
    lines
}

fn row_with<'a>(lines: &'a [String], needle: &str) -> &'a str {
    lines.iter().find(|l| l.contains(needle)).map(|l| l.as_str()).unwrap_or_else(|| panic!("no row holds {:?}", needle))
}

#[test]
fn menu_view_marks_the_selected_entry() {
    let mut menu = MenuScreen::new();
    let view = menu.view("LOGO");
    assert!(view.is_well_formed());
    let lines = lines_of(&render_ui(view));
    assert_eq!(lines[0], format!("+{}+", "-".repeat(51)));
    assert_eq!(lines[29], format!("+{}+", "-".repeat(51)));
    assert!(lines[1].contains("LOGO"));
    assert!(lines[2].contains("Advance"));
    assert!(row_with(&lines, "Trade Pokemon").contains("Trade Pokemon between Ruby, Sapphire,"));
    let trade = lines.iter().position(|l| l.contains("|    Trade     |")).unwrap();
    assert!(lines[trade - 1].contains(".==============."));
    assert!(lines[trade + 1].contains("`=============='"));
    let about = lines.iter().position(|l| l.contains("|    About     |")).unwrap();
    assert!(lines[about - 1].contains(".--------------."));
    menu.selected = 2;
    let lines = lines_of(&render_ui(menu.view("LOGO")));
    let exit = lines.iter().position(|l| l.contains("|     Exit     |")).unwrap();
    assert!(lines[exit - 1].contains(".==============."));
    let trade = lines.iter().position(|l| l.contains("|    Trade     |")).unwrap();
    assert!(lines[trade - 1].contains(".--------------."));
}

#[test]
fn error_view_shows_the_wrapped_message() {
    let view = error_view("one two three four five six seven eight nine ten eleven twelve");
    assert!(view.is_well_formed());
    let lines = lines_of(&render_ui(view));
    assert!(lines[2].contains("ERROR"));
    assert_eq!(lines[4], format!("|{}|", "-".repeat(51)));
    assert!(row_with(&lines, "one two").contains("|one two three four five six seven eight|"));
    assert!(row_with(&lines, "nine ten").contains("|nine ten eleven twelve                 |"));
    assert!(row_with(&lines, "OK").contains("|  OK  |"));
    let report = ErrorScreen { error: AppError::PokemonNotFound };
    let lines = lines_of(&render_ui(report.view()));
    assert!(row_with(&lines, "Pokemon").contains("|Pokemon not found.|"));
    let long = ErrorScreen { error: AppError::Custom("x".repeat(65521)) };
    assert!(long.view().is_well_formed());
    let wordy = ErrorScreen { error: AppError::Custom("x ".repeat(32760)) };
    assert!(wordy.view().is_well_formed());
    let longer = ErrorScreen { error: AppError::Custom("x".repeat(65536)) };
    assert!(!longer.view().is_well_formed());
    let many_words = ErrorScreen { error: AppError::Custom("x ".repeat(65530)) };
    assert!(many_words.view().is_well_formed());
    let many_lines = ErrorScreen { error: AppError::Custom("abcdefghijklmnopqrstu ".repeat(65530)) };
    assert!(!many_lines.view().is_well_formed());
}

#[test]
fn about_view_shows_the_version() {
    assert_eq!(AboutScreen::version_text("2.0.0"), " v2.0.0 ");
    let view = AboutScreen.view("2.0.0");
    assert!(view.is_well_formed());
    let lines = lines_of(&render_ui(view));
    assert!(lines[3].contains("Philipp Bauer"));
    assert!(row_with(&lines, "provided").contains("| This application is provided without any |"));
    assert!(row_with(&lines, "warranty").contains("| warranty. Make sure you have backups of  |"));
    assert!(row_with(&lines, "2014").contains("The first version, from 2014, was written"));
    assert!(row_with(&lines, "Special").starts_with("|   Special thanks to:"));
    assert!(lines[28].starts_with("| < esc \\"));
    assert!(lines[28].ends_with("/ v2.0.0 |"));
    assert!(lines[27].starts_with("|_______ "));
    assert_eq!(lines[26].trim_matches('|').trim(), "CC BY-NC-SA 4.0");
    assert_eq!(lines[25].trim_matches('|').trim(), "github.com/ciriousjoker/nTradeAdvance");
}

#[test]
fn member_labels_are_padded_and_marked() {
    assert_eq!(member_label("Mew", false, false), "   Mew          ");
    assert_eq!(member_label("Mew", true, false), " [ Mew        ] ");
    assert_eq!(member_label("Mew", false, true), "  >Mew       <  ");
    assert_eq!(member_label("Mew", true, true), " [>Mew       <] ");
    assert_eq!(member_label("Charmander", true, true), " [>Charmander<] ");
    assert_eq!(member_label("Fletchinder!", false, true), "  >Fletchinder!<  ");
    assert_eq!(member_label("", true, false), " [            ] ");
    for name in ["", "a", "Pikachu", "exactly10c", "longer than ten"] {
        assert_eq!(member_label(name, true, true), format!(" [>{:10}<] ", name));
        assert_eq!(member_label(name, false, true), format!("  >{:10}<  ", name));
        assert_eq!(member_label(name, true, false), format!(" [ {:10} ] ", name));
        assert_eq!(member_label(name, false, false), format!("   {:10}   ", name));
    }
}

#[test]
fn trade_view_shows_parties_cursor_and_progress() {
    let mut screen = TradeScreen::new();
    screen.trainer_name1 = "ASH".to_string();
    screen.trainer_name2 = "GARY".to_string();
    assert!(screen.can_draw());
    let lines = lines_of(&render_ui(screen.view(None)));
    assert!(lines[2].contains("Trading"));
    assert!(row_with(&lines, "ASH").contains("GARY"));
    assert!(row_with(&lines, "Bulbasaur").contains("| [ Bulbasaur  ] |   Eevee        |"));
    assert!(row_with(&lines, "Pikachu").contains("|   Pikachu      |   Flareon      |"));
    assert!(row_with(&lines, "Back").contains("|   Back   |   |  Trade   |"));
    screen.selected_pokemon_trainer1 = Some(0);
    screen.selected_pokemon_trainer2 = Some(3);
    screen.selected_action = Some(Action::Trade);
    screen.current_trainer = Trainer::Trainer2;
    screen.message = "Trading...".to_string();
    let lines = lines_of(&render_ui(screen.view(Some((1, 2)))));
    assert!(row_with(&lines, "Bulbasaur").contains("|  >Bulbasaur <  |   Eevee        |"));
    assert!(row_with(&lines, "Pikachu").contains("|   Pikachu      |  >Flareon   <  |"));
    assert!(row_with(&lines, "Trading...").contains("Trading..."));
    let trade = lines.iter().position(|l| l.contains("|  Trade   |")).unwrap();
    assert!(lines[trade - 1].contains(".----------.   .==========."));
    assert_eq!(lines[25], format!("|  .{}.  |", "-".repeat(45)));
    assert_eq!(lines[26], format!("|  |{}|{}|  |", "/".repeat(21), " ".repeat(23)));
    assert_eq!(lines[27], format!("|  `{}'  |", "-".repeat(45)));
    assert_eq!(lines[28], format!("|{}|", " ".repeat(51)));
    let full = lines_of(&render_ui(screen.view(Some((1, 1)))));
    assert_eq!(full[26], format!("|  |{}|  |", "/".repeat(45)));
    let none = lines_of(&render_ui(screen.view(None)));
    assert_eq!(none[26], format!("|{}|", " ".repeat(51)));
}

#[test]
fn trade_screen_refuses_what_cannot_be_shown() {
    let mut screen = TradeScreen::new();
    screen.message = "m".repeat(65522);
    assert!(!screen.can_draw());
    screen.message = "m".repeat(65521);
    assert!(screen.can_draw());
    assert!(screen.view(None).is_well_formed());
    screen.message = "m".repeat(65534);
    assert!(!screen.view(None).is_well_formed());
    screen.message = String::new();
    screen.trainer_name2 = "n".repeat(65530);
    assert!(!screen.can_draw());
    screen.trainer_name2 = "n".repeat(65529);
    screen.pokemon_list_trainer1 = vec!["p".to_string(); 65517];
    screen.pokemon_list_trainer2 = vec!["p".repeat(65529)];
    assert!(screen.can_draw());
    assert!(screen.view(Some((1, 3))).is_well_formed());
    screen.pokemon_list_trainer1.push("q".to_string());
    assert!(!screen.can_draw());
    assert!(!screen.view(Some((1, 3))).is_well_formed());
    assert!(screen.view(None).is_well_formed());
    screen.pokemon_list_trainer2 = vec!["p".repeat(65530)];
    assert!(!screen.view(None).is_well_formed());
    assert!(names_can_fit(&vec!["a".to_string()]));
    assert!(!names_can_fit(&vec!["a".repeat(65530)]));
    assert!(names_can_fit(&Vec::new()));
}

#[test]
fn animations_are_twelve_frames() {
    assert_eq!(LEAD_IN, 650);
    let splash = SplashScreen.frames();
    assert_eq!(splash.len(), 12);
    assert_eq!(splash[0], Frame { duration: 50, picture: Picture::MewFlash, color: None });
    assert_eq!(splash[6], Frame { duration: 100, picture: Picture::MewFlashSparkle, color: Some(COLOR_LIGHTMAGENTA) });
    assert_eq!(splash[10], Frame { duration: 300, picture: Picture::MewFlashFull, color: Some(COLOR_LIGHTMAGENTA) });
    assert_eq!(splash[11], Frame { duration: 50, picture: Picture::Mew, color: None });
    assert_eq!(splash.iter().map(|f| f.duration).sum::<u32>(), 2000);
    assert_eq!(SplashScreen.color(), COLOR_MAGENTA);
    assert_eq!(SplashScreen.still(), Picture::Mew);
    let exit = ExitScreen.frames();
    assert_eq!(exit.len(), 12);
    assert_eq!(exit[0], Frame { duration: 50, picture: Picture::PikachuSpark, color: Some(COLOR_LIGHTYELLOW) });
    assert_eq!(exit[1], Frame { duration: 300, picture: Picture::Pikachu, color: None });
    assert_eq!(exit[11], Frame { duration: 50, picture: Picture::Pikachu, color: None });
    assert_eq!(exit.iter().filter(|f| f.color.is_some()).count(), 6);
    assert_eq!(exit.iter().map(|f| f.duration).sum::<u32>(), 2000);
    assert_eq!(ExitScreen.color(), COLOR_YELLOW);
    assert_eq!(ExitScreen.still(), Picture::Pikachu);
    assert_eq!((COLOR_WHITE, COLOR_MAGENTA, COLOR_LIGHTMAGENTA, COLOR_YELLOW, COLOR_LIGHTYELLOW), (15, 5, 13, 3, 11));
}

#[test]
fn picture_view_shows_the_picture() {
    let view = picture_view("ab\ncd");
    let lines = lines_of(&render_ui(view));
    assert!(lines[0].starts_with("ab "));
    assert!(lines[1].starts_with("cd "));
}

#[test]
fn children_are_added_in_order() {
    let mut children = no_children();
    assert!(children.is_empty());
    add_child(&mut children, text("a"));
    add_child(&mut children, text("bc"));
    assert_eq!(children.len(), 2);
    assert_eq!(children[0].min_size(), (1, 1));
    assert_eq!(children[1].min_size(), (2, 1));
}

#[test]
fn progress_eases_out_along_a_cubic() {
    assert_eq!((FPS, PARTS), (60, 1_000_000));
    assert_eq!(progress_at(0, 1_000_000, 0, 10), 0);
    assert_eq!(progress_at(0, 1_000_000, 10, 10), 1_000_000);
    assert_eq!(progress_at(0, 1_000_000, 5, 10), 875_000);
    assert_eq!(progress_at(0, 1_000_000, 1, 10), 271_000);
    assert_eq!(progress_at(320_000, 500_000, 1, 2), 477_500);
    assert_eq!(progress_at(500_000, 320_000, 1, 2), 342_500);
    assert_eq!(progress_at(0, 1_000_000, 1, 3), 703_703);
    assert_eq!(progress_at(1_000_000, 0, 1, 3), 296_297);
    assert_eq!(progress_at(7, 7, 3, 9), 7);
    assert_eq!(progress_at(0, 4_294_967_295, 268_435_454, 268_435_455), 4_294_967_294);
    for frame in 0..=46u32 {
        let exact = 1.0 - (1.0 - frame as f64 / 46.0).powi(3);
        let got = progress_at(0, PARTS, frame, 46) as f64 / PARTS as f64;
        assert!((got - exact).abs() < 0.000_002, "frame {}", frame);
    }
}

#[test]
fn progress_steps_end_at_the_target() {
    let steps = progress_steps(0, 320_000, 750);
    assert_eq!(steps.len(), 47);
    assert_eq!(steps[0], 0);
    assert_eq!(steps[46], 320_000);
    assert!(steps.windows(2).all(|pair| pair[0] <= pair[1]));
    assert_eq!(steps[23], progress_at(0, 320_000, 23, 46));
    assert_eq!(progress_steps(5, 9, 0), vec![9]);
    assert_eq!(progress_steps(5, 9, 15), vec![9]);
    assert_eq!(progress_steps(0, 8, 16), vec![0, 8]);
    assert_eq!(progress_steps(0, 8, 32), vec![0, 7, 8]);
    assert_eq!(progress_steps(8, 0, 32), vec![8, 1, 0]);
}

#[test]
fn after_a_trade_escape_leaves() {
    assert!(TradeScreen::after_trade(InputKey::Escape));
    assert!(!TradeScreen::after_trade(InputKey::Enter));
    assert!(!TradeScreen::after_trade(InputKey::Up));
}

#[test]
fn pages_fit_the_display() {
    assert_eq!(MenuScreen::new().view("LOGO").min_size(), (42, 22));
    assert_eq!(MenuScreen::new().view("1\n2\n3\n4\n5\n6\n7\n8\n9").min_size(), (42, 30));
    assert_eq!(MenuScreen::new().view("1\n2\n3\n4\n5\n6\n7\n8\n9\n10").min_size(), (42, 31));
    let wide = "123456789012345678901234567890123456789012345678901";
    assert_eq!(MenuScreen::new().view(wide).min_size(), (53, 22));
    let mut screen = TradeScreen::new();
    assert_eq!(screen.view(None).min_size(), (37, 20));
    assert_eq!(screen.view(Some((1, 2))).min_size(), (37, 22));
    screen.message = "m".repeat(51);
    assert_eq!(screen.view(None).min_size(), (53, 20));
    screen.message = "m".repeat(52);
    assert_eq!(screen.view(None).min_size(), (54, 20));
    screen.message = String::new();
    screen.pokemon_list_trainer2 = vec!["x".to_string(); 14];
    assert_eq!(screen.view(None).min_size(), (37, 30));
    assert_eq!(screen.view(Some((0, 1))).min_size(), (37, 32));
    screen.pokemon_list_trainer1 = vec!["a very long name indeed".to_string(); 15];
    assert_eq!(screen.view(None).min_size(), (37, 31));
    assert_eq!(screen.party_view(Trainer::Trainer1).min_size(), (16, 17));
    assert_eq!(screen.party_view(Trainer::Trainer2).min_size(), (16, 16));
}

#[test]
fn views_are_built_for_any_input() {
    let huge = "x".repeat(70000);
    assert!(!MenuScreen::new().view(&huge).is_well_formed());
    assert!(MenuScreen::new().view(&"x\n".repeat(32757)).is_well_formed());
    assert!(!AboutScreen.view(&huge).is_well_formed());
    assert!(AboutScreen.view(&"9".repeat(65529)).is_well_formed());
    assert!(!AboutScreen.view(&"9".repeat(65530)).is_well_formed());
    assert!(!picture_view(&huge).is_well_formed());
    assert!(picture_view(&huge[..65535]).is_well_formed());
    assert!(!error_view(&huge).is_well_formed());
    let mut menu = MenuScreen::new();
    menu.selected = 7;
    assert_eq!(menu.on_key(InputKey::Up), ntrade_advance::ui::screens::menu_screen::MenuChoice::Stay);
    assert_eq!(menu.selected, 6);
    menu.on_key(InputKey::Down);
    assert_eq!(menu.selected, 6);
}
