use ntrade_advance::errors::{AppError, Result};
use ntrade_advance::navigator::{Entry, NavAction, Navigator, Screen};

struct Page {
    name: &'static str,
    fails: bool,
    asks: Option<Box<Page>>,
    prepared: bool,
}

fn page(name: &'static str) -> Page {
    Page { name, fails: false, asks: None, prepared: false }
}

fn failing(name: &'static str) -> Page {
    Page { name, fails: true, asks: None, prepared: false }
}

impl Screen for Page {
    fn init(&mut self) -> Result<NavAction<Self>> {
        self.prepared = true;
        if self.fails {
            return Err(AppError::Custom(format!("{} failed", self.name)));
        }
        match self.asks.take() {
            Some(next) => Ok(NavAction::Push(*next)),
            None => Ok(NavAction::Stay),
        }
    }

    fn build(&mut self) {}

    fn handle_input(&mut self) -> Result<NavAction<Self>> {
        Ok(NavAction::Pop)
    }
}

fn names(navigator: &Navigator<Page>) -> Vec<String> {
    navigator
        .stack
        .iter()
        .map(|entry| match entry {
            Entry::Screen(p) => {
                assert!(p.prepared);
                p.name.to_string()
            }
            Entry::Error(report) => format!("error: {}", report.error.message()),
        })
        .collect()
}

#[test]
fn new_prepares_and_holds_the_root() {
    let navigator = Navigator::new(page("root"));
    assert_eq!(names(&navigator), vec!["root"]);
    assert!(navigator.is_running());
}

#[test]
fn root_that_fails_is_replaced_by_its_report() {
    let navigator = Navigator::new(failing("root"));
    assert_eq!(names(&navigator), vec!["error: root failed"]);
}

#[test]
fn root_may_ask_for_another_screen_at_once() {
    let mut root = page("root");
    root.asks = Some(Box::new(page("second")));
    let navigator = Navigator::new(root);
    assert_eq!(names(&navigator), vec!["root", "second"]);
}

#[test]
fn push_puts_the_screen_on_top() {
    let mut navigator = Navigator::new(page("root"));
    navigator.process_action(NavAction::Push(page("next")));
    assert_eq!(names(&navigator), vec!["root", "next"]);
}

#[test]
fn push_of_a_failing_screen_shows_the_error_only() {
    let mut navigator = Navigator::new(page("root"));
    navigator.process_action(NavAction::Push(failing("broken")));
    assert_eq!(names(&navigator), vec!["root", "error: broken failed"]);
    navigator.process_action(NavAction::Pop);
    assert_eq!(names(&navigator), vec!["root"]);
}

#[test]
fn pop_of_the_last_screen_ends_the_run() {
    let mut navigator = Navigator::new(page("root"));
    navigator.process_action(NavAction::Pop);
    assert_eq!(names(&navigator), Vec::<String>::new());
    assert!(!navigator.is_running());
    navigator.process_action(NavAction::Pop);
    assert!(!navigator.is_running());
}

#[test]
fn go_replaces_the_top_only() {
    let mut navigator = Navigator::new(page("root"));
    navigator.process_action(NavAction::Push(page("a")));
    navigator.process_action(NavAction::Go(page("b")));
    assert_eq!(names(&navigator), vec!["root", "b"]);
}

#[test]
fn go_to_a_failing_screen_keeps_the_top_beneath_the_error() {
    let mut navigator = Navigator::new(page("root"));
    navigator.process_action(NavAction::Push(page("a")));
    navigator.process_action(NavAction::Go(failing("b")));
    assert_eq!(names(&navigator), vec!["root", "a", "error: b failed"]);
}

#[test]
fn exit_clears_the_stack() {
    let mut navigator = Navigator::new(page("root"));
    navigator.process_action(NavAction::Push(page("a")));
    navigator.process_action(NavAction::Exit);
    assert!(!navigator.is_running());
    assert_eq!(navigator.stack.len(), 0);
}

#[test]
fn stay_changes_nothing() {
    let mut navigator = Navigator::new(page("root"));
    navigator.process_action(NavAction::Stay);
    assert_eq!(names(&navigator), vec!["root"]);
}

#[test]
fn step_takes_actions_and_failures() {
    let mut navigator = Navigator::new(page("root"));
    navigator.step(Ok(NavAction::Push(page("a"))));
    navigator.step(Err(AppError::PokemonNotFound));
    assert_eq!(names(&navigator), vec!["root", "a", "error: Pokemon not found."]);
    navigator.step(Ok(NavAction::Pop));
    navigator.step(Ok(NavAction::Pop));
    assert_eq!(names(&navigator), vec!["root"]);
}

#[test]
fn seeded_enter_and_fail() {
    let (mut navigator, action) = Navigator::seeded(page("root"), Ok(NavAction::Exit));
    assert!(matches!(action, NavAction::Exit));
    assert_eq!(navigator.stack.len(), 1);
    navigator.enter(page("a"), Ok(NavAction::Stay), false);
    navigator.enter(page("b"), Ok(NavAction::Stay), true);
    navigator.enter(page("c"), Err(AppError::MissingFiles), true);
    assert_eq!(navigator.stack.len(), 3);
    assert!(matches!(navigator.stack[1], Entry::Screen(ref p) if p.name == "b"));
    assert!(matches!(navigator.stack[2], Entry::Error(ref r) if matches!(r.error, AppError::MissingFiles)));
    navigator.fail(AppError::Custom("x".to_string()));
    assert_eq!(navigator.stack.len(), 4);
    navigator.pop();
    navigator.exit();
    assert_eq!(navigator.stack.len(), 0);
    let (navigator, action) = Navigator::seeded(page("root"), Err(AppError::MissingFiles));
    assert!(matches!(action, NavAction::Stay));
    assert!(matches!(navigator.stack[0], Entry::Error(_)));
    let mut empty: Navigator<Page> = Navigator { stack: Vec::new() };
    empty.enter(page("z"), Ok(NavAction::Stay), true);
    assert_eq!(empty.stack.len(), 1);
}

#[test]
fn error_messages() {
    assert_eq!(
        AppError::MissingFiles.message(),
        "You need at least two save files with the extension '.sav'. Place them in your home directory, for example ~/emerald.sav"
    );
    assert_eq!(AppError::FsError("denied".to_string()).message(), "Filesystem error: denied");
    assert_eq!(AppError::PokemonNotFound.message(), "Pokemon not found.");
    assert_eq!(AppError::Custom("as it is".to_string()).message(), "as it is");
    assert_eq!(
        AppError::SaveError(pkmn_savedata::SaveError::Filesize).message(),
        "Save error: File size error."
    );
}
