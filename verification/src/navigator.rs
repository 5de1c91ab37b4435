//! The stack of screens and the rules by which it changes.

use crate::errors::{AppError, Result};
use crate::ui::screens::error_screen::ErrorScreen;
use vstd::prelude::*;

verus! {

/// What a screen asks of the navigator.
pub enum NavAction<S> {
    /// Show the screen on top of the present one.
    Push(S),
    /// Leave the present screen.
    Pop,
    /// Leave every screen.
    Exit,
    /// Show the screen in place of the present one.
    Go(S),
    /// Change nothing.
    Stay,
}

/// One page of the user interface.
pub trait Screen: Sized {
    /// Preparing the screen `before` may leave it as `after` and end with
    /// `outcome`. A screen that says nothing of its preparation allows
    /// every ending.
    open spec fn prepares(before: Self, after: Self, outcome: Result<NavAction<Self>>) -> bool {
        true
    }

    /// Prepares the screen, once, before it is first shown.
    fn init(&mut self) -> (outcome: Result<NavAction<Self>>)
        ensures
            Self::prepares(*old(self), *final(self), outcome),
    ;

    /// Draws the screen.
    fn build(&mut self);

    /// Waits for input and says what it asks for.
    fn handle_input(&mut self) -> Result<NavAction<Self>>;
}

/// What the stack holds: a screen, or the report of a failure.
pub enum Entry<S> {
    Screen(S),
    Error(ErrorScreen),
}

/// The stack of screens; the last one is shown.
pub struct Navigator<S> {
    pub stack: Vec<Entry<S>>,
}

/// The stack without its last entry; an empty stack stays empty.
pub open spec fn popped<S>(stack: Seq<Entry<S>>) -> Seq<Entry<S>> {
    if stack.len() > 0 {
        stack.drop_last()
    } else {
        stack
    }
}

/// The stack once `screen` was prepared with the outcome `outcome`: on
/// success the screen is on top, in place of the former top where `replace`
/// is set; on failure the report of the failure is on top of the stack as it
/// was, and the screen is nowhere.
pub open spec fn entered<S>(
    stack: Seq<Entry<S>>,
    screen: S,
    outcome: Result<NavAction<S>>,
    replace: bool,
) -> Seq<Entry<S>> {
    match outcome {
        Ok(_) => if replace {
            popped(stack).push(Entry::Screen(screen))
        } else {
            stack.push(Entry::Screen(screen))
        },
        Err(error) => stack.push(Entry::Error(ErrorScreen { error })),
    }
}

/// `after` is a stack that `action` can make of `before`: a screen that is
/// pushed or gone to is prepared first, and is taken in as its preparation
/// left it and ended.
pub open spec fn follows<S: Screen>(
    before: Seq<Entry<S>>,
    action: NavAction<S>,
    after: Seq<Entry<S>>,
) -> bool {
    match action {
        NavAction::Push(screen) => exists|prepared: S, outcome: Result<NavAction<S>>|
            S::prepares(screen, prepared, outcome) && after == entered(
                before,
                prepared,
                outcome,
                false,
            ),
        NavAction::Pop => after == popped(before),
        NavAction::Exit => after == Seq::<Entry<S>>::empty(),
        NavAction::Go(screen) => exists|prepared: S, outcome: Result<NavAction<S>>|
            S::prepares(screen, prepared, outcome) && after == entered(
                before,
                prepared,
                outcome,
                true,
            ),
        NavAction::Stay => after == before,
    }
}

/// A screen whose preparation fails never comes to stand on the stack: the
/// report of the failure is put on top of the stack as it was.
pub proof fn lemma_failed_screen_stays_out<S>(
    stack: Seq<Entry<S>>,
    screen: S,
    error: AppError,
    replace: bool,
)
    ensures
        entered(stack, screen, Err(error), replace) == stack.push(
            Entry::Error(ErrorScreen { error }),
        ),
        entered(stack, screen, Err(error), replace).drop_last() == stack,
        entered(stack, screen, Err(error), replace).last() is Error,
{
    assert(stack.push(Entry::<S>::Error(ErrorScreen { error })).drop_last() =~= stack);
}

/// Leaving the only screen empties the stack.
pub proof fn lemma_pop_of_one_empties<S>(stack: Seq<Entry<S>>)
    requires
        stack.len() == 1,
    ensures
        popped(stack) == Seq::<Entry<S>>::empty(),
{
    assert(popped(stack) =~= Seq::<Entry<S>>::empty());
}

/// Going to a screen whose preparation succeeds replaces the top entry and
/// nothing else.
pub proof fn lemma_go_replaces_top<S>(stack: Seq<Entry<S>>, screen: S, action: NavAction<S>)
    requires
        stack.len() >= 1,
    ensures
        entered(stack, screen, Ok(action), true).len() == stack.len(),
        entered(stack, screen, Ok(action), true).last() == Entry::Screen(screen),
        forall|i: int|
            0 <= i < stack.len() - 1 ==> #[trigger] entered(stack, screen, Ok(action), true)[i]
                == stack[i],
{
}

/// The stacks that a navigator may hold once the root was prepared, which
/// left it as `root` and ended with `outcome`, and what it asked for was
/// done.
pub open spec fn started<S: Screen>(
    root: S,
    outcome: Result<NavAction<S>>,
    after: Seq<Entry<S>>,
) -> bool {
    match outcome {
        Ok(action) => follows(seq![Entry::Screen(root)], action, after),
        Err(error) => after == seq![Entry::<S>::Error(ErrorScreen { error })],
    }
}

impl<S> Navigator<S> {
    /// The stack, from the bottom up.
    pub open spec fn view(&self) -> Seq<Entry<S>> {
        self.stack@
    }

    /// A navigator whose root screen was prepared with the outcome `outcome`,
    /// and the action that the root asked for. A root that failed is not on
    /// the stack: the report of its failure is the only entry.
    pub fn seeded(root: S, outcome: Result<NavAction<S>>) -> (seeded: (Self, NavAction<S>))
        ensures
            match outcome {
                Ok(action) => seeded.0@ == seq![Entry::Screen(root)] && seeded.1 == action,
                Err(error) => seeded.0@ == seq![Entry::<S>::Error(ErrorScreen { error })]
                    && seeded.1 is Stay,
            },
    {
        let mut stack: Vec<Entry<S>> = Vec::new();
        match outcome {
            Ok(action) => {
                stack.push(Entry::Screen(root));
                (Self { stack }, action)
            },
            Err(error) => {
                stack.push(Entry::Error(ErrorScreen { error }));
                (Self { stack }, NavAction::Stay)
            },
        }
    }

    /// Tells whether a screen is left to show.
    pub fn is_running(&self) -> (running: bool)
        ensures
            running == (self@.len() > 0),
    {
        self.stack.len() > 0
    }

    /// Removes the top entry, if there is one.
    pub fn pop(&mut self)
        ensures
            final(self)@ == popped(old(self)@),
    {
        if self.stack.len() > 0 {
            self.stack.pop();
        }
    }

    /// Removes every entry.
    pub fn exit(&mut self)
        ensures
            final(self)@ == Seq::<Entry<S>>::empty(),
    {
        self.stack.clear();
    }

    /// Puts the report of `error` on top.
    pub fn fail(&mut self, error: AppError)
        ensures
            final(self)@ == old(self)@.push(Entry::Error(ErrorScreen { error })),
    {
        self.stack.push(Entry::Error(ErrorScreen { error }));
    }

    /// Takes in `screen`, which was prepared with the outcome `outcome`: on
    /// success it goes on top, in place of the former top where `replace` is
    /// set; on failure the report of the failure goes on top instead.
    pub fn enter(&mut self, screen: S, outcome: Result<NavAction<S>>, replace: bool)
        ensures
            final(self)@ == entered(old(self)@, screen, outcome, replace),
    {
        match outcome {
            Ok(_) => {
                if replace {
                    self.pop();
                }
                self.stack.push(Entry::Screen(screen));
            },
            Err(error) => {
                self.fail(error);
            },
        }
    }
}

impl<S: Screen> Navigator<S> {
    /// A navigator seeded with `root`: the root is prepared, and what it asks
    /// for is done.
    pub fn new(root: S) -> (navigator: Self)
        ensures
            exists|prepared: S, outcome: Result<NavAction<S>>|
                S::prepares(root, prepared, outcome) && started(prepared, outcome, navigator@),
    {
        let ghost given = root;
        let mut root = root;
        let outcome = root.init();
        let ghost prepared = root;
        let (mut navigator, action) = Self::seeded(root, outcome);
        navigator.process_action(action);
        assert(S::prepares(given, prepared, outcome) && started(prepared, outcome, navigator@));
        navigator
    }

    /// Does what `action` asks for. A screen that is pushed or gone to is
    /// prepared first.
    pub fn process_action(&mut self, action: NavAction<S>)
        ensures
            follows(old(self)@, action, final(self)@),
    {
        match action {
            NavAction::Push(screen) => {
                let mut screen = screen;
                let outcome = screen.init();
                self.enter(screen, outcome, false);
            },
            NavAction::Pop => {
                self.pop();
            },
            NavAction::Exit => {
                self.exit();
            },
            NavAction::Go(screen) => {
                let mut screen = screen;
                let outcome = screen.init();
                self.enter(screen, outcome, true);
            },
            NavAction::Stay => {},
        }
    }

    /// Takes in what the top screen made of its input: does the action that
    /// it asked for, or puts the report of its failure on top.
    pub fn step(&mut self, outcome: Result<NavAction<S>>)
        ensures
            match outcome {
                Ok(action) => follows(old(self)@, action, final(self)@),
                Err(error) => final(self)@ == old(self)@.push(Entry::Error(ErrorScreen { error })),
            },
    {
        match outcome {
            Ok(action) => self.process_action(action),
            Err(error) => self.fail(error),
        }
    }
}

} // verus!
