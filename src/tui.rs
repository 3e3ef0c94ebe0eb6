//! The navigation state of the interactive interface: a stack of screens and
//! the keys that move through it.
use vstd::prelude::*;

verus! {

#[derive(Debug, Clone, Copy, PartialEq, Eq, Structural)]
pub enum Screen {
    List,
    Detail,
    Create,
    Help,
}

/// The keys the interface reacts to; anything else is `Other`.
#[derive(Debug, Clone, Copy, PartialEq, Eq, Structural)]
pub enum KeyCode {
    Char(char),
    Enter,
    Esc,
    Other,
}

/// A key press: the key and whether Control was held.
#[derive(Debug, Clone, Copy, PartialEq, Eq, Structural)]
pub struct KeyPress {
    pub code: KeyCode,
    pub ctrl: bool,
}

/// The interactive interface starts only without a subcommand and with both
/// standard input and standard output on a terminal.
pub fn should_launch_tui(has_command: bool, stdin_is_tty: bool, stdout_is_tty: bool) -> (r: bool)
    ensures
        r == (!has_command && stdin_is_tty && stdout_is_tty),
{
    !has_command && stdin_is_tty && stdout_is_tty
}

/// The interface's state: whether it runs, and the stack of screens, the
/// active one last. The stack is never empty.
pub struct App {
    running: bool,
    nav_stack: Vec<Screen>,
}

impl App {
    pub closed spec fn running_spec(&self) -> bool {
        self.running
    }

    pub closed spec fn stack(&self) -> Seq<Screen> {
        self.nav_stack@
    }

    pub open spec fn wf(&self) -> bool {
        self.stack().len() > 0
    }

    /// Running, on the list screen alone.
    pub fn new() -> (r: Self)
        ensures
            r.running_spec(),
            r.stack() == seq![Screen::List],
            r.wf(),
    {
        let mut nav_stack: Vec<Screen> = Vec::new();
        nav_stack.push(Screen::List);
        assert(nav_stack@ =~= seq![Screen::List]);
        App { running: true, nav_stack }
    }

    pub fn is_running(&self) -> (r: bool)
        ensures
            r == self.running_spec(),
    {
        self.running
    }

    /// The screen on top of the stack.
    pub fn active_screen(&self) -> (r: Screen)
        requires
            self.wf(),
        ensures
            r == self.stack().last(),
    {
        self.nav_stack[self.nav_stack.len() - 1]
    }

    pub fn nav_stack_depth(&self) -> (r: usize)
        ensures
            r == self.stack().len(),
    {
        self.nav_stack.len()
    }

    /// Put a screen on top.
    pub fn push_screen(&mut self, screen: Screen)
        ensures
            final(self).stack() == old(self).stack().push(screen),
            final(self).running_spec() == old(self).running_spec(),
    {
        self.nav_stack.push(screen);
    }

    /// Go back one screen; on the root screen, stop running instead.
    pub fn pop_screen(&mut self)
        requires
            old(self).wf(),
        ensures
            final(self).wf(),
            old(self).stack().len() > 1 ==> final(self).stack() == old(self).stack().drop_last()
                && final(self).running_spec() == old(self).running_spec(),
            old(self).stack().len() == 1 ==> final(self).stack() == old(self).stack() && !final(self).running_spec(),
    {
        if self.nav_stack.len() > 1 {
            self.nav_stack.pop();
        } else {
            self.running = false;
        }
    }

    /// React to a key: Ctrl-C stops; `?` opens help; Esc or `q` goes back (and
    /// stops on the root screen); on the list screen, Enter opens the detail
    /// screen and `n` the create screen; other keys do nothing.
    pub fn handle_key_event(&mut self, key: KeyPress)
        requires
            old(self).wf(),
        ensures
            final(self).wf(),
            key.code == KeyCode::Char('c') && key.ctrl ==> !final(self).running_spec() && final(self).stack()
                == old(self).stack(),
            key.code == KeyCode::Char('?') ==> final(self).stack()
                == old(self).stack().push(Screen::Help),
            (key.code == KeyCode::Esc || key.code == KeyCode::Char('q')) ==> (if old(self).stack().len() > 1 {
                final(self).stack() == old(self).stack().drop_last() && final(self).running_spec() == old(self).running_spec()
            } else {
                final(self).stack() == old(self).stack() && !final(self).running_spec()
            }),
            key.code == KeyCode::Enter ==> final(self).stack() == (if old(self).stack().last() == Screen::List {
                old(self).stack().push(Screen::Detail)
            } else {
                old(self).stack()
            }),
            key.code == KeyCode::Char('n') ==> final(self).stack() == (if old(self).stack().last() == Screen::List {
                old(self).stack().push(Screen::Create)
            } else {
                old(self).stack()
            }),
            (key.code == KeyCode::Other || key.code == KeyCode::Enter || key.code == KeyCode::Char('n'))
                ==> final(self).running_spec() == old(self).running_spec(),
    {
        match key.code {
            KeyCode::Char('c') if key.ctrl => {
                self.running = false;
            },
            KeyCode::Char('?') => self.push_screen(Screen::Help),
            KeyCode::Esc | KeyCode::Char('q') => self.pop_screen(),
            _ => self.handle_screen_key(key),
        }
    }

    fn handle_screen_key(&mut self, key: KeyPress)
        requires
            old(self).wf(),
        ensures
            final(self).running_spec() == old(self).running_spec(),
            final(self).stack() == (if old(self).stack().last() == Screen::List && key.code == KeyCode::Enter {
                old(self).stack().push(Screen::Detail)
            } else if old(self).stack().last() == Screen::List && key.code == KeyCode::Char('n') {
                old(self).stack().push(Screen::Create)
            } else {
                old(self).stack()
            }),
    {
        match self.active_screen() {
            Screen::List => self.handle_list_key(key),
            _ => {},
        }
    }

    fn handle_list_key(&mut self, key: KeyPress)
        ensures
            final(self).running_spec() == old(self).running_spec(),
            final(self).stack() == (if key.code == KeyCode::Enter {
                old(self).stack().push(Screen::Detail)
            } else if key.code == KeyCode::Char('n') {
                old(self).stack().push(Screen::Create)
            } else {
                old(self).stack()
            }),
    {
        match key.code {
            KeyCode::Enter => self.push_screen(Screen::Detail),
            KeyCode::Char('n') => self.push_screen(Screen::Create),
            _ => {},
        }
    }
}

} // verus!
