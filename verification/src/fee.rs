//! The browser's state and its transitions: one state, changed by one
//! input at a time.

use vstd::prelude::*;
use crate::config::Config;
use crate::input::{command, Command, Input};
use crate::item::{Item, ItemType};
use crate::listing::{get_cwd_contents, get_cwd_contents_spec, ListError, RawEntry};
use crate::path::{path_join, path_parent};
use crate::state::{ActionView, FeeView};

verus! {

/// What the caller has to do after a transition.
#[derive(Debug)]
pub enum Action {
    /// Nothing, not even a redraw: the session is not running.
    Ignore,
    /// Redraw the screen.
    Redraw,
    /// The browser entered a directory: read its entries, hand them to
    /// `load`, and redraw.
    Reload,
    /// Open the file at `path` in an editor, and redraw. Where `probe` is
    /// set, the editor depends on whether the file is text.
    Open { path: String, probe: bool },
    /// Redraw the screen a last time, and end the session.
    Quit,
}

impl View for Action {
    type V = ActionView;

    open spec fn view(&self) -> ActionView {
        match *self {
            Action::Ignore => ActionView::Ignore,
            Action::Redraw => ActionView::Redraw,
            Action::Reload => ActionView::Reload,
            Action::Open { path, probe } => ActionView::Open { path: path@, probe },
            Action::Quit => ActionView::Quit,
        }
    }
}

/// The browser: where it is, what is listed there, which entry is selected
/// and which row is the first on screen.
pub struct Fee {
    listening: bool,
    cwd: String,
    config: Config,
    selection: usize,
    scroll: usize,
    current_contents: Vec<Item>,
}

impl View for Fee {
    type V = FeeView;

    closed spec fn view(&self) -> FeeView {
        FeeView {
            listening: self.listening,
            cwd: self.cwd@,
            config: self.config,
            selection: self.selection as nat,
            scroll: self.scroll as nat,
            contents: self.current_contents@,
        }
    }
}

impl Fee {
    #[verifier::type_invariant]
    spec fn inv(&self) -> bool {
        self@.wf()
    }

    /// A browser at `cwd` that is not listening yet and has nothing listed.
    pub fn new(cwd: String, config: Config) -> (r: Fee)
        ensures
            r@ == (FeeView {
                listening: false,
                cwd: cwd@,
                config,
                selection: 0,
                scroll: 0,
                contents: Seq::empty(),
            }),
            r@.wf(),
    {
        Fee { listening: false, cwd, config, selection: 0, scroll: 0, current_contents: Vec::new() }
    }

    /// Whether the session is running.
    pub fn listening(&self) -> (r: bool)
        ensures
            r == self@.listening,
            self@.wf(),
    {
        proof {
            use_type_invariant(self);
        }
        self.listening
    }

    /// The directory that is shown.
    pub fn cwd(&self) -> (r: &String)
        ensures
            r@ == self@.cwd,
            self@.wf(),
    {
        proof {
            use_type_invariant(self);
        }
        &self.cwd
    }

    /// The preferences in use.
    pub fn config(&self) -> (r: &Config)
        ensures
            *r == self@.config,
            self@.wf(),
    {
        proof {
            use_type_invariant(self);
        }
        &self.config
    }

    /// The index of the selected entry.
    pub fn selection(&self) -> (r: usize)
        ensures
            r == self@.selection,
            self@.wf(),
    {
        proof {
            use_type_invariant(self);
        }
        self.selection
    }

    /// The index of the entry on the first row.
    pub fn scroll(&self) -> (r: usize)
        ensures
            r == self@.scroll,
            self@.wf(),
    {
        proof {
            use_type_invariant(self);
        }
        self.scroll
    }

    /// The listing that is shown.
    pub fn current_contents(&self) -> (r: &Vec<Item>)
        ensures
            r@ == self@.contents,
            self@.wf(),
    {
        proof {
            use_type_invariant(self);
        }
        &self.current_contents
    }

    /// Starts the session: from now on inputs are handled.
    pub fn listen(&mut self)
        ensures
            final(self)@ == (FeeView { listening: true, ..old(self)@ }),
            final(self)@.wf(),
    {
        proof {
            use_type_invariant(&*self);
        }
        self.listening = true;
    }

    /// Moves the selection up by one; from the first entry it wraps to the
    /// last. The window of `height` rows follows the selection.
    pub fn move_up(&mut self, height: u16)
        ensures
            final(self)@ == old(self)@.move_up(height as nat),
            final(self)@.wf(),
    {
        proof {
            use_type_invariant(&*self);
        }
        let len = self.current_contents.len();
        if len == 0 {
            return ;
        }
        if self.selection == 0 {
            self.selection = len - 1;
            self.scroll = if len >= height as usize {
                len - height as usize
            } else {
                0
            };
        } else {
            if self.scroll >= self.selection {
                self.scroll -= 1;
            }
            self.selection -= 1;
        }
    }

    /// Moves the selection down by one; from the last entry it wraps to
    /// the first. The window of `height` rows follows the selection.
    pub fn move_down(&mut self, height: u16)
        ensures
            final(self)@ == old(self)@.move_down(height as nat),
            final(self)@.wf(),
    {
        proof {
            use_type_invariant(&*self);
        }
        let len = self.current_contents.len();
        if len == 0 {
            return ;
        }
        if self.selection >= len - 1 {
            self.scroll = 0;
            self.selection = 0;
        } else {
            self.selection += 1;
            if self.selection - self.scroll >= height as usize {
                self.scroll += 1;
            }
        }
    }

    /// Goes to the directory `path`: the first row is selected and on top,
    /// and the listing is empty until `load` fills it.
    pub fn enter(&mut self, path: String)
        ensures
            final(self)@ == old(self)@.enter(path@),
            final(self)@.wf(),
    {
        proof {
            use_type_invariant(&*self);
        }
        self.scroll = 0;
        self.selection = 0;
        self.current_contents = Vec::new();
        self.cwd = path;
    }

    /// Takes the raw entries of the current directory and shows their
    /// listing, with the first row selected and on top. Where an entry is
    /// bad, the error says which, and nothing changes.
    pub fn load(&mut self, raw: &Vec<RawEntry>) -> (r: Result<(), ListError>)
        ensures
            r == match get_cwd_contents_spec(raw@) {
                Ok(_) => Ok::<(), ListError>(()),
                Err(e) => Err(e),
            },
            final(self)@ == match get_cwd_contents_spec(raw@) {
                Ok(listing) => old(self)@.load(listing),
                Err(_) => old(self)@,
            },
            final(self)@.wf(),
    {
        proof {
            use_type_invariant(&*self);
        }
        match get_cwd_contents(raw) {
            Ok(items) => {
                self.scroll = 0;
                self.selection = 0;
                self.current_contents = items;
                Ok(())
            },
            Err(e) => Err(e),
        }
    }

    /// Goes back to the parent directory, if the current one has a parent,
    /// and asks for its listing; otherwise nothing changes.
    pub fn go_back(&mut self) -> (r: Action)
        ensures
            final(self)@ == old(self)@.go_back(),
            final(self)@.wf(),
            r@ == old(self)@.go_back_action(),
    {
        proof {
            use_type_invariant(&*self);
        }
        match path_parent(self.cwd.as_str()) {
            Some(parent) => {
                self.enter(parent);
                Action::Reload
            },
            None => Action::Redraw,
        }
    }

    /// Activates the selected entry. A directory is entered and its
    /// listing asked for. A file is to be opened: the action carries its
    /// path and says whether its content decides the editor. With nothing
    /// listed, nothing happens.
    pub fn select(&mut self) -> (r: Action)
        ensures
            final(self)@ == old(self)@.select(),
            final(self)@.wf(),
            r@ == old(self)@.select_action(),
    {
        proof {
            use_type_invariant(&*self);
        }
        if self.selection >= self.current_contents.len() {
            return Action::Redraw;
        }
        let item = &self.current_contents[self.selection];
        let path = path_join(self.cwd.as_str(), item.name.as_str());
        match item.item_type {
            ItemType::Directory => {
                self.enter(path);
                Action::Reload
            },
            ItemType::File => Action::Open { path, probe: self.config.needs_probe() },
        }
    }

    /// Handles one input in a window of `height` rows and says what the
    /// caller has to do. Pressing Up and Down moves the selection, Enter
    /// and Right activate it, Esc and Left go back, Control-c ends the
    /// session; every other input changes nothing and is followed by a
    /// redraw. While the session is not running, before `listen` and after
    /// it ended, an input changes nothing and asks for nothing.
    pub fn handle_keypress(&mut self, input: Input, height: u16) -> (r: Action)
        ensures
            final(self)@ == old(self)@.handle_keypress(input, height as nat),
            final(self)@.wf(),
            r@ == old(self)@.action(input),
    {
        proof {
            use_type_invariant(&*self);
        }
        if !self.listening {
            return Action::Ignore;
        }
        match command(input) {
            Command::MoveUp => {
                self.move_up(height);
                Action::Redraw
            },
            Command::MoveDown => {
                self.move_down(height);
                Action::Redraw
            },
            Command::Activate => self.select(),
            Command::GoBack => self.go_back(),
            Command::Quit => {
                self.listening = false;
                Action::Quit
            },
            Command::Nothing => Action::Redraw,
        }
    }
}

} // verus!
