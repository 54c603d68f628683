//! The browser's state as a mathematical value, the transitions on it, and
//! what holds of them.

use vstd::prelude::*;
use crate::config::Config;
use crate::input::{command_of, Command, Input};
use crate::item::{Item, ItemType};
use crate::listing::{first_bad, listing_of, RawEntry};
use crate::path::{joined_path, parent_path};

verus! {

/// The browser's state as a mathematical value.
pub struct FeeView {
    pub listening: bool,
    pub cwd: Seq<char>,
    pub config: Config,
    pub selection: nat,
    pub scroll: nat,
    pub contents: Seq<Item>,
}

/// What the caller has to do after a transition, as a mathematical value.
pub enum ActionView {
    /// Nothing: the session is not running.
    Ignore,
    Redraw,
    Reload,
    Open { path: Seq<char>, probe: bool },
    Quit,
}

impl FeeView {
    /// The selection is an index into the listing, or 0 where the listing
    /// is empty, and the first visible row is at most one past it.
    pub open spec fn wf(self) -> bool {
        if self.contents.len() == 0 {
            self.selection == 0 && self.scroll == 0
        } else {
            self.selection < self.contents.len() && self.scroll <= self.selection + 1
        }
    }

    /// The selection is among the `height` rows that start at `scroll`.
    pub open spec fn selection_visible(self, height: nat) -> bool {
        self.scroll <= self.selection < self.scroll + height
    }

    /// The first visible row after the selection wrapped to the last
    /// entry: the listing's last `height` rows are shown.
    pub open spec fn last_page(self, height: nat) -> nat {
        if self.contents.len() >= height {
            (self.contents.len() - height) as nat
        } else {
            0
        }
    }

    /// The state after moving the selection up by one, in a window of
    /// `height` rows.
    pub open spec fn move_up(self, height: nat) -> FeeView {
        if self.contents.len() == 0 {
            self
        } else if self.selection == 0 {
            FeeView {
                selection: (self.contents.len() - 1) as nat,
                scroll: self.last_page(height),
                ..self
            }
        } else {
            FeeView {
                selection: (self.selection - 1) as nat,
                scroll: if self.scroll >= self.selection {
                    (self.scroll - 1) as nat
                } else {
                    self.scroll
                },
                ..self
            }
        }
    }

    /// The state after moving the selection down by one, in a window of
    /// `height` rows.
    pub open spec fn move_down(self, height: nat) -> FeeView {
        if self.contents.len() == 0 {
            self
        } else if self.selection + 1 >= self.contents.len() {
            FeeView { selection: 0, scroll: 0, ..self }
        } else {
            FeeView {
                selection: self.selection + 1,
                scroll: if self.selection + 1 >= self.scroll + height {
                    self.scroll + 1
                } else {
                    self.scroll
                },
                ..self
            }
        }
    }

    /// The state after the browser went to the directory `path`: the first
    /// row is selected and on top, and the old listing is gone.
    pub open spec fn enter(self, path: Seq<char>) -> FeeView {
        FeeView { cwd: path, selection: 0, scroll: 0, contents: Seq::empty(), ..self }
    }

    /// The state after `listing` was loaded: the first row is selected and
    /// on top.
    pub open spec fn load(self, listing: Seq<Item>) -> FeeView {
        FeeView { selection: 0, scroll: 0, contents: listing, ..self }
    }

    /// The selected entry, if the listing has one.
    pub open spec fn selected(self) -> Option<Item> {
        if self.selection < self.contents.len() {
            Some(self.contents[self.selection as int])
        } else {
            None
        }
    }

    /// The path of the selected entry.
    pub open spec fn selected_path(self) -> Seq<char>
        recommends
            self.selected() is Some,
    {
        joined_path(self.cwd, self.selected().unwrap().name@)
    }

    /// The state after the selected entry was activated: a directory is
    /// entered, a file changes nothing.
    pub open spec fn select(self) -> FeeView {
        match self.selected() {
            Some(item) => if item.item_type == ItemType::Directory {
                self.enter(self.selected_path())
            } else {
                self
            },
            None => self,
        }
    }

    /// What activating the selected entry asks for: the listing of the
    /// directory that was entered, or the opening of the selected file,
    /// with a probe of its content where the two editors differ; a redraw
    /// where nothing is listed.
    pub open spec fn select_action(self) -> ActionView {
        match self.selected() {
            Some(item) => if item.item_type == ItemType::Directory {
                ActionView::Reload
            } else {
                ActionView::Open {
                    path: self.selected_path(),
                    probe: self.config.editors_differ(),
                }
            },
            None => ActionView::Redraw,
        }
    }

    /// The state after going back: the parent directory is entered, where
    /// there is one.
    pub open spec fn go_back(self) -> FeeView {
        match parent_path(self.cwd) {
            Some(parent) => self.enter(parent),
            None => self,
        }
    }

    /// What going back asks for: the listing of the parent directory, or
    /// a redraw where there is no parent.
    pub open spec fn go_back_action(self) -> ActionView {
        match parent_path(self.cwd) {
            Some(_) => ActionView::Reload,
            None => ActionView::Redraw,
        }
    }

    /// What an input asks the caller to do. While the browser listens,
    /// every input is followed by a redraw at least; an input without a
    /// meaning by a redraw alone. While it does not listen, nothing is
    /// asked for.
    pub open spec fn action(self, input: Input) -> ActionView {
        if !self.listening {
            ActionView::Ignore
        } else {
            match command_of(input) {
                Command::MoveUp | Command::MoveDown | Command::Nothing => ActionView::Redraw,
                Command::Activate => self.select_action(),
                Command::GoBack => self.go_back_action(),
                Command::Quit => ActionView::Quit,
            }
        }
    }

    /// The state after one input, in a window of `height` rows. Once the
    /// browser has stopped listening, nothing changes it.
    pub open spec fn handle_keypress(self, input: Input, height: nat) -> FeeView {
        if !self.listening {
            self
        } else {
            match command_of(input) {
                Command::MoveUp => self.move_up(height),
                Command::MoveDown => self.move_down(height),
                Command::Activate => self.select(),
                Command::GoBack => self.go_back(),
                Command::Quit => FeeView { listening: false, ..self },
                Command::Nothing => self,
            }
        }
    }
}

/// Moving up and then down, or down and then up, brings the selection
/// back to where it was.
pub proof fn lemma_up_and_down_cancel(s: FeeView, h1: nat, h2: nat)
    requires
        s.wf(),
    ensures
        s.move_up(h1).move_down(h2).selection == s.selection,
        s.move_down(h1).move_up(h2).selection == s.selection,
{
}

/// Moving up from the first entry selects the last one and shows the last
/// page; moving down from the last entry selects the first one and shows
/// the first page.
pub proof fn lemma_wraparound(s: FeeView, height: nat)
    requires
        s.wf(),
        s.contents.len() > 0,
    ensures
        s.selection == 0 ==> s.move_up(height).selection == s.contents.len() - 1,
        s.selection == 0 ==> s.move_up(height).scroll == s.last_page(height),
        s.selection == s.contents.len() - 1 ==> s.move_down(height).selection == 0,
        s.selection == s.contents.len() - 1 ==> s.move_down(height).scroll == 0,
        height >= 1 && s.selection == 0 ==> s.move_up(height).selection_visible(height),
        height >= 1 && s.selection == s.contents.len() - 1 ==> s.move_down(
            height,
        ).selection_visible(height),
{
}

/// Every transition keeps the state well-formed.
pub proof fn lemma_transitions_keep_wf(s: FeeView, input: Input, height: nat)
    requires
        s.wf(),
    ensures
        s.move_up(height).wf(),
        s.move_down(height).wf(),
        s.select().wf(),
        s.go_back().wf(),
        s.handle_keypress(input, height).wf(),
{
}

/// In a window of at least one row, a selection that is visible stays
/// visible through every input, as long as anything is listed; and the
/// first visible row never passes the selection.
pub proof fn lemma_selection_stays_visible(s: FeeView, input: Input, height: nat)
    requires
        s.wf(),
        height >= 1,
        s.contents.len() > 0 ==> s.selection_visible(height),
    ensures
        ({
            let t = s.handle_keypress(input, height);
            t.contents.len() > 0 ==> t.selection_visible(height)
        }),
        s.move_up(height).contents.len() > 0 ==> s.move_up(height).selection_visible(height),
        s.move_down(height).contents.len() > 0 ==> s.move_down(height).selection_visible(height),
{
}

/// In a window of at least one row, the selection is visible after a move
/// exactly when the move wrapped around or the selection was not too far
/// outside the window before: at most one row below it for a move up, and
/// not below it for a move down.
pub proof fn lemma_visible_after_move(s: FeeView, height: nat)
    requires
        s.wf(),
        height >= 1,
        s.contents.len() > 0,
    ensures
        s.move_up(height).selection_visible(height) <==> (s.selection == 0 || s.scroll
            <= s.selection <= s.scroll + height),
        s.move_down(height).selection_visible(height) <==> (s.selection + 1 == s.contents.len()
            || s.selection < s.scroll + height),
{
}

/// After a listing that is not empty was loaded, the selection is visible
/// in every window of at least one row.
pub proof fn lemma_loaded_is_visible(s: FeeView, listing: Seq<Item>, height: nat)
    requires
        height >= 1,
        listing.len() > 0,
    ensures
        s.load(listing).wf(),
        s.load(listing).selection_visible(height),
{
}

/// While the browser listens, an input that is no key press, and a press
/// of a key without a meaning, change nothing and are followed by a
/// redraw.
pub proof fn lemma_other_input_only_redraws(s: FeeView, input: Input, height: nat)
    requires
        s.listening,
    ensures
        input is Other ==> command_of(input) == Command::Nothing,
        input matches Input::Key(k) && !k.pressed ==> command_of(input) == Command::Nothing,
        command_of(input) == Command::Nothing ==> s.handle_keypress(input, height) == s
            && s.action(input) == ActionView::Redraw,
{
}

/// While the browser listens, every input is followed by a redraw: alone,
/// or after a listing was loaded or a file was opened, or as the session
/// ends.
pub proof fn lemma_listening_never_ignores(s: FeeView, input: Input)
    requires
        s.listening,
    ensures
        !(s.action(input) is Ignore),
{
}

/// Going back from a directory without a parent changes nothing.
pub proof fn lemma_go_back_without_parent(s: FeeView, input: Input, height: nat)
    requires
        parent_path(s.cwd) is None,
    ensures
        s.go_back() == s,
        command_of(input) == Command::GoBack ==> s.handle_keypress(input, height) == s,
{
}

/// Activating a directory and loading its entries leaves the browser in
/// that directory, with its listing shown and the first row selected and
/// on top.
pub proof fn lemma_activate_directory(s: FeeView, raw: Seq<RawEntry>)
    requires
        s.wf(),
        s.selected() is Some,
        s.selected().unwrap().item_type == ItemType::Directory,
        first_bad(raw) is None,
    ensures
        ({
            let t = s.select().load(listing_of(raw));
            &&& t.cwd == joined_path(s.cwd, s.selected().unwrap().name@)
            &&& t.selection == 0
            &&& t.scroll == 0
            &&& t.contents == listing_of(raw)
            &&& t.config == s.config
            &&& t.listening == s.listening
        }),
        s.select().contents.len() == 0,
{
}

} // verus!
