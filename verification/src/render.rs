//! What is painted: the terminal commands that show the rows of the
//! listing that fall into the window.

use vstd::prelude::*;
use crate::config::Rgb;
use crate::fee::Fee;
use crate::item::ItemType;
use crate::state::FeeView;

verus! {

/// A colour of the terminal.
#[derive(Clone, Copy, Debug, PartialEq, Eq, Structural)]
pub enum Color {
    /// The terminal's own colour.
    Reset,
    Black,
    White,
    Rgb(Rgb),
}

/// One command to the terminal.
#[derive(Debug, PartialEq, Eq)]
pub enum Draw {
    /// Clear the whole screen.
    Clear,
    /// Put the cursor at column `x` of row `y`.
    MoveTo { x: u16, y: u16 },
    SetForegroundColor(Color),
    SetBackgroundColor(Color),
    /// Go back to the terminal's own colours.
    ResetColor,
    /// Write text at the cursor.
    Print(String),
    ShowCursor,
    HideCursor,
}

/// The commands that take the screen for the browser: it is cleared, and
/// the cursor is hidden and put at the origin.
pub open spec fn prepare_commands() -> Seq<Draw> {
    seq![Draw::Clear, Draw::HideCursor, Draw::MoveTo { x: 0, y: 0 }]
}

/// The commands that give the screen back: it is cleared, the cursor is
/// shown and put at the origin, and the colours are reset.
pub open spec fn cleanup_commands() -> Seq<Draw> {
    seq![Draw::Clear, Draw::ShowCursor, Draw::MoveTo { x: 0, y: 0 }, Draw::ResetColor]
}

/// The commands that write `text` at column `x` of row `y` in `color`; a
/// highlighted line is black on white, and gives the background back.
pub open spec fn print_line_spec(
    text: String,
    x: u16,
    y: u16,
    color: Rgb,
    highlighted: bool,
) -> Seq<Draw> {
    if highlighted {
        seq![
            Draw::MoveTo { x, y },
            Draw::SetForegroundColor(Color::Rgb(color)),
            Draw::SetBackgroundColor(Color::White),
            Draw::SetForegroundColor(Color::Black),
            Draw::Print(text),
            Draw::SetBackgroundColor(Color::Reset),
        ]
    } else {
        seq![
            Draw::MoveTo { x, y },
            Draw::SetForegroundColor(Color::Rgb(color)),
            Draw::Print(text),
        ]
    }
}

impl FeeView {
    /// How many rows of the listing fall into a window of `height` rows.
    pub open spec fn visible_rows(self, height: nat) -> nat {
        if self.scroll >= self.contents.len() {
            0
        } else if self.contents.len() - self.scroll >= height {
            height
        } else {
            (self.contents.len() - self.scroll) as nat
        }
    }

    /// The commands that paint terminal row `y`: the name of the entry at
    /// `scroll + y`, in the colour of its kind, highlighted where it is the
    /// selection.
    pub open spec fn row(self, y: int) -> Seq<Draw> {
        let item = self.contents[self.scroll + y];
        print_line_spec(
            item.name,
            0,
            y as u16,
            if item.item_type == ItemType::File {
                self.config.file_rgb_spec()
            } else {
                self.config.dir_rgb_spec()
            },
            self.selection == self.scroll + y,
        )
    }

    /// The commands that paint the first `n` terminal rows, from the top.
    pub open spec fn rows(self, n: nat) -> Seq<Draw>
        decreases n,
    {
        if n == 0 {
            Seq::empty()
        } else {
            self.rows((n - 1) as nat) + self.row(n - 1)
        }
    }

    /// The commands that paint the listing in a window of `height` rows:
    /// the visible rows from the top, then the colours are reset.
    pub open spec fn draw_text(self, height: nat) -> Seq<Draw> {
        self.rows(self.visible_rows(height)) + seq![Draw::ResetColor]
    }

    /// The commands of a redraw: the screen is cleared, the listing is
    /// painted, and the cursor goes back to the origin.
    pub open spec fn update(self, height: nat) -> Seq<Draw> {
        seq![Draw::Clear, Draw::MoveTo { x: 0, y: 0 }, Draw::ResetColor] + self.draw_text(height)
            + seq![Draw::MoveTo { x: 0, y: 0 }]
    }
}

/// The height of the window: the terminal's rows but the one that is kept
/// free.
pub fn get_terminal_height(terminal_rows: u16) -> (r: u16)
    requires
        terminal_rows >= 1,
    ensures
        r == terminal_rows - 1,
{
    terminal_rows - 1
}

/// The commands to send before the terminal enters raw mode.
pub fn prepare_terminal() -> (r: Vec<Draw>)
    ensures
        r@ == prepare_commands(),
{
    let mut out: Vec<Draw> = Vec::new();
    out.push(Draw::Clear);
    out.push(Draw::HideCursor);
    out.push(Draw::MoveTo { x: 0, y: 0 });
    assert(out@ =~= prepare_commands());
    out
}

/// The commands to send before the terminal leaves raw mode.
pub fn cleanup_terminal() -> (r: Vec<Draw>)
    ensures
        r@ == cleanup_commands(),
{
    let mut out: Vec<Draw> = Vec::new();
    out.push(Draw::Clear);
    out.push(Draw::ShowCursor);
    out.push(Draw::MoveTo { x: 0, y: 0 });
    out.push(Draw::ResetColor);
    assert(out@ =~= cleanup_commands());
    out
}

/// Adds to `out` the commands that write `text` at column `x` of row `y`
/// in `color`, highlighted or not.
pub fn print_line(out: &mut Vec<Draw>, text: &String, x: u16, y: u16, color: Rgb, highlighted: bool)
    ensures
        final(out)@ == old(out)@ + print_line_spec(*text, x, y, color, highlighted),
{
    let ghost before = out@;
    out.push(Draw::MoveTo { x, y });
    out.push(Draw::SetForegroundColor(Color::Rgb(color)));
    if highlighted {
        out.push(Draw::SetBackgroundColor(Color::White));
        out.push(Draw::SetForegroundColor(Color::Black));
    }
    out.push(Draw::Print(text.clone()));
    if highlighted {
        out.push(Draw::SetBackgroundColor(Color::Reset));
    }
    assert(out@ =~= before + print_line_spec(*text, x, y, color, highlighted));
}

impl Fee {
    /// Adds to `out` the commands that paint the listing in a window of
    /// `height` rows: the entries from `scroll` on, as many as are listed
    /// and fit, each at the terminal row of its distance from `scroll`.
    pub fn draw_text(&self, out: &mut Vec<Draw>, height: u16)
        ensures
            final(out)@ == old(out)@ + self@.draw_text(height as nat),
    {
        let ghost before = out@;
        let contents = self.current_contents();
        let scroll = self.scroll();
        let selection = self.selection();
        let dir_color = self.config().dir_rgb();
        let file_color = self.config().file_rgb();
        let mut y: u16 = 0;
        assert(out@ =~= before + self@.rows(0));
        while y < height && scroll < contents.len() && y as usize <= contents.len() - scroll - 1
            invariant
                y <= height,
                contents@ == self@.contents,
                scroll == self@.scroll,
                selection == self@.selection,
                dir_color == self@.config.dir_rgb_spec(),
                file_color == self@.config.file_rgb_spec(),
                y <= self@.visible_rows(height as nat),
                out@ == before + self@.rows(y as nat),
            decreases height - y,
        {
            let index = scroll + y as usize;
            let item = &contents[index];
            let color = if item.is_file() {
                file_color
            } else {
                dir_color
            };
            print_line(out, &item.name, 0, y, color, selection == index);
            assert(out@ =~= before + self@.rows((y + 1) as nat));
            y += 1;
        }
        out.push(Draw::ResetColor);
        assert(out@ =~= before + self@.draw_text(height as nat));
    }

    /// The commands of a redraw in a window of `height` rows.
    pub fn update(&self, height: u16) -> (r: Vec<Draw>)
        ensures
            r@ == self@.update(height as nat),
    {
        let mut out: Vec<Draw> = Vec::new();
        out.push(Draw::Clear);
        out.push(Draw::MoveTo { x: 0, y: 0 });
        out.push(Draw::ResetColor);
        self.draw_text(&mut out, height);
        out.push(Draw::MoveTo { x: 0, y: 0 });
        assert(out@ =~= self@.update(height as nat));
        out
    }
}

} // verus!
