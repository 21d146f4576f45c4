//! The viewport: a terminal of fixed size, and the commands that draw a frame
//! on it. Commands are queued and handed out on `flush`, for the caller to write
//! to the terminal.
use vstd::prelude::*;

use crate::row::{copy_range, render_of, str_chars, Row};

verus! {

/// The banner shown over an empty buffer.
pub const WELCOME: &'static str = "Kuoiea's editor --version 0.1.0";

/// The marker drawn on a screen row below the end of the text.
pub const FILLER: char = '~';

/// A position: a column `x` and a row `y`.
#[derive(Clone, Copy, Debug, PartialEq, Eq, Structural)]
pub struct Position {
    pub x: usize,
    pub y: usize,
}

/// One terminal command.
#[derive(Debug, PartialEq, Eq)]
pub enum Command {
    /// Clear the whole screen.
    Clear,
    /// Move the terminal cursor to column `col` of screen row `row`.
    MoveTo { col: u16, row: u16 },
    /// Write the characters at the terminal cursor.
    Print(Vec<char>),
}

/// What a `Command` does, as a mathematical value.
pub enum CommandView {
    Clear,
    MoveTo(nat, nat),
    Print(Seq<char>),
}

impl View for Command {
    type V = CommandView;

    open spec fn view(&self) -> CommandView {
        match self {
            Command::Clear => CommandView::Clear,
            Command::MoveTo { col, row } => CommandView::MoveTo(*col as nat, *row as nat),
            Command::Print(text) => CommandView::Print(text@),
        }
    }
}

/// The commands of a sequence, as mathematical values.
pub open spec fn commands_view(cmds: Seq<Command>) -> Seq<CommandView> {
    cmds.map_values(|c: Command| c@)
}

/// The raw text of each row.
pub open spec fn lines_of(rows: Seq<Row>) -> Seq<Seq<char>> {
    rows.map_values(|r: Row| r@)
}

/// The banner, cut to `width` characters.
pub open spec fn banner(width: nat) -> Seq<char> {
    if WELCOME@.len() <= width {
        WELCOME@
    } else {
        WELCOME@.take(width as int)
    }
}

/// The commands that draw the banner, centred, on screen row `r`: a filler
/// marker at column 0 when the banner starts further right, then the banner.
pub open spec fn banner_commands(width: nat, r: nat) -> Seq<CommandView> {
    let text = banner(width);
    let left = ((width - text.len()) / 2) as nat;
    if left > 0 {
        seq![
            CommandView::MoveTo(0, r),
            CommandView::Print(seq![FILLER]),
            CommandView::MoveTo(left, r),
            CommandView::Print(text),
        ]
    } else {
        seq![CommandView::MoveTo(0, r), CommandView::Print(text)]
    }
}

/// The commands that draw screen row `r` of a frame over `lines`, scrolled to
/// row `rowoff` and rendered column `coloff`.
pub open spec fn row_commands(
    lines: Seq<Seq<char>>,
    rowoff: nat,
    coloff: nat,
    width: nat,
    height: nat,
    r: nat,
) -> Seq<CommandView> {
    let filerow = r + rowoff;
    if filerow >= lines.len() {
        if lines.len() == 0 && r == height / 3 {
            banner_commands(width, r)
        } else {
            seq![CommandView::MoveTo(0, r), CommandView::Print(seq![FILLER])]
        }
    } else {
        let text = render_of(lines[filerow as int]);
        if text.len() < coloff {
            seq![]
        } else {
            let end: int = if coloff + width <= text.len() {
                (coloff + width) as int
            } else {
                text.len() as int
            };
            seq![
                CommandView::MoveTo(0, r),
                CommandView::Print(text.subrange(coloff as int, end)),
            ]
        }
    }
}

/// The commands that draw the first `n` screen rows of a frame, top to bottom.
pub open spec fn frame_rows(
    lines: Seq<Seq<char>>,
    rowoff: nat,
    coloff: nat,
    width: nat,
    height: nat,
    n: nat,
) -> Seq<CommandView>
    decreases n,
{
    if n == 0 {
        seq![]
    } else {
        frame_rows(lines, rowoff, coloff, width, height, (n - 1) as nat) + row_commands(
            lines,
            rowoff,
            coloff,
            width,
            height,
            (n - 1) as nat,
        )
    }
}

/// A terminal of fixed size and the commands queued for it.
pub struct Screen {
    width: u16,
    height: u16,
    queue: Vec<Command>,
}

/// A screen as a mathematical value.
pub struct ScreenView {
    pub width: u16,
    pub height: u16,
    pub queue: Seq<CommandView>,
}

impl View for Screen {
    type V = ScreenView;

    closed spec fn view(&self) -> ScreenView {
        ScreenView {
            width: self.width,
            height: self.height,
            queue: commands_view(self.queue@),
        }
    }
}

impl Screen {
    /// A screen of `width` columns and `height` rows, with nothing queued.
    pub fn new(width: u16, height: u16) -> (s: Screen)
        ensures
            s@.width == width,
            s@.height == height,
            s@.queue == Seq::<CommandView>::empty(),
    {
        let s = Screen { width, height, queue: Vec::new() };
        assert(s@.queue =~= Seq::<CommandView>::empty());
        s
    }

    fn push(&mut self, cmd: Command)
        ensures
            final(self)@ == (ScreenView { queue: old(self)@.queue.push(cmd@), ..old(self)@ }),
    {
        self.queue.push(cmd);
        assert(commands_view(self.queue@) =~= commands_view(old(self).queue@).push(cmd@));
    }

    /// Queues the commands that draw the banner on screen row `r`.
    fn draw_banner(&mut self, r: u16)
        ensures
            final(self)@ == (ScreenView {
                queue: old(self)@.queue + banner_commands(old(self)@.width as nat, r as nat),
                ..old(self)@
            }),
    {
        let ghost start = self@.queue;
        let welcome = str_chars(WELCOME);
        let width = self.width as usize;
        let cut = if welcome.len() <= width {
            welcome.len()
        } else {
            width
        };
        let text = copy_range(&welcome, 0, cut);
        assert(text@ == banner(width as nat)) by {
            if welcome@.len() <= width {
                assert(welcome@.subrange(0, cut as int) =~= welcome@);
            }
        }
        let left = (width - cut) / 2;
        if left > 0 {
            let filler = vec![FILLER];
            assert(filler@ =~= seq![FILLER]);
            self.push(Command::MoveTo { col: 0, row: r });
            self.push(Command::Print(filler));
            self.push(Command::MoveTo { col: left as u16, row: r });
            self.push(Command::Print(text));
        } else {
            self.push(Command::MoveTo { col: 0, row: r });
            self.push(Command::Print(text));
        }
        assert(self@.queue =~= start + banner_commands(width as nat, r as nat));
    }

    /// Queues the commands that draw a frame of `rows`, scrolled so that file row
    /// `rowoff` is at the top and rendered column `coloff` at the left.
    pub fn draw_rows(&mut self, rows: &[Row], rowoff: usize, coloff: usize)
        ensures
            final(self)@ == (ScreenView {
                queue: old(self)@.queue + frame_rows(
                    lines_of(rows@),
                    rowoff as nat,
                    coloff as nat,
                    old(self)@.width as nat,
                    old(self)@.height as nat,
                    old(self)@.height as nat,
                ),
                ..old(self)@
            }),
    {
        let ghost start = self@;
        let ghost lines = lines_of(rows@);
        let width = self.width as usize;
        let height = self.height;
        let mut r: u16 = 0;
        while r < height
            invariant
                r <= height,
                height == start.height,
                width == start.width,
                lines == lines_of(rows@),
                self@ == (ScreenView {
                    queue: start.queue + frame_rows(
                        lines,
                        rowoff as nat,
                        coloff as nat,
                        start.width as nat,
                        start.height as nat,
                        r as nat,
                    ),
                    ..start
                }),
            decreases height - r,
        {
            let ghost before = self@.queue;
            let past_end = rowoff >= rows.len() || r as usize >= rows.len() - rowoff;
            if past_end {
                if rows.len() == 0 && r == height / 3 {
                    self.draw_banner(r);
                } else {
                    let filler = vec![FILLER];
                    assert(filler@ =~= seq![FILLER]);
                    self.push(Command::MoveTo { col: 0, row: r });
                    self.push(Command::Print(filler));
                }
            } else {
                let filerow = r as usize + rowoff;
                assert(lines[filerow as int] == rows@[filerow as int]@);
                let text = rows[filerow].rendered();
                if text.len() >= coloff {
                    let end = if text.len() - coloff >= width {
                        coloff + width
                    } else {
                        text.len()
                    };
                    self.push(Command::MoveTo { col: 0, row: r });
                    self.push(Command::Print(copy_range(text, coloff, end)));
                }
            }
            assert(self@.queue =~= before + row_commands(
                lines,
                rowoff as nat,
                coloff as nat,
                start.width as nat,
                start.height as nat,
                r as nat,
            ));
            assert(start.queue + frame_rows(
                lines,
                rowoff as nat,
                coloff as nat,
                start.width as nat,
                start.height as nat,
                (r + 1) as nat,
            ) =~= before + row_commands(
                lines,
                rowoff as nat,
                coloff as nat,
                start.width as nat,
                start.height as nat,
                r as nat,
            ));
            r += 1;
        }
    }

    /// Queues the commands that clear the screen and put the cursor at its top left.
    pub fn clear(&mut self)
        ensures
            final(self)@ == (ScreenView {
                queue: old(self)@.queue + seq![CommandView::Clear, CommandView::MoveTo(0, 0)],
                ..old(self)@
            }),
    {
        let ghost start = self@.queue;
        self.push(Command::Clear);
        self.push(Command::MoveTo { col: 0, row: 0 });
        assert(self@.queue =~= start + seq![CommandView::Clear, CommandView::MoveTo(0, 0)]);
    }

    /// Hands out the queued commands, in the order they were queued, and empties
    /// the queue.
    pub fn flush(&mut self) -> (cmds: Vec<Command>)
        ensures
            commands_view(cmds@) == old(self)@.queue,
            final(self)@ == (ScreenView { queue: Seq::<CommandView>::empty(), ..old(self)@ }),
    {
        let mut cmds: Vec<Command> = Vec::new();
        std::mem::swap(&mut cmds, &mut self.queue);
        assert(commands_view(self.queue@) =~= Seq::<CommandView>::empty());
        cmds
    }

    /// Queues a move of the terminal cursor to where text position `pos`, at
    /// rendered column `render_x`, shows on a screen scrolled to `rowoff` and
    /// `coloff`.
    pub fn move_to(&mut self, pos: Position, rowoff: usize, coloff: usize, render_x: usize)
        requires
            coloff <= render_x,
            render_x - coloff <= u16::MAX,
            rowoff <= pos.y,
            pos.y - rowoff <= u16::MAX,
        ensures
            final(self)@ == (ScreenView {
                queue: old(self)@.queue.push(
                    CommandView::MoveTo((render_x - coloff) as nat, (pos.y - rowoff) as nat),
                ),
                ..old(self)@
            }),
    {
        self.push(Command::MoveTo { col: (render_x - coloff) as u16, row: (pos.y - rowoff) as u16 });
    }

    /// The size of the screen: `x` columns and `y` rows.
    pub fn bounds(&self) -> (p: Position)
        ensures
            p.x == self@.width,
            p.y == self@.height,
    {
        Position { x: self.width as usize, y: self.height as usize }
    }
}

} // verus!
