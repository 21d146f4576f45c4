//! The cursor and scroll coordinator: the text, the cursor in it, and the part
//! of the text that the screen shows.
use vstd::prelude::*;

use crate::keys::{action_of, key_action, Action, EditorKey, Key};
use crate::row::{render_col, str_chars, Row};
use crate::screen::{
    commands_view, frame_rows, lines_of, CommandView, Command, Position, Screen,
};

verus! {

/// The state of an editor, as a mathematical value.
pub struct EditorState {
    /// The raw text of each line.
    pub lines: Seq<Seq<char>>,
    /// The cursor's raw column.
    pub x: nat,
    /// The cursor's line.
    pub y: nat,
    /// The line shown at the top of the screen.
    pub rowoff: nat,
    /// The rendered column shown at the left of the screen.
    pub coloff: nat,
    /// The screen's width, in columns.
    pub width: nat,
    /// The screen's height, in rows.
    pub height: nat,
}

/// The number of raw characters on line `y`; none on the line past the end.
pub open spec fn line_len(lines: Seq<Seq<char>>, y: nat) -> nat {
    if y < lines.len() {
        lines[y as int].len()
    } else {
        0
    }
}

/// The cursor stands on a line of the text, or on the line just past its end,
/// and its column lies within that line, counting the place just after its
/// last character.
pub open spec fn in_text(s: EditorState) -> bool {
    &&& s.y <= s.lines.len()
    &&& s.x <= line_len(s.lines, s.y)
}

/// The state with the cursor's column cut to the length of its line.
pub open spec fn clamped(s: EditorState) -> EditorState {
    let n = line_len(s.lines, s.y);
    EditorState { x: if s.x <= n { s.x } else { n }, ..s }
}

/// The state after a one-step movement: up and left stop at zero, down stops at
/// the line past the end of the text, right stops at the end of the line; then
/// the column is cut to the length of the new line.
pub open spec fn moved(s: EditorState, key: EditorKey) -> EditorState {
    let t = match key {
        EditorKey::Up => EditorState { y: if s.y > 0 { (s.y - 1) as nat } else { 0 }, ..s },
        EditorKey::Left => EditorState { x: if s.x > 0 { (s.x - 1) as nat } else { 0 }, ..s },
        EditorKey::Down => if s.y < s.lines.len() {
            EditorState { y: s.y + 1, ..s }
        } else {
            s
        },
        EditorKey::Right => if s.y < s.lines.len() && s.x < line_len(s.lines, s.y) {
            EditorState { x: s.x + 1, ..s }
        } else {
            s
        },
    };
    clamped(t)
}

/// The state after `n` one-step movements `key`.
pub open spec fn moved_times(s: EditorState, key: EditorKey, n: nat) -> EditorState
    decreases n,
{
    if n == 0 {
        s
    } else {
        moved(moved_times(s, key, (n - 1) as nat), key)
    }
}

/// The rendered column of the cursor; zero on the line past the end.
pub open spec fn cursor_rx(s: EditorState) -> nat {
    if s.y < s.lines.len() {
        render_col(s.lines[s.y as int], s.x)
    } else {
        0
    }
}

/// The state with its offsets moved as little as needed to bring the cursor into
/// view: first the rows, up then down, then the rendered columns, left then right.
pub open spec fn scrolled(s: EditorState) -> EditorState {
    let rx = cursor_rx(s);
    let r1 = if s.y < s.rowoff { s.y } else { s.rowoff };
    let r2 = if s.y >= r1 + s.height { (s.y + 1 - s.height) as nat } else { r1 };
    let c1 = if rx < s.coloff { rx } else { s.coloff };
    let c2 = if rx >= c1 + s.width { (rx + 1 - s.width) as nat } else { c1 };
    EditorState { rowoff: r2, coloff: c2, ..s }
}

/// The cursor shows on the screen: its line and its rendered column lie within
/// the rows and columns that the offsets and the screen's size select.
pub open spec fn cursor_visible(s: EditorState) -> bool {
    &&& s.rowoff <= s.y < s.rowoff + s.height
    &&& s.coloff <= cursor_rx(s) < s.coloff + s.width
}

/// The state after action `a`, before scrolling.
pub open spec fn applied(s: EditorState, a: Action) -> EditorState {
    match a {
        Action::Move(k) => moved(s, k),
        Action::Home => EditorState { x: 0, ..s },
        Action::End => EditorState { x: line_len(s.lines, s.y), ..s },
        Action::PageUp => moved_times(s, EditorKey::Up, s.height),
        Action::PageDown => moved_times(s, EditorKey::Down, s.height),
        Action::Quit | Action::Nothing => s,
    }
}

/// The state after a key is handled: its action, then scrolling. A key that
/// quits or does nothing leaves the state as it was.
pub open spec fn after_key(s: EditorState, key: Key) -> EditorState {
    match action_of(key) {
        Action::Quit | Action::Nothing => s,
        a => scrolled(applied(s, a)),
    }
}

/// The state after each of `keys` is handled in turn.
pub open spec fn after_keys(s: EditorState, keys: Seq<Key>) -> EditorState
    decreases keys.len(),
{
    if keys.len() == 0 {
        s
    } else {
        after_key(after_keys(s, keys.drop_last()), keys.last())
    }
}

/// The characters of each string.
pub open spec fn string_views(data: Seq<String>) -> Seq<Seq<char>> {
    data.map_values(|s: String| s@)
}

/// The lines of `text`, split at each newline; a text that ends in a newline
/// ends in an empty line.
pub open spec fn split_lines(text: Seq<char>) -> Seq<Seq<char>>
    decreases text.len(),
{
    if text.len() == 0 {
        seq![seq![]]
    } else {
        let before = split_lines(text.drop_last());
        if text.last() == '\n' {
            before.push(seq![])
        } else {
            before.update(before.len() - 1, before.last().push(text.last()))
        }
    }
}

/// The commands of one frame: clear the screen, draw the rows, and put the
/// terminal cursor where the text cursor shows.
pub open spec fn frame_commands(s: EditorState) -> Seq<CommandView> {
    seq![CommandView::Clear, CommandView::MoveTo(0, 0)] + frame_rows(
        s.lines,
        s.rowoff,
        s.coloff,
        s.width,
        s.height,
        s.height,
    ) + seq![
        CommandView::MoveTo((cursor_rx(s) - s.coloff) as nat, (s.y - s.rowoff) as nat),
    ]
}

proof fn lemma_split_lines_nonempty(text: Seq<char>)
    ensures
        split_lines(text).len() >= 1,
    decreases text.len(),
{
    if text.len() > 0 {
        lemma_split_lines_nonempty(text.drop_last());
    }
}

proof fn lemma_applied_in_text(s: EditorState, a: Action)
    requires
        in_text(s),
    ensures
        in_text(applied(s, a)),
        applied(s, a).lines == s.lines,
        applied(s, a).width == s.width,
        applied(s, a).height == s.height,
{
    match a {
        Action::PageUp => lemma_moved_times_in_text(s, EditorKey::Up, s.height),
        Action::PageDown => lemma_moved_times_in_text(s, EditorKey::Down, s.height),
        _ => {},
    }
}

proof fn lemma_moved_times_in_text(s: EditorState, key: EditorKey, n: nat)
    requires
        in_text(s),
    ensures
        in_text(moved_times(s, key, n)),
        moved_times(s, key, n).lines == s.lines,
        moved_times(s, key, n).width == s.width,
        moved_times(s, key, n).height == s.height,
    decreases n,
{
    if n > 0 {
        lemma_moved_times_in_text(s, key, (n - 1) as nat);
    }
}

proof fn lemma_after_keys(s: EditorState, keys: Seq<Key>)
    requires
        in_text(s),
    ensures
        in_text(after_keys(s, keys)),
        after_keys(s, keys).lines == s.lines,
        after_keys(s, keys).width == s.width,
        after_keys(s, keys).height == s.height,
        s.width > 0 && s.height > 0 && cursor_visible(s) ==> cursor_visible(after_keys(s, keys)),
    decreases keys.len(),
{
    if keys.len() > 0 {
        let prev = after_keys(s, keys.drop_last());
        lemma_after_keys(s, keys.drop_last());
        lemma_applied_in_text(prev, action_of(keys.last()));
    }
}

/// Moving down onto a shorter line brings a cursor that stood further right
/// back to the end of that line; a cursor within its length keeps its column.
pub proof fn lemma_down_clamps_to_shorter_line(s: EditorState)
    requires
        in_text(s),
        s.y + 1 < s.lines.len(),
    ensures
        moved(s, EditorKey::Down).y == s.y + 1,
        moved(s, EditorKey::Down).x == if s.x <= s.lines[(s.y + 1) as int].len() {
            s.x
        } else {
            s.lines[(s.y + 1) as int].len()
        },
{
}

/// Whatever keys are handled, one after another, the cursor stays in the text:
/// never below the line just past the end, never right of the end of its line.
pub proof fn lemma_keys_keep_cursor_in_text(s: EditorState, keys: Seq<Key>)
    requires
        in_text(s),
    ensures
        forall|i: int| 0 <= i <= keys.len() ==> #[trigger] in_text(after_keys(s, keys.take(i))),
{
    assert forall|i: int| 0 <= i <= keys.len() implies #[trigger] in_text(
        after_keys(s, keys.take(i)),
    ) by {
        lemma_after_keys(s, keys.take(i));
    }
}

/// Whatever keys are handled, one after another, from a state whose cursor shows
/// on the screen, after each of them the cursor still shows, in line and in
/// rendered column: a movement scrolls to it, and a key that does nothing leaves
/// the offsets as they were.
pub proof fn lemma_keys_keep_cursor_visible(s: EditorState, keys: Seq<Key>)
    requires
        in_text(s),
        cursor_visible(s),
        s.width > 0,
        s.height > 0,
    ensures
        forall|i: int|
            0 <= i <= keys.len() ==> #[trigger] cursor_visible(after_keys(s, keys.take(i))),
{
    assert forall|i: int| 0 <= i <= keys.len() implies #[trigger] cursor_visible(
        after_keys(s, keys.take(i)),
    ) by {
        lemma_after_keys(s, keys.take(i));
    }
}

/// An editor: the text, the cursor, and the screen that shows them.
pub struct Editor {
    screen: Screen,
    cursor: Position,
    rows: Vec<Row>,
    rowoff: usize,
    coloff: usize,
}

impl View for Editor {
    type V = EditorState;

    closed spec fn view(&self) -> EditorState {
        EditorState {
            lines: lines_of(self.rows@),
            x: self.cursor.x as nat,
            y: self.cursor.y as nat,
            rowoff: self.rowoff as nat,
            coloff: self.coloff as nat,
            width: self.screen@.width as nat,
            height: self.screen@.height as nat,
        }
    }
}

impl Editor {
    /// The cursor stands in the text, the screen has at least one row and one
    /// column, and no command is left queued between frames.
    pub closed spec fn wf(&self) -> bool {
        &&& in_text(self@)
        &&& self@.width > 0
        &&& self@.height > 0
        &&& self.screen@.queue.len() == 0
    }

    /// An editor over an empty text, on a screen of `width` columns and `height` rows.
    pub fn new(width: u16, height: u16) -> (e: Editor)
        requires
            width > 0,
            height > 0,
        ensures
            e.wf(),
            e@ == (EditorState {
                lines: seq![],
                x: 0,
                y: 0,
                rowoff: 0,
                coloff: 0,
                width: width as nat,
                height: height as nat,
            }),
    {
        let e = Editor::from_rows(Vec::new(), width, height);
        assert(e@.lines =~= seq![]);
        e
    }

    fn from_rows(rows: Vec<Row>, width: u16, height: u16) -> (e: Editor)
        requires
            width > 0,
            height > 0,
        ensures
            e.wf(),
            e@ == (EditorState {
                lines: lines_of(rows@),
                x: 0,
                y: 0,
                rowoff: 0,
                coloff: 0,
                width: width as nat,
                height: height as nat,
            }),
    {
        Editor {
            screen: Screen::new(width, height),
            cursor: Position { x: 0, y: 0 },
            rows,
            rowoff: 0,
            coloff: 0,
        }
    }

    /// An editor over the lines of `data`, on a screen of `width` columns and
    /// `height` rows, with the cursor at the start of the first line.
    pub fn build(data: &[String], width: u16, height: u16) -> (e: Editor)
        requires
            width > 0,
            height > 0,
        ensures
            e.wf(),
            e@ == (EditorState {
                lines: string_views(data@),
                x: 0,
                y: 0,
                rowoff: 0,
                coloff: 0,
                width: width as nat,
                height: height as nat,
            }),
    {
        let mut rows: Vec<Row> = Vec::new();
        let mut i: usize = 0;
        while i < data.len()
            invariant
                i <= data@.len(),
                lines_of(rows@) == string_views(data@.take(i as int)),
            decreases data@.len() - i,
        {
            let row = Row::from_chars(str_chars(data[i].as_str()));
            let ghost before = rows@;
            rows.push(row);
            assert(lines_of(rows@) =~= lines_of(before).push(row@));
            assert(row@ == data@[i as int]@);
            assert(data@.take(i + 1) =~= data@.take(i as int).push(data@[i as int]));
            i += 1;
            assert(lines_of(rows@) =~= string_views(data@.take(i as int)));
        }
        assert(data@.take(data@.len() as int) =~= data@);
        Editor::from_rows(rows, width, height)
    }

    /// An editor over the lines of `text`, split at each newline, on a screen of
    /// `width` columns and `height` rows.
    pub fn with_text(text: &str, width: u16, height: u16) -> (e: Editor)
        requires
            width > 0,
            height > 0,
        ensures
            e.wf(),
            e@ == (EditorState {
                lines: split_lines(text@),
                x: 0,
                y: 0,
                rowoff: 0,
                coloff: 0,
                width: width as nat,
                height: height as nat,
            }),
    {
        let chars = str_chars(text);
        let mut rows: Vec<Row> = Vec::new();
        let mut line: Vec<char> = Vec::new();
        let mut i: usize = 0;
        while i < chars.len()
            invariant
                i <= chars@.len(),
                chars@ == text@,
                lines_of(rows@).push(line@) == split_lines(chars@.take(i as int)),
            decreases chars@.len() - i,
        {
            let c = chars[i];
            let ghost prefix = chars@.take(i as int);
            assert(chars@.take(i + 1).drop_last() =~= prefix);
            proof {
                lemma_split_lines_nonempty(prefix);
            }
            if c == '\n' {
                let mut done: Vec<char> = Vec::new();
                std::mem::swap(&mut done, &mut line);
                rows.push(Row::from_chars(done));
                assert(lines_of(rows@).push(line@) =~= split_lines(chars@.take(i + 1)));
            } else {
                line.push(c);
                assert(lines_of(rows@).push(line@) =~= split_lines(chars@.take(i + 1)));
            }
            i += 1;
        }
        assert(chars@.take(chars@.len() as int) =~= chars@);
        let last = Row::from_chars(line);
        let ghost before = rows@;
        rows.push(last);
        assert(lines_of(rows@) =~= lines_of(before).push(last@));
        Editor::from_rows(rows, width, height)
    }

    /// The cursor: its raw column `x` and its line `y`.
    pub fn cursor(&self) -> (p: Position)
        ensures
            p.x == self@.x,
            p.y == self@.y,
    {
        self.cursor
    }

    /// The line shown at the top of the screen.
    pub fn row_offset(&self) -> (r: usize)
        ensures
            r == self@.rowoff,
    {
        self.rowoff
    }

    /// The rendered column shown at the left of the screen.
    pub fn col_offset(&self) -> (r: usize)
        ensures
            r == self@.coloff,
    {
        self.coloff
    }

    /// The lines of the text.
    pub fn rows(&self) -> (r: &[Row])
        ensures
            lines_of(r@) == self@.lines,
    {
        self.rows.as_slice()
    }

    /// The rendered column of the cursor.
    fn cursor_render_x(&self) -> (r: usize)
        requires
            self.wf(),
        ensures
            r == cursor_rx(self@),
    {
        if self.cursor.y < self.rows.len() {
            self.rows[self.cursor.y].cx_to_rx(self.cursor.x)
        } else {
            0
        }
    }

    /// Moves the cursor one step in the direction of `key`.
    pub fn move_cursor(&mut self, key: EditorKey)
        requires
            old(self).wf(),
        ensures
            final(self).wf(),
            final(self)@ == moved(old(self)@, key),
    {
        let n = self.rows.len();
        let mut x = self.cursor.x;
        let mut y = self.cursor.y;
        match key {
            EditorKey::Up => {
                if y > 0 {
                    y -= 1;
                }
            },
            EditorKey::Left => {
                if x > 0 {
                    x -= 1;
                }
            },
            EditorKey::Down => {
                if y < n {
                    y += 1;
                }
            },
            EditorKey::Right => {
                if y < n && x < self.rows[y].len() {
                    x += 1;
                }
            },
        }
        let row_len = if y < n {
            self.rows[y].len()
        } else {
            0
        };
        if x > row_len {
            x = row_len;
        }
        self.cursor = Position { x, y };
    }

    /// Moves the offsets as little as needed to bring the cursor into view.
    pub fn scroll(&mut self)
        requires
            old(self).wf(),
        ensures
            final(self).wf(),
            final(self)@ == scrolled(old(self)@),
            cursor_visible(final(self)@),
    {
        let rx = self.cursor_render_x();
        let bounds = self.screen.bounds();
        let y = self.cursor.y;
        if y < self.rowoff {
            self.rowoff = y;
        }
        if y - self.rowoff >= bounds.y {
            self.rowoff = y - bounds.y + 1;
        }
        if rx < self.coloff {
            self.coloff = rx;
        }
        if rx - self.coloff >= bounds.x {
            self.coloff = rx - bounds.x + 1;
        }
    }

    /// Handles `key`: does what its action asks, then scrolls. A key that quits
    /// or does nothing leaves the editor as it was. Returns whether the key asks
    /// to quit.
    pub fn process_keypress(&mut self, key: Key) -> (quit: bool)
        requires
            old(self).wf(),
        ensures
            final(self).wf(),
            quit == (action_of(key) == Action::Quit),
            final(self)@ == after_key(old(self)@, key),
            action_of(key) == Action::Quit || action_of(key) == Action::Nothing
                ==> final(self)@ == old(self)@,
    {
        let action = key_action(key);
        match action {
            Action::Quit => return true,
            Action::Nothing => return false,
            Action::Move(k) => {
                self.move_cursor(k);
            },
            Action::Home => {
                self.cursor = Position { x: 0, y: self.cursor.y };
            },
            Action::End => {
                let y = self.cursor.y;
                let x = if y < self.rows.len() {
                    self.rows[y].len()
                } else {
                    0
                };
                self.cursor = Position { x, y };
            },
            Action::PageUp => {
                self.move_times(EditorKey::Up);
            },
            Action::PageDown => {
                self.move_times(EditorKey::Down);
            },
        }
        self.scroll();
        false
    }

    /// Moves the cursor one step in the direction of `key`, once for each row
    /// of the screen.
    fn move_times(&mut self, key: EditorKey)
        requires
            old(self).wf(),
        ensures
            final(self).wf(),
            final(self)@ == moved_times(old(self)@, key, old(self)@.height),
    {
        let ghost start = self@;
        let height = self.screen.bounds().y;
        let mut i: usize = 0;
        while i < height
            invariant
                i <= height,
                height == start.height,
                self.wf(),
                self@ == moved_times(start, key, i as nat),
                self@.height == start.height,
            decreases height - i,
        {
            self.move_cursor(key);
            i += 1;
        }
    }

    /// Scrolls, then hands out the commands of one frame: clear the screen, draw
    /// the rows, and put the terminal cursor where the text cursor shows.
    pub fn refresh_screen(&mut self) -> (cmds: Vec<Command>)
        requires
            old(self).wf(),
        ensures
            final(self).wf(),
            final(self)@ == scrolled(old(self)@),
            commands_view(cmds@) == frame_commands(final(self)@),
    {
        self.scroll();
        let rx = self.cursor_render_x();
        self.screen.clear();
        self.screen.draw_rows(self.rows.as_slice(), self.rowoff, self.coloff);
        self.screen.move_to(self.cursor, self.rowoff, self.coloff, rx);
        self.screen.flush()
    }
}

} // verus!
