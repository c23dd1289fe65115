//! The editor core: cursor controller, viewport scroller, and frame
//! composition. All of it is pure: the binary that owns the terminal
//! feeds key events in and prints the composed lines out.

use vstd::prelude::*;
use crate::document::{line_len, render_seq, Document, Row};
use crate::status::{visible_at, StatusMessage};
use crate::text::{
    chars_of, clip, dec_chars, dec_seq, push_all, sat_add_usize, sat_sub, spaces, spaces_seq,
};

verus! {

/// A discrete 2D coordinate: a column `x` and a row `y`. Used both for
/// the cursor (document space) and for the viewport offset (the
/// document coordinate at the terminal's top-left corner).
#[derive(Clone, Copy, Debug, PartialEq, Eq)]
pub struct Position {
    pub x: usize,
    pub y: usize,
}

impl Default for Position {
    /// The origin.
    fn default() -> (p: Position)
        ensures
            p.x == 0,
            p.y == 0,
    {
        Position { x: 0, y: 0 }
    }
}

/// The closed set of input commands the core reacts to. Decoding raw
/// terminal input into these is the terminal owner's job.
#[derive(Clone, Copy, Debug, PartialEq, Eq)]
pub enum Key {
    Up,
    Down,
    Left,
    Right,
    PageUp,
    PageDown,
    Home,
    End,
    Quit,
    Other,
}

/// The terminal size for one frame, in character cells.
#[derive(Clone, Copy, Debug, PartialEq, Eq)]
pub struct Size {
    pub width: usize,
    pub height: usize,
}

/// The whole editor state: quit flag, terminal size, cursor, viewport
/// offset, the document, and the current transient message.
pub struct Editor {
    pub should_quit: bool,
    pub size: Size,
    pub cursor_position: Position,
    pub offset: Position,
    pub document: Document,
    pub status_message: StatusMessage,
}

/// Whether `key` is one of the cursor-movement commands.
pub open spec fn is_navigation(key: Key) -> bool {
    match key {
        Key::Up | Key::Down | Key::Left | Key::Right => true,
        Key::PageUp | Key::PageDown | Key::Home | Key::End => true,
        _ => false,
    }
}

/// The cursor coordinates after `key`, before the horizontal clamp:
/// vertical moves are bounded by the row count (one virtual empty row
/// past the last real one is reachable), horizontal moves by the
/// current row's length, and moving left at a line start or right at
/// a line end wraps to the neighbouring row when one exists.
pub open spec fn moved_cursor(doc: Seq<Seq<char>>, pos: Position, key: Key) -> (int, int) {
    let x = pos.x as int;
    let y = pos.y as int;
    let height = doc.len() as int;
    let width = line_len(doc, y);
    match key {
        Key::Up => (x, sat_sub(y, 1)),
        Key::Down => if y < height {
            (x, y + 1)
        } else {
            (x, y)
        },
        Key::Left => if x > 0 {
            (x - 1, y)
        } else if y > 0 {
            (line_len(doc, y - 1), y - 1)
        } else {
            (x, y)
        },
        Key::Right => if x < width {
            (x + 1, y)
        } else if y + 1 < height {
            (0, y + 1)
        } else {
            (x, y)
        },
        Key::PageUp => (x, 0),
        Key::PageDown => (x, height),
        Key::Home => (0, y),
        Key::End => (width, y),
        _ => (x, y),
    }
}

/// The cursor after `key`: the moved coordinates, with the column
/// clamped to the length of the row the cursor lands on.
pub open spec fn cursor_after(doc: Seq<Seq<char>>, pos: Position, key: Key) -> Position {
    let moved = moved_cursor(doc, pos, key);
    let w = line_len(doc, moved.1);
    let x = if moved.0 > w {
        w
    } else {
        moved.0
    };
    Position { x: x as usize, y: moved.1 as usize }
}

/// One axis of the minimal-movement scroll rule: if the cursor `c` is
/// before the window starting at `off`, the window snaps its start to
/// `c`; if `c` is at or past the far edge (`off + span`, saturating),
/// the window snaps its end to `c`; otherwise the offset is unchanged.
pub open spec fn adjust(c: int, off: int, span: int) -> int {
    if c < off {
        c
    } else if c >= sat_add_usize(off, span) {
        sat_add_usize(sat_sub(c, span), 1)
    } else {
        off
    }
}

/// The viewport offset after scrolling, both axes adjusted
/// independently against the terminal size.
pub open spec fn offset_after(cursor: Position, offset: Position, size: Size) -> Position {
    Position {
        x: adjust(cursor.x as int, offset.x as int, size.width as int) as usize,
        y: adjust(cursor.y as int, offset.y as int, size.height as int) as usize,
    }
}

/// Coordinates never go negative: both axes are unsigned, and every
/// decrement the cursor controller or the scroller performs saturates
/// at zero instead of underflowing.
pub proof fn lemma_position_nonnegative(p: Position)
    ensures
        0 <= p.x as int,
        0 <= p.y as int,
{
}

/// After one adjustment with a positive span, the cursor lies inside
/// the window: `adjust(c, off, span) <= c < adjust(c, off, span) + span`.
pub proof fn lemma_adjust_in_window(c: int, off: int, span: int)
    requires
        0 <= c <= usize::MAX,
        0 <= off <= usize::MAX,
        1 <= span <= usize::MAX,
    ensures
        adjust(c, off, span) <= c < adjust(c, off, span) + span,
{
}

/// Adjusting a second time with the same cursor and span changes
/// nothing: once the cursor is inside the window, the offset is kept.
pub proof fn lemma_adjust_idempotent(c: int, off: int, span: int)
    requires
        0 <= c <= usize::MAX,
        0 <= off <= usize::MAX,
        1 <= span <= usize::MAX,
    ensures
        adjust(c, adjust(c, off, span), span) == adjust(c, off, span),
{
    lemma_adjust_in_window(c, off, span);
}

/// Scrolling twice in a row with an unchanged cursor and terminal size
/// yields the same offset both times.
pub proof fn lemma_scroll_idempotent(cursor: Position, offset: Position, size: Size)
    requires
        size.width > 0,
        size.height > 0,
    ensures
        offset_after(cursor, offset_after(cursor, offset, size), size) == offset_after(
            cursor,
            offset,
            size,
        ),
{
    lemma_adjust_idempotent(cursor.x as int, offset.x as int, size.width as int);
    lemma_adjust_idempotent(cursor.y as int, offset.y as int, size.height as int);
}

/// The banner shown in the middle of an empty document.
pub open spec fn welcome_text() -> Seq<char> {
    "RustyVim -- version 0.1.0"@
}

/// The welcome line for a terminal `width` columns wide: a placeholder
/// marker, then padding that centers the banner, then the banner, the
/// whole clipped to the width. The padding never goes negative.
pub open spec fn welcome_seq(width: int) -> Seq<char> {
    let msg = welcome_text();
    let padding = sat_sub(width, msg.len() as int) / 2;
    clip(seq!['~'] + spaces_seq(sat_sub(padding, 1) as nat) + msg, width)
}

/// The line drawn at content row `i` of the frame: the visible slice
/// of the document row there, if the document has one; the welcome
/// banner at one third of the height when the document is empty; a
/// placeholder marker everywhere else.
pub open spec fn frame_row(ed: Editor, i: int) -> Seq<char> {
    let doc = ed.document@;
    let y = sat_add_usize(ed.offset.y as int, i);
    if 0 <= y < doc.len() {
        render_seq(
            doc[y],
            ed.offset.x as int,
            sat_add_usize(ed.offset.x as int, ed.size.width as int),
        )
    } else if doc.len() == 0 && i == ed.size.height as int / 3 {
        welcome_seq(ed.size.width as int)
    } else {
        seq!['~']
    }
}

/// The file name shown in the status bar: the document's name cut to
/// twenty characters, or a fixed placeholder when it has none.
pub open spec fn display_name(file_name: Option<Vec<char>>) -> Seq<char> {
    match file_name {
        Some(n) => clip(n@, 20),
        None => "[No Name]"@,
    }
}

/// The status bar: the display name and the row count on the left, the
/// one-based cursor line over the row count on the right, joined by
/// just enough spaces to reach the terminal width, clipped to it.
pub open spec fn status_bar_seq(ed: Editor) -> Seq<char> {
    let rows = dec_seq(ed.document@.len() as int);
    let left = display_name(ed.document.file_name) + " - "@ + rows + " lines"@;
    let right = dec_seq(sat_add_usize(ed.cursor_position.y as int, 1)) + seq!['/'] + rows;
    let width = ed.size.width as int;
    let len = left.len() + right.len();
    let padded = if width > len {
        left + spaces_seq((width - len) as nat)
    } else {
        left
    };
    clip(padded + right, width)
}

/// The message bar: the current status message clipped to the terminal
/// width while it is within its display window, else a blank line.
pub open spec fn message_bar_seq(ed: Editor, now: u64) -> Seq<char> {
    if visible_at(ed.status_message.time, now) {
        clip(ed.status_message.text@, ed.size.width as int)
    } else {
        Seq::empty()
    }
}

/// The editor state after one key event: a quit key raises the quit
/// flag, a navigation key moves the cursor, anything else is ignored;
/// in every case the viewport is scrolled afterwards.
pub open spec fn step(ed: Editor, key: Key) -> Editor {
    let moved = if key is Quit {
        Editor { should_quit: true, ..ed }
    } else if is_navigation(key) {
        Editor { cursor_position: cursor_after(ed.document@, ed.cursor_position, key), ..ed }
    } else {
        ed
    };
    Editor { offset: offset_after(moved.cursor_position, moved.offset, moved.size), ..moved }
}

/// The editor state after working through `keys` in order, stopping
/// as soon as the quit flag is up: the keys after a quit key are never
/// processed.
pub open spec fn run_steps(ed: Editor, keys: Seq<Key>) -> Editor
    decreases keys.len(),
{
    if ed.should_quit || keys.len() == 0 {
        ed
    } else {
        run_steps(step(ed, keys[0]), keys.drop_first())
    }
}

impl Editor {
    /// A freshly opened editor: running, cursor and offset at the
    /// origin, showing `document` with `status_message`.
    pub fn new(size: Size, document: Document, status_message: StatusMessage) -> (ed: Editor)
        ensures
            ed.should_quit == false,
            ed.size == size,
            ed.cursor_position == (Position { x: 0, y: 0 }),
            ed.offset == (Position { x: 0, y: 0 }),
            ed.document == document,
            ed.status_message == status_message,
    {
        Editor {
            should_quit: false,
            size,
            cursor_position: Position::default(),
            offset: Position::default(),
            document,
            status_message,
        }
    }

    /// Moves the cursor one step for `key`, against the bounds of the
    /// document. The column is clamped afterwards to the length of the
    /// row the cursor lands on, so the cursor never sits past a line
    /// end.
    pub fn move_cursor(&mut self, key: Key)
        ensures
            *final(self) == (Editor {
                cursor_position: cursor_after(
                    old(self).document@,
                    old(self).cursor_position,
                    key,
                ),
                ..*old(self)
            }),
            final(self).cursor_position.x as int <= line_len(
                old(self).document@,
                final(self).cursor_position.y as int,
            ),
    {
        let mut x: usize = self.cursor_position.x;
        let mut y: usize = self.cursor_position.y;
        let height: usize = self.document.len();
        let width: usize = match self.document.row(y) {
            Some(row) => row.len(),
            None => 0,
        };
        match key {
            Key::Up => {
                y = y.saturating_sub(1);
            },
            Key::Down => {
                if y < height {
                    y = y + 1;
                }
            },
            Key::Left => {
                if x > 0 {
                    x = x - 1;
                } else if y > 0 {
                    y = y - 1;
                    x = match self.document.row(y) {
                        Some(row) => row.len(),
                        None => 0,
                    };
                }
            },
            Key::Right => {
                if x < width {
                    x = x + 1;
                } else if y.saturating_add(1) < height {
                    y = y + 1;
                    x = 0;
                }
            },
            Key::PageUp => {
                y = 0;
            },
            Key::PageDown => {
                y = height;
            },
            Key::Home => {
                x = 0;
            },
            Key::End => {
                x = width;
            },
            _ => {},
        }
        let landed_width: usize = match self.document.row(y) {
            Some(row) => row.len(),
            None => 0,
        };
        if x > landed_width {
            x = landed_width;
        }
        self.cursor_position = Position { x, y };
    }

    /// Recomputes the viewport offset so that the cursor is visible,
    /// moving each axis only when the cursor left the window on that
    /// axis. With a positive terminal size the cursor ends up inside
    /// the window on both axes.
    pub fn scroll(&mut self)
        ensures
            *final(self) == (Editor {
                offset: offset_after(old(self).cursor_position, old(self).offset, old(self).size),
                ..*old(self)
            }),
            old(self).size.height > 0 ==> final(self).offset.y <= old(self).cursor_position.y
                < final(self).offset.y + old(self).size.height,
            old(self).size.width > 0 ==> final(self).offset.x <= old(self).cursor_position.x
                < final(self).offset.x + old(self).size.width,
    {
        let x: usize = self.cursor_position.x;
        let y: usize = self.cursor_position.y;
        let width: usize = self.size.width;
        let height: usize = self.size.height;
        if y < self.offset.y {
            self.offset.y = y;
        } else if y >= self.offset.y.saturating_add(height) {
            self.offset.y = y.saturating_sub(height).saturating_add(1);
        }
        if x < self.offset.x {
            self.offset.x = x;
        } else if x >= self.offset.x.saturating_add(width) {
            self.offset.x = x.saturating_sub(width).saturating_add(1);
        }
        proof {
            if self.size.height > 0 {
                lemma_adjust_in_window(
                    old(self).cursor_position.y as int,
                    old(self).offset.y as int,
                    old(self).size.height as int,
                );
            }
            if self.size.width > 0 {
                lemma_adjust_in_window(
                    old(self).cursor_position.x as int,
                    old(self).offset.x as int,
                    old(self).size.width as int,
                );
            }
        }
    }

    /// Reacts to one key event: dispatches it as `step` describes and
    /// scrolls the viewport after the cursor.
    pub fn process_keypress(&mut self, key: Key)
        ensures
            *final(self) == step(*old(self), key),
    {
        match key {
            Key::Quit => {
                self.should_quit = true;
            },
            Key::Up | Key::Down | Key::Left | Key::Right => {
                self.move_cursor(key);
            },
            Key::PageUp | Key::PageDown | Key::Home | Key::End => {
                self.move_cursor(key);
            },
            _ => {},
        }
        self.scroll();
    }

    /// Works through a sequence of key events in order, as the
    /// interactive loop would: each key is dispatched and followed by
    /// a scroll, and processing stops once a quit key was seen. The
    /// binary that owns the terminal renders a frame between events;
    /// rendering reads the state and never changes it.
    pub fn run(&mut self, keys: &Vec<Key>)
        ensures
            *final(self) == run_steps(*old(self), keys@),
    {
        let ghost start: Editor = *old(self);
        let mut i: usize = 0;
        proof {
            assert(keys@.skip(0) =~= keys@);
        }
        while i < keys.len() && !self.should_quit
            invariant
                i <= keys@.len(),
                run_steps(start, keys@) == run_steps(*self, keys@.skip(i as int)),
            decreases keys@.len() - i,
        {
            let ghost before: Editor = *self;
            let key: Key = keys[i];
            self.process_keypress(key);
            proof {
                assert(keys@.skip(i as int).len() > 0);
                assert(keys@.skip(i as int)[0] == keys@[i as int]);
                assert(keys@.skip(i as int).drop_first() =~= keys@.skip(i + 1));
                assert(run_steps(before, keys@.skip(i as int)) == run_steps(
                    step(before, key),
                    keys@.skip(i + 1),
                ));
            }
            i = i + 1;
        }
        proof {
            if !self.should_quit {
                assert(keys@.skip(i as int).len() == 0);
            }
            assert(run_steps(*self, keys@.skip(i as int)) == *self);
        }
    }

    /// The welcome line for the current terminal width.
    pub fn draw_welcome_msg(&self) -> (v: Vec<char>)
        ensures
            v@ == welcome_seq(self.size.width as int),
    {
        let msg: Vec<char> = chars_of("RustyVim -- version 0.1.0");
        let width: usize = self.size.width;
        let padding: usize = width.saturating_sub(msg.len()) / 2;
        let mut line: Vec<char> = Vec::new();
        line.push('~');
        let pad: Vec<char> = spaces(padding.saturating_sub(1));
        push_all(&mut line, &pad);
        push_all(&mut line, &msg);
        proof {
            assert(line@ =~= seq!['~'] + pad@ + msg@);
        }
        line.truncate(width);
        proof {
            assert(line@ =~= welcome_seq(width as int));
        }
        line
    }

    /// The visible slice of `row` under the current horizontal offset
    /// and terminal width.
    pub fn draw_row(&self, row: &Row) -> (v: Vec<char>)
        ensures
            v@ == render_seq(
                row@,
                self.offset.x as int,
                sat_add_usize(self.offset.x as int, self.size.width as int),
            ),
    {
        let start: usize = self.offset.x;
        let end: usize = self.offset.x.saturating_add(self.size.width);
        row.render(start, end)
    }

    /// The content area of one frame, top to bottom: one line per
    /// terminal row, each as `frame_row` describes.
    pub fn draw_rows(&self) -> (lines: Vec<Vec<char>>)
        ensures
            lines@.len() == self.size.height,
            forall|i: int|
                0 <= i < self.size.height ==> #[trigger] lines@[i]@ == frame_row(*self, i),
    {
        let height: usize = self.size.height;
        let mut lines: Vec<Vec<char>> = Vec::new();
        let mut t: usize = 0;
        while t < height
            invariant
                t <= height,
                height == self.size.height,
                lines@.len() == t,
                forall|i: int| 0 <= i < t ==> #[trigger] lines@[i]@ == frame_row(*self, i),
            decreases height - t,
        {
            let idx: usize = self.offset.y.saturating_add(t);
            let line: Vec<char> = match self.document.row(idx) {
                Some(row) => self.draw_row(row),
                None => {
                    if self.document.is_empty() && t == height / 3 {
                        self.draw_welcome_msg()
                    } else {
                        let mut marker: Vec<char> = Vec::new();
                        marker.push('~');
                        marker
                    }
                },
            };
            proof {
                assert(line@ == frame_row(*self, t as int));
            }
            lines.push(line);
            t = t + 1;
        }
        lines
    }

    /// The status bar line for the current state.
    pub fn draw_status_bar(&self) -> (v: Vec<char>)
        ensures
            v@ == status_bar_seq(*self),
    {
        let width: usize = self.size.width;
        let rows: Vec<char> = dec_chars(self.document.len());
        let mut status: Vec<char> = match &self.document.file_name {
            Some(name) => {
                let mut n: Vec<char> = Vec::new();
                push_all(&mut n, name);
                n.truncate(20);
                n
            },
            None => chars_of("[No Name]"),
        };
        let sep: Vec<char> = chars_of(" - ");
        push_all(&mut status, &sep);
        push_all(&mut status, &rows);
        let lines_word: Vec<char> = chars_of(" lines");
        push_all(&mut status, &lines_word);
        proof {
            assert(status@ =~= display_name(self.document.file_name) + " - "@ + rows@
                + " lines"@);
        }
        let mut line_indicator: Vec<char> = dec_chars(self.cursor_position.y.saturating_add(1));
        line_indicator.push('/');
        push_all(&mut line_indicator, &rows);
        proof {
            assert(line_indicator@ =~= dec_seq(
                sat_add_usize(self.cursor_position.y as int, 1),
            ) + seq!['/'] + rows@);
        }
        let len: usize = status.len().saturating_add(line_indicator.len());
        if width > len {
            let fill: Vec<char> = spaces(width - len);
            push_all(&mut status, &fill);
        }
        push_all(&mut status, &line_indicator);
        status.truncate(width);
        proof {
            assert(status@ =~= status_bar_seq(*self));
        }
        status
    }

    /// The message bar line at clock reading `now`: the status message
    /// while it is fresh, a blank line once it has aged out.
    pub fn draw_message_bar(&self, now: u64) -> (v: Vec<char>)
        ensures
            v@ == message_bar_seq(*self, now),
    {
        if self.status_message.is_visible(now) {
            let mut text: Vec<char> = Vec::new();
            push_all(&mut text, &self.status_message.text);
            text.truncate(self.size.width);
            text
        } else {
            Vec::new()
        }
    }

    /// Where the terminal cursor goes after a frame is drawn: the
    /// document-space cursor, shifted into screen space by the offset.
    pub fn screen_cursor_position(&self) -> (p: Position)
        ensures
            p.x == sat_sub(self.cursor_position.x as int, self.offset.x as int),
            p.y == sat_sub(self.cursor_position.y as int, self.offset.y as int),
    {
        Position {
            x: self.cursor_position.x.saturating_sub(self.offset.x),
            y: self.cursor_position.y.saturating_sub(self.offset.y),
        }
    }
}

} // verus!
