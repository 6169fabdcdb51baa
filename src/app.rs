use vstd::prelude::*;

use crate::byte::Styled;
use crate::cursor::{lemma_step_in_file, next_position, step, Direction, Position};
use crate::hex_file::HexFile;
use crate::render::{
    char_line, char_row, glyph_piece, hex_line, hex_row, highlighted_piece, offset_label,
    offset_piece, pieces, StyledView,
};
use crate::window::{PaneArea, Window};

verus! {

/// The visible part of the file: `rows` rows of `columns` bytes, the first
/// of them the file's row `starting_row`.
#[derive(Clone, Copy, Debug, PartialEq, Eq, Structural)]
pub struct FileView {
    pub rows: u16,
    pub columns: u16,
    pub starting_row: u16,
}

/// One terminal operation; positions are absolute terminal coordinates, and
/// a print writes its runs of styled text one after the other.
#[derive(Debug, PartialEq, Eq)]
pub enum Command {
    Clear,
    HideCursor,
    ShowCursor,
    Print { x: u16, y: u16, runs: Vec<Styled> },
    PlaceCursor { x: u16, y: u16 },
}

/// How far scrolling down may go: without end (rows past the file are
/// drawn blank), or until the first row shown is the file's last row.
#[derive(Clone, Copy, Debug, PartialEq, Eq, Structural)]
pub enum ScrollLimit {
    Unbounded,
    LastRow,
}

/// A key the viewer tells apart.
#[derive(Clone, Copy, Debug, PartialEq, Eq, Structural)]
pub enum Key {
    Char(char),
    Up,
    Down,
    Other,
}

/// An input event: a key, a resize to (width, height), or anything else.
#[derive(Clone, Copy, Debug, PartialEq, Eq, Structural)]
pub enum Event {
    Key(Key),
    Resize(u16, u16),
    Other,
}

pub open spec fn prints(c: Command, x: int, y: int, t: Seq<StyledView>) -> bool {
    match c {
        Command::Print { x: cx, y: cy, runs } => cx == x && cy == y && pieces(runs@) == t,
        _ => false,
    }
}

pub open spec fn places(c: Command, x: int, y: int) -> bool {
    match c {
        Command::PlaceCursor { x: cx, y: cy } => cx == x && cy == y,
        _ => false,
    }
}

/// Bytes per row for a terminal `width` columns wide.
pub open spec fn columns_for(width: int) -> int {
    (width - 10) / 4 - 1
}

pub fn columns_for_width(width: u16) -> (r: u16)
    requires
        width >= 18,
    ensures
        r == columns_for(width as int),
        1 <= r <= 16381,
{
    (width - 10) / 4 - 1
}

/// Index of the first visible byte.
pub open spec fn first_visible(v: FileView) -> int {
    v.starting_row as int * v.columns as int
}

/// One past the last visible byte of a file of `n` bytes.
pub open spec fn end_visible(v: FileView, n: int) -> int {
    let e = first_visible(v) + v.rows as int * v.columns as int;
    if e < n {
        e
    } else {
        n
    }
}

/// Number of rows that the panes draw.
pub open spec fn row_count(v: FileView, n: int) -> int {
    let s = first_visible(v);
    let e = end_visible(v, n);
    if e > s {
        (e - s - 1) / (v.columns as int) + 1
    } else {
        0
    }
}

/// Start of the `r`-th drawn row.
pub open spec fn row_start(v: FileView, r: int) -> int {
    first_visible(v) + r * v.columns as int
}

/// The rows that every pane draws are those that start inside the visible
/// range: `row_count` rows, from the first visible byte, one row of
/// `columns` bytes apart, the last of them reaching the end of the range.
pub proof fn lemma_visible_rows(v: FileView, n: int)
    requires
        v.columns > 0,
        n >= 0,
    ensures
        0 <= row_count(v, n) <= v.rows,
        forall|r: int| 0 <= r < row_count(v, n) ==> #[trigger] row_start(v, r) < end_visible(v, n),
        row_start(v, row_count(v, n)) >= end_visible(v, n),
{
    let s = first_visible(v);
    let e = end_visible(v, n);
    let c = v.columns as int;
    let rows = v.rows as int;
    if e > s {
        let x = e - s - 1;
        let q = x / c;
        vstd::arithmetic::div_mod::lemma_fundamental_div_mod(x, c);
        assert(0 <= x % c < c);
        assert(q >= 0) by (nonlinear_arith)
            requires
                x >= 0,
                c > 0,
                q == x / c,
        ;
        assert forall|r: int| 0 <= r < row_count(v, n) implies #[trigger] row_start(v, r) < e by {
            assert(r * c <= q * c) by (nonlinear_arith)
                requires
                    0 <= r <= q,
                    c > 0,
            ;
        }
        assert((q + 1) * c == q * c + c) by (nonlinear_arith);
        assert(x < rows * c);
        assert(q < rows) by (nonlinear_arith)
            requires
                q * c <= x,
                x < rows * c,
                c > 0,
        ;
    } else {
        assert(row_start(v, 0) == s);
    }
}

/// The offset pane's commands: one label per drawn row.
pub open spec fn offset_pane(out: Seq<Command>, a: App) -> bool {
    &&& out.len() == row_count(a.view, a.data().len() as int)
    &&& forall|r: int|
        0 <= r < out.len() ==> prints(
            #[trigger] out[r],
            a.offset_window@.x,
            a.offset_window@.y + r,
            seq![offset_piece(row_start(a.view, r) as nat)],
        )
}

/// The hex pane's commands: one line of cells per drawn row.
pub open spec fn hex_pane(out: Seq<Command>, a: App) -> bool {
    &&& out.len() == row_count(a.view, a.data().len() as int)
    &&& forall|r: int|
        0 <= r < out.len() ==> prints(
            #[trigger] out[r],
            a.hex_window@.x,
            a.hex_window@.y + r,
            hex_line(a.data(), row_start(a.view, r), a.view.columns as nat),
        )
}

/// The char pane's commands: one line of glyphs per drawn row.
pub open spec fn char_pane(out: Seq<Command>, a: App) -> bool {
    &&& out.len() == row_count(a.view, a.data().len() as int)
    &&& forall|r: int|
        0 <= r < out.len() ==> prints(
            #[trigger] out[r],
            a.char_window@.x,
            a.char_window@.y + r,
            char_line(a.data(), row_start(a.view, r), a.view.columns as nat),
        )
}

/// The byte at `i` lies in a visible row.
pub open spec fn on_screen(a: App, i: int) -> bool {
    &&& 0 <= i < a.data().len()
    &&& a.view.starting_row <= i / (a.view.columns as int)
    &&& i / (a.view.columns as int) < a.view.starting_row + a.view.rows
}

/// The hex and char panes (and the offset pane) draw the same rows: as many
/// of them, each starting at the same byte, all inside the visible range.
pub proof fn lemma_panes_share_rows(a: App, offsets: Seq<Command>, hexes: Seq<Command>, chars: Seq<Command>)
    requires
        a.wf(),
        offset_pane(offsets, a),
        hex_pane(hexes, a),
        char_pane(chars, a),
    ensures
        hexes.len() == chars.len(),
        offsets.len() == hexes.len(),
        hexes.len() <= a.view.rows,
        forall|r: int|
            0 <= r < hexes.len() ==> first_visible(a.view) <= #[trigger] row_start(a.view, r)
                < end_visible(a.view, a.data().len() as int),
{
    lemma_visible_rows(a.view, a.data().len() as int);
    assert forall|r: int| 0 <= r < hexes.len() implies first_visible(a.view) <= #[trigger] row_start(
        a.view,
        r,
    ) by {
        assert(r * a.view.columns >= 0) by (nonlinear_arith)
            requires
                r >= 0,
        ;
    }
}

/// The cursor update after a move from `from`: the glyph left is redrawn
/// plain, the glyph reached is drawn highlighted, and the terminal cursor goes
/// to the selected digit in the hex pane; a byte off screen gets no command.
pub open spec fn cursor_pane(out: Seq<Command>, a: App, from: Position) -> bool {
    let c = a.view.columns as int;
    let sr = a.view.starting_row as int;
    let o = from.index as int;
    let i = a.cursor_pos.index as int;
    let k: int = if on_screen(a, o) { 1 } else { 0 };
    &&& out.len() == k + if on_screen(a, i) { 2int } else { 0int }
    &&& on_screen(a, o) ==> prints(
        out[0],
        a.char_window@.x + o % c,
        a.char_window@.y + o / c - sr,
        seq![glyph_piece(a.data()[o])],
    )
    &&& on_screen(a, i) ==> prints(
        out[k],
        a.char_window@.x + i % c,
        a.char_window@.y + i / c - sr,
        seq![highlighted_piece(a.data()[i])],
    )
    &&& on_screen(a, i) ==> places(
        out[k + 1],
        a.hex_window@.x + (i % c) * 3 + if a.cursor_pos.first_half { 0int } else { 1int },
        a.hex_window@.y + i / c - sr,
    )
}

/// A full redraw: cursor hidden, offset, char and hex panes, cursor update, cursor shown.
pub open spec fn redraw_commands(out: Seq<Command>, a: App) -> bool {
    let k = row_count(a.view, a.data().len() as int);
    &&& out.len() >= 3 * k + 2
    &&& out[0] is HideCursor
    &&& offset_pane(out.subrange(1, 1 + k), a)
    &&& char_pane(out.subrange(1 + k, 1 + 2 * k), a)
    &&& hex_pane(out.subrange(1 + 2 * k, 1 + 3 * k), a)
    &&& cursor_pane(out.subrange(1 + 3 * k, out.len() - 1), a, a.cursor_pos)
    &&& out.last() is ShowCursor
}

/// `b` is `a` with at most the cursor moved.
pub open spec fn same_screen(a: App, b: App) -> bool {
    &&& a.file == b.file
    &&& a.view == b.view
    &&& a.offset_window@ == b.offset_window@
    &&& a.hex_window@ == b.hex_window@
    &&& a.char_window@ == b.char_window@
    &&& a.width == b.width
    &&& a.height == b.height
    &&& a.scroll_limit == b.scroll_limit
}

/// The first row shown after scrolling down once.
pub open spec fn scroll_down_target(a: App) -> int {
    let sr = a.view.starting_row as int;
    if sr < u16::MAX && (a.scroll_limit == ScrollLimit::Unbounded || (sr + 1)
        * a.view.columns < a.data().len()) {
        sr + 1
    } else {
        sr
    }
}

/// The first row shown after scrolling up once.
pub open spec fn scroll_up_target(a: App) -> int {
    if a.view.starting_row > 0 {
        a.view.starting_row - 1
    } else {
        0
    }
}

/// `b` is `a` after the cursor moved in direction `d`, and `out` redraws it.
pub open spec fn moved(a: App, b: App, out: Seq<Command>, d: Direction) -> bool {
    &&& b.wf()
    &&& same_screen(a, b)
    &&& b.cursor_pos == next_position(a.cursor_pos, d, a.view.columns as int, a.data().len() as int)
    &&& cursor_pane(out, b, a.cursor_pos)
}

/// `b` is `a` scrolled so that row `starting_row` comes first, and `out`
/// redraws it; nothing is drawn where the row stays.
pub open spec fn scrolled_to(a: App, b: App, out: Seq<Command>, starting_row: int) -> bool {
    &&& b.wf()
    &&& b.file == a.file
    &&& b.view == (FileView { starting_row: starting_row as u16, ..a.view })
    &&& b.offset_window@ == a.offset_window@
    &&& b.hex_window@ == a.hex_window@
    &&& b.char_window@ == a.char_window@
    &&& b.width == a.width
    &&& b.height == a.height
    &&& b.cursor_pos == a.cursor_pos
    &&& b.scroll_limit == a.scroll_limit
    &&& if starting_row == a.view.starting_row {
        out.len() == 0
    } else {
        redraw_commands(out, b)
    }
}

/// `b` is `a` laid out for a terminal of `width` by `height`, and `out`
/// clears the screen and redraws everything.
pub open spec fn resized(a: App, b: App, out: Seq<Command>, width: int, height: int) -> bool {
    &&& b.wf()
    &&& b.file == a.file
    &&& b.width == width
    &&& b.height == height
    &&& b.view == (FileView {
        rows: height as u16,
        columns: columns_for(width) as u16,
        starting_row: a.view.starting_row,
    })
    &&& b.cursor_pos == a.cursor_pos
    &&& b.scroll_limit == a.scroll_limit
    &&& out.len() >= 1
    &&& out[0] is Clear
    &&& redraw_commands(out.subrange(1, out.len() as int), b)
}

/// The events that `handle_event` acts on.
pub open spec fn handled(e: Event) -> bool {
    match e {
        Event::Key(Key::Char(c)) => c == 'q' || c == 'h' || c == 'j' || c == 'k' || c == 'l',
        Event::Key(Key::Up) => true,
        Event::Key(Key::Down) => true,
        Event::Resize(_, _) => true,
        _ => false,
    }
}

/// The viewer's whole state: the file, the view, the three panes and the cursor.
pub struct App {
    pub file: HexFile,
    pub view: FileView,
    pub offset_window: Window,
    pub hex_window: Window,
    pub char_window: Window,
    pub cursor_pos: Position,
    pub width: u16,
    pub height: u16,
    pub scroll_limit: ScrollLimit,
}

impl App {
    pub open spec fn data(&self) -> Seq<u8> {
        self.file.contents()
    }

    /// The layout follows the terminal size and the cursor is on a byte
    /// (or at 0 in an empty file).
    pub open spec fn wf(&self) -> bool {
        &&& self.width >= 18
        &&& self.view.columns == columns_for(self.width as int)
        &&& self.view.rows == self.height
        &&& self.offset_window@ == (PaneArea { x: 0, y: 0, width: 8, height: self.height as int })
        &&& self.hex_window@ == (PaneArea {
            x: 11,
            y: 0,
            width: self.view.columns * 3,
            height: self.height as int,
        })
        &&& self.char_window@ == (PaneArea {
            x: self.width - self.view.columns - 1,
            y: 0,
            width: self.view.columns as int,
            height: self.height as int,
        })
        &&& (self.cursor_pos.index < self.data().len() || self.cursor_pos.index == 0)
    }

    /// The viewer for `file` on a terminal of `width` by `height`, scrolled to
    /// the top, the cursor on the first digit of the first byte.
    pub fn new(file: HexFile, width: u16, height: u16) -> (r: App)
        requires
            width >= 18,
        ensures
            r.wf(),
            r.data() == file.contents(),
            r.width == width,
            r.height == height,
            r.view == (FileView {
                rows: height,
                columns: columns_for(width as int) as u16,
                starting_row: 0,
            }),
            r.cursor_pos == (Position { index: 0, first_half: true }),
            r.scroll_limit == ScrollLimit::Unbounded,
    {
        let columns = columns_for_width(width);
        let rows = height;
        let view = FileView { rows, columns, starting_row: 0 };
        let offset_window = Window::new(0, 0, 8, height);
        let hex_window = Window::new(11, 0, columns * 3, height);
        let char_window = Window::new(width - columns - 1, 0, columns, height);
        let cursor_pos = Position { index: 0, first_half: true };
        App {
            file,
            view,
            offset_window,
            hex_window,
            char_window,
            cursor_pos,
            width,
            height,
            scroll_limit: ScrollLimit::Unbounded,
        }
    }

    /// Start of each row that the panes draw.
    pub fn row_starts(&self) -> (r: Vec<usize>)
        requires
            self.wf(),
        ensures
            r@.len() == row_count(self.view, self.data().len() as int),
            r@.len() <= self.view.rows,
            forall|i: int|
                0 <= i < r@.len() ==> #[trigger] r@[i] as int == row_start(self.view, i) && r@[i]
                    < self.data().len(),
    {
        let n = self.file.len();
        let c = self.view.columns as u64;
        let rows = self.view.rows as u64;
        assert(rows * c <= 65535 * 16381) by (nonlinear_arith)
            requires
                rows <= 65535,
                c <= 16381,
        ;
        assert(self.view.starting_row as u64 * c <= 65535 * 16381) by (nonlinear_arith)
            requires
                self.view.starting_row <= 65535,
                c <= 16381,
        ;
        let s = self.view.starting_row as u64 * c;
        let full = s + rows * c;
        let e: u64 = if full < n as u64 {
            full
        } else {
            n as u64
        };
        let ghost v = self.view;
        proof {
            lemma_visible_rows(v, n as int);
        }
        let mut out: Vec<usize> = Vec::new();
        let mut r: u64 = 0;
        while r < rows && s + r * c < e
            invariant
                r <= rows,
                out@.len() == r,
                c == v.columns,
                rows == v.rows,
                s == first_visible(v),
                e == end_visible(v, n as int),
                e <= n,
                rows * c <= 65535 * 16381,
                s <= 65535 * 16381,
                r * c <= rows * c,
                forall|j: int|
                    0 <= j < r ==> #[trigger] out@[j] as int == row_start(v, j) && out@[j] < e,
            decreases rows - r,
        {
            out.push((s + r * c) as usize);
            assert((r + 1) * c <= rows * c) by (nonlinear_arith)
                requires
                    r + 1 <= rows,
            ;
            r += 1;
        }
        proof {
            let k = row_count(v, n as int);
            assert(row_start(v, r as int) >= e);
            if r < k {
                assert(row_start(v, r as int) < e);
            }
            if r > k {
                assert(out@[k] as int == row_start(v, k));
            }
        }
        out
    }

    /// The offset pane: the label of each drawn row.
    pub fn draw_offset(&self) -> (r: Vec<Command>)
        requires
            self.wf(),
        ensures
            offset_pane(r@, *self),
    {
        let starts = self.row_starts();
        let mut out: Vec<Command> = Vec::new();
        let mut i: usize = 0;
        while i < starts.len()
            invariant
                self.wf(),
                i <= starts@.len(),
                out@.len() == i,
                starts@.len() == row_count(self.view, self.data().len() as int),
                starts@.len() <= self.view.rows,
                forall|j: int|
                    0 <= j < starts@.len() ==> #[trigger] starts@[j] as int == row_start(
                        self.view,
                        j,
                    ) && starts@[j] < self.data().len(),
                forall|j: int|
                    0 <= j < i ==> prints(
                        #[trigger] out@[j],
                        self.offset_window@.x,
                        self.offset_window@.y + j,
                        seq![offset_piece(row_start(self.view, j) as nat)],
                    ),
            decreases starts@.len() - i,
        {
            let (x, y) = self.offset_window.move_to(0, i as u16);
            let mut runs: Vec<Styled> = Vec::new();
            runs.push(offset_label(starts[i] as u64));
            assert(pieces(runs@) =~= seq![offset_piece(row_start(self.view, i as int) as nat)]);
            out.push(Command::Print { x, y, runs });
            i += 1;
        }
        out
    }

    /// The hex pane: the cells of each drawn row.
    pub fn draw_hex(&self) -> (r: Vec<Command>)
        requires
            self.wf(),
        ensures
            hex_pane(r@, *self),
    {
        let starts = self.row_starts();
        let mut out: Vec<Command> = Vec::new();
        let mut i: usize = 0;
        while i < starts.len()
            invariant
                self.wf(),
                i <= starts@.len(),
                out@.len() == i,
                starts@.len() == row_count(self.view, self.data().len() as int),
                starts@.len() <= self.view.rows,
                forall|j: int|
                    0 <= j < starts@.len() ==> #[trigger] starts@[j] as int == row_start(
                        self.view,
                        j,
                    ) && starts@[j] < self.data().len(),
                forall|j: int|
                    0 <= j < i ==> prints(
                        #[trigger] out@[j],
                        self.hex_window@.x,
                        self.hex_window@.y + j,
                        hex_line(self.data(), row_start(self.view, j), self.view.columns as nat),
                    ),
            decreases starts@.len() - i,
        {
            let (x, y) = self.hex_window.move_to(0, i as u16);
            let runs = hex_row(&self.file, starts[i], self.view.columns);
            out.push(Command::Print { x, y, runs });
            i += 1;
        }
        out
    }

    /// The char pane: the glyphs of each drawn row.
    pub fn draw_char(&self) -> (r: Vec<Command>)
        requires
            self.wf(),
        ensures
            char_pane(r@, *self),
    {
        let starts = self.row_starts();
        let mut out: Vec<Command> = Vec::new();
        let mut i: usize = 0;
        while i < starts.len()
            invariant
                self.wf(),
                i <= starts@.len(),
                out@.len() == i,
                starts@.len() == row_count(self.view, self.data().len() as int),
                starts@.len() <= self.view.rows,
                forall|j: int|
                    0 <= j < starts@.len() ==> #[trigger] starts@[j] as int == row_start(
                        self.view,
                        j,
                    ) && starts@[j] < self.data().len(),
                forall|j: int|
                    0 <= j < i ==> prints(
                        #[trigger] out@[j],
                        self.char_window@.x,
                        self.char_window@.y + j,
                        char_line(self.data(), row_start(self.view, j), self.view.columns as nat),
                    ),
            decreases starts@.len() - i,
        {
            let (x, y) = self.char_window.move_to(0, i as u16);
            let runs = char_row(&self.file, starts[i], self.view.columns);
            out.push(Command::Print { x, y, runs });
            i += 1;
        }
        out
    }

    /// The pane row of the byte at `i`, where that row is visible.
    fn screen_row(&self, i: usize) -> (r: Option<u16>)
        requires
            self.wf(),
        ensures
            r is Some <==> on_screen(*self, i as int),
            r is Some ==> r->0 as int == i as int / (self.view.columns as int)
                - self.view.starting_row,
    {
        if i < self.file.len() {
            let row = i / (self.view.columns as usize);
            let sr = self.view.starting_row as usize;
            if row >= sr && row - sr < self.view.rows as usize {
                Some((row - sr) as u16)
            } else {
                None
            }
        } else {
            None
        }
    }

    /// Moves the cursor and updates its highlight: the glyph left is redrawn
    /// plain, the one reached highlighted, and the terminal cursor goes to
    /// the selected digit. The view never scrolls to follow the cursor.
    pub fn move_cursor(&mut self, direction: Direction) -> (r: Vec<Command>)
        requires
            old(self).wf(),
        ensures
            moved(*old(self), *final(self), r@, direction),
    {
        let n = self.file.len();
        let c = self.view.columns;
        let from = self.cursor_pos;
        proof {
            lemma_step_in_file(from, direction, c as int, n as int);
        }
        self.cursor_pos = step(from, direction, c, n);
        let mut out: Vec<Command> = Vec::new();
        let data = self.file.get_data();
        let cu = c as usize;
        match self.screen_row(from.index) {
            Some(y) => {
                let col = (from.index % cu) as u16;
                let (px, py) = self.char_window.move_to(col, y);
                let mut runs: Vec<Styled> = Vec::new();
                runs.push(data[from.index].char());
                assert(pieces(runs@) =~= seq![glyph_piece(self.data()[from.index as int])]);
                out.push(Command::Print { x: px, y: py, runs });
            },
            None => {},
        }
        let i = self.cursor_pos.index;
        match self.screen_row(i) {
            Some(y) => {
                let col = (i % cu) as u16;
                let (px, py) = self.char_window.move_to(col, y);
                let glyph = data[i].char();
                let mut runs: Vec<Styled> = Vec::new();
                runs.push(Styled { text: glyph.text, colour: glyph.colour, highlighted: true });
                assert(pieces(runs@) =~= seq![highlighted_piece(self.data()[i as int])]);
                out.push(Command::Print { x: px, y: py, runs });
                let hex_x = if self.cursor_pos.first_half {
                    col * 3
                } else {
                    col * 3 + 1
                };
                let (hx, hy) = self.hex_window.move_to(hex_x, y);
                out.push(Command::PlaceCursor { x: hx, y: hy });
            },
            None => {},
        }
        out
    }

    /// Redraws the three panes and the cursor highlight.
    pub fn redraw_windows(&mut self) -> (r: Vec<Command>)
        requires
            old(self).wf(),
        ensures
            final(self).wf(),
            same_screen(*old(self), *final(self)),
            final(self).cursor_pos == old(self).cursor_pos,
            redraw_commands(r@, *final(self)),
    {
        let mut out: Vec<Command> = Vec::new();
        out.push(Command::HideCursor);
        let mut offsets = self.draw_offset();
        let mut chars = self.draw_char();
        let mut hexes = self.draw_hex();
        let ghost k = offsets@.len() as int;
        let ghost o = offsets@;
        let ghost ch = chars@;
        let ghost hx = hexes@;
        out.append(&mut offsets);
        out.append(&mut chars);
        out.append(&mut hexes);
        let mut update = self.move_cursor(Direction::Stay);
        let ghost u = update@;
        out.append(&mut update);
        out.push(Command::ShowCursor);
        assert(out@.subrange(1, 1 + k) =~= o);
        assert(out@.subrange(1 + k, 1 + 2 * k) =~= ch);
        assert(out@.subrange(1 + 2 * k, 1 + 3 * k) =~= hx);
        assert(out@.subrange(1 + 3 * k, out@.len() - 1) =~= u);
        out
    }

    /// Scrolls one row further into the file, up to the largest row number,
    /// and with `ScrollLimit::LastRow` only while a byte is left below the
    /// first row shown.
    pub fn scroll_down(&mut self) -> (r: Vec<Command>)
        requires
            old(self).wf(),
        ensures
            scrolled_to(*old(self), *final(self), r@, scroll_down_target(*old(self))),
    {
        let sr = self.view.starting_row;
        assert((sr as u64 + 1) * (self.view.columns as u64) <= 65536 * 16381) by (nonlinear_arith)
            requires
                sr <= 65535,
                self.view.columns <= 16381,
        ;
        let next_start = (sr as u64 + 1) * (self.view.columns as u64);
        let allowed = match self.scroll_limit {
            ScrollLimit::Unbounded => true,
            ScrollLimit::LastRow => next_start < self.file.len() as u64,
        };
        if sr < u16::MAX && allowed {
            self.view.starting_row = sr + 1;
            self.redraw_windows()
        } else {
            Vec::new()
        }
    }

    /// Scrolls one row back towards the start of the file, down to row 0.
    pub fn scroll_up(&mut self) -> (r: Vec<Command>)
        requires
            old(self).wf(),
        ensures
            scrolled_to(*old(self), *final(self), r@, scroll_up_target(*old(self))),
    {
        if self.view.starting_row > 0 {
            self.view.starting_row = self.view.starting_row - 1;
            self.redraw_windows()
        } else {
            Vec::new()
        }
    }

    /// Lays the panes out for a terminal of `width` by `height`, clears the
    /// screen and redraws everything.
    pub fn resize(&mut self, height: u16, width: u16) -> (r: Vec<Command>)
        requires
            old(self).wf(),
            width >= 18,
        ensures
            resized(*old(self), *final(self), r@, width as int, height as int),
    {
        self.width = width;
        self.height = height;
        self.view.columns = columns_for_width(width);
        self.view.rows = height;
        self.offset_window.set_height(height);
        self.hex_window.set_height(height);
        self.char_window.set_height(height);
        self.hex_window.set_width(self.view.columns * 3);
        self.char_window.set_width(self.view.columns);
        self.char_window.set_location(self.width - self.view.columns - 1, 0);
        let mut out: Vec<Command> = Vec::new();
        out.push(Command::Clear);
        let mut rest = self.redraw_windows();
        let ghost rs = rest@;
        out.append(&mut rest);
        assert(out@.subrange(1, out@.len() as int) =~= rs);
        out
    }

    /// The first screen: offset, hex and char panes, then the terminal
    /// cursor on the first cell of the hex pane.
    pub fn first_draw(&self) -> (r: Vec<Command>)
        requires
            self.wf(),
        ensures
            ({
                let k = row_count(self.view, self.data().len() as int);
                &&& r@.len() == 3 * k + 1
                &&& offset_pane(r@.subrange(0, k), *self)
                &&& hex_pane(r@.subrange(k, 2 * k), *self)
                &&& char_pane(r@.subrange(2 * k, 3 * k), *self)
                &&& places(r@[3 * k], self.hex_window@.x, self.hex_window@.y)
            }),
    {
        let mut out = self.draw_offset();
        let ghost o = out@;
        let mut hexes = self.draw_hex();
        let ghost hx = hexes@;
        let mut chars = self.draw_char();
        let ghost ch = chars@;
        let ghost k = o.len() as int;
        out.append(&mut hexes);
        out.append(&mut chars);
        let (x, y) = self.hex_window.move_to(0, 0);
        out.push(Command::PlaceCursor { x, y });
        assert(out@.subrange(0, k) =~= o);
        assert(out@.subrange(k, 2 * k) =~= hx);
        assert(out@.subrange(2 * k, 3 * k) =~= ch);
        out
    }

    /// Handles one input event. `q` quits: the result is `None` and nothing
    /// changes. `h`, `j`, `k`, `l` move the cursor left, down, up and right;
    /// the up and down arrows scroll one row into and back out of the file;
    /// a resize lays the panes out anew. Anything else changes nothing and
    /// draws nothing.
    pub fn handle_event(&mut self, event: Event) -> (r: Option<Vec<Command>>)
        requires
            old(self).wf(),
            event matches Event::Resize(w, _) ==> w >= 18,
        ensures
            final(self).wf(),
            event == Event::Key(Key::Char('q')) ==> r is None && *final(self) == *old(self),
            event != Event::Key(Key::Char('q')) ==> r is Some,
            event == Event::Key(Key::Char('h')) ==> moved(*old(self), *final(self), r->0@, Direction::Left),
            event == Event::Key(Key::Char('j')) ==> moved(*old(self), *final(self), r->0@, Direction::Down),
            event == Event::Key(Key::Char('k')) ==> moved(*old(self), *final(self), r->0@, Direction::Up),
            event == Event::Key(Key::Char('l')) ==> moved(*old(self), *final(self), r->0@, Direction::Right),
            event == Event::Key(Key::Up) ==> scrolled_to(
                *old(self),
                *final(self),
                r->0@,
                scroll_down_target(*old(self)),
            ),
            event == Event::Key(Key::Down) ==> scrolled_to(
                *old(self),
                *final(self),
                r->0@,
                scroll_up_target(*old(self)),
            ),
            forall|w: u16, h: u16| event == Event::Resize(w, h) ==> resized(
                *old(self),
                *final(self),
                r->0@,
                w as int,
                h as int,
            ),
            !handled(event) ==> r->0@.len() == 0 && *final(self) == *old(self),
    {
        match event {
            Event::Key(Key::Char(c)) => {
                if c == 'q' {
                    None
                } else if c == 'h' {
                    Some(self.move_cursor(Direction::Left))
                } else if c == 'j' {
                    Some(self.move_cursor(Direction::Down))
                } else if c == 'k' {
                    Some(self.move_cursor(Direction::Up))
                } else if c == 'l' {
                    Some(self.move_cursor(Direction::Right))
                } else {
                    Some(Vec::new())
                }
            },
            Event::Key(Key::Up) => Some(self.scroll_down()),
            Event::Key(Key::Down) => Some(self.scroll_up()),
            Event::Resize(width, height) => Some(self.resize(height, width)),
            _ => Some(Vec::new()),
        }
    }
}

} // verus!
