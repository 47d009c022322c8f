//! The terminal buffer: turns the raw byte stream of a session into display
//! lines with a cursor, and turns user input into the bytes sent back.
//!
//! Recognised controls are newline (next line, column 0, a line is added
//! when the cursor passes the end), carriage return (column 0) and tab (next
//! multiple of 8). Every other character is placed at the cursor, padding the
//! line with spaces when it is shorter than the cursor column, and the cursor
//! moves one column right. An empty chunk means the session ended and adds a
//! visible marker line.

use vstd::prelude::*;
use vstd::utf8::{decode_utf8, valid_utf8};
use crate::error::SessionError;

verus! {

/// The contents of a terminal buffer: its lines and its cursor.
pub struct Screen {
    pub lines: Seq<Seq<char>>,
    /// Line index of the cursor.
    pub row: nat,
    /// Column index of the cursor.
    pub col: nat,
}

/// A buffer is well formed when its cursor row names one of its lines.
pub open spec fn well_formed(s: Screen) -> bool {
    s.row < s.lines.len()
}

/// A fresh buffer: one empty line, cursor at its start.
pub open spec fn fresh_screen() -> Screen {
    Screen { lines: seq![Seq::<char>::empty()], row: 0, col: 0 }
}

/// `n` spaces.
pub open spec fn blank(n: nat) -> Seq<char> {
    Seq::new(n, |_i: int| ' ')
}

/// `line` with `c` written at column `col`: replaced in place when the line
/// reaches that far, otherwise appended after padding with spaces.
pub open spec fn put_char(line: Seq<char>, col: nat, c: char) -> Seq<char> {
    if col < line.len() {
        line.update(col as int, c)
    } else {
        line + blank((col - line.len()) as nat) + seq![c]
    }
}

/// The next tab stop strictly after `col`.
pub open spec fn next_tab_stop(col: nat) -> nat {
    (col / 8 + 1) * 8
}

/// The effect of one character.
pub open spec fn step(s: Screen, c: char) -> Screen {
    if c == '\n' {
        Screen {
            lines: if s.row + 1 >= s.lines.len() {
                s.lines.push(Seq::<char>::empty())
            } else {
                s.lines
            },
            row: s.row + 1,
            col: 0,
        }
    } else if c == '\r' {
        Screen { col: 0, ..s }
    } else if c == '\t' {
        Screen { col: next_tab_stop(s.col), ..s }
    } else {
        Screen {
            lines: s.lines.update(s.row as int, put_char(s.lines[s.row as int], s.col, c)),
            col: s.col + 1,
            ..s
        }
    }
}

/// The effect of a character sequence, one character after another.
pub open spec fn feed(s: Screen, cs: Seq<char>) -> Screen
    decreases cs.len(),
{
    if cs.len() == 0 {
        s
    } else {
        step(feed(s, cs.drop_last()), cs.last())
    }
}

/// The marker line added when the session ends.
pub open spec fn end_marker() -> Seq<char> {
    "--- Terminal session ended ---"@
}

/// The effect of one chunk of session output: an empty chunk adds the
/// end-of-session marker line; valid UTF-8 is fed character by character;
/// a chunk that is not valid UTF-8 is dropped.
pub open spec fn after_output(s: Screen, data: Seq<u8>) -> Screen {
    if data.len() == 0 {
        Screen { lines: s.lines.push(end_marker()), ..s }
    } else if valid_utf8(data) {
        feed(s, decode_utf8(data))
    } else {
        s
    }
}

/// The effect of a sequence of chunks, fed in order.
pub open spec fn replay(s: Screen, chunks: Seq<Seq<u8>>) -> Screen
    decreases chunks.len(),
{
    if chunks.len() == 0 {
        s
    } else {
        after_output(replay(s, chunks.drop_last()), chunks.last())
    }
}

/// The bytes sent for a line of user input: its UTF-8 encoding followed by
/// carriage return and line feed.
pub open spec fn input_line(input: Seq<char>) -> Seq<u8> {
    vstd::utf8::encode_utf8(input) + seq![13u8, 10u8]
}

/// The marker line added when sending input failed with `err`.
pub open spec fn send_error_marker(err: SessionError) -> Seq<char> {
    match err {
        SessionError::LockPoisoned => "--- Terminal session error (mutex poisoned) ---"@,
        _ => "--- Error sending input: "@ + err.description() + " ---"@,
    }
}

/// Relies on std::str::from_utf8: it succeeds exactly on valid UTF-8, and
/// `chars` then yields the decoded characters.
#[verifier::external_body]
fn utf8_chars(data: &[u8]) -> (r: Option<Vec<char>>)
    ensures
        r is Some <==> valid_utf8(data@),
        r matches Some(v) ==> v@ == decode_utf8(data@),
{
    std::str::from_utf8(data).ok().map(|s| s.chars().collect())
}

/// Relies on String's FromIterator<char>: the string holds the characters in order.
#[verifier::external_body]
fn chars_to_string(chars: &[char]) -> (r: String)
    ensures
        r@ == chars@,
{
    chars.iter().collect()
}

/// The characters of `s`, in order.
fn chars_of(s: &str) -> (r: Vec<char>)
    ensures
        r@ == s@,
{
    let n = s.unicode_len();
    let mut out: Vec<char> = Vec::new();
    let mut i: usize = 0;
    while i < n
        invariant
            n == s@.len(),
            i <= n,
            out@ == s@.take(i as int),
        decreases n - i,
    {
        out.push(s.get_char(i));
        i += 1;
        proof {
            assert(out@ =~= s@.take(i as int));
        }
    }
    proof {
        assert(out@ =~= s@);
    }
    out
}

/// Display lines and a cursor; the buffer below keeps its cursor row in range.
struct Grid {
    buffer: Vec<Vec<char>>,
    cursor_x: usize,
    cursor_y: usize,
}

impl View for Grid {
    type V = Screen;

    closed spec fn view(&self) -> Screen {
        Screen {
            lines: self.buffer@.map_values(|l: Vec<char>| l@),
            row: self.cursor_y as nat,
            col: self.cursor_x as nat,
        }
    }
}

impl Grid {
    /// A fresh buffer: one empty line, cursor at its start.
    fn new() -> (r: Grid)
        ensures
            r@ == fresh_screen(),
            well_formed(r@),
    {
        let mut buffer: Vec<Vec<char>> = Vec::new();
        buffer.push(Vec::new());
        let r = Grid { buffer, cursor_x: 0, cursor_y: 0 };
        proof {
            assert(r@.lines =~= fresh_screen().lines);
        }
        r
    }

    /// Number of lines.
    fn line_count(&self) -> (r: usize)
        ensures
            r == self@.lines.len(),
    {
        self.buffer.len()
    }

    /// The text of line `i`.
    fn line(&self, i: usize) -> (r: String)
        requires
            i < self@.lines.len(),
        ensures
            r@ == self@.lines[i as int],
    {
        chars_to_string(self.buffer[i].as_slice())
    }

    /// The cursor as (line index, column index).
    fn cursor(&self) -> (r: (usize, usize))
        ensures
            r.0 == self@.row,
            r.1 == self@.col,
    {
        (self.cursor_y, self.cursor_x)
    }

    /// Appends a whole line after the last one; the cursor stays.
    fn push_line(&mut self, line: Vec<char>)
        ensures
            final(self)@ == (Screen { lines: old(self)@.lines.push(line@), ..old(self)@ }),
    {
        self.buffer.push(line);
        proof {
            assert(final(self)@.lines =~= old(self)@.lines.push(line@));
        }
    }

    /// Feeds one character.
    fn put(&mut self, c: char)
        requires
            well_formed(old(self)@),
            old(self)@.col + 8 <= usize::MAX,
        ensures
            final(self)@ == step(old(self)@, c),
            well_formed(final(self)@),
    {
        let ghost s = self@;
        if c == '\n' {
            let len = self.buffer.len();
            self.cursor_y = self.cursor_y + 1;
            self.cursor_x = 0;
            if self.cursor_y >= len {
                self.buffer.push(Vec::new());
            }
            proof {
                assert(self@.lines =~= step(s, c).lines);
            }
        } else if c == '\r' {
            self.cursor_x = 0;
        } else if c == '\t' {
            self.cursor_x = (self.cursor_x / 8 + 1) * 8;
        } else {
            let col = self.cursor_x;
            let y = self.cursor_y;
            let line = &mut self.buffer[y];
            let ghost before = line@;
            if col < line.len() {
                line.set(col, c);
            } else {
                while line.len() < col
                    invariant
                        before.len() <= line@.len() <= col,
                        line@ == before + blank((line@.len() - before.len()) as nat),
                    decreases col - line@.len(),
                {
                    line.push(' ');
                    proof {
                        assert(line@ =~= before + blank((line@.len() - before.len()) as nat));
                    }
                }
                line.push(c);
            }
            proof {
                assert(line@ =~= put_char(before, col as nat, c));
            }
            self.cursor_x = col + 1;
            proof {
                assert(self@.lines =~= step(s, c).lines);
            }
        }
    }

    /// Feeds a character sequence, one character after another.
    fn process_text(&mut self, text: &[char])
        requires
            well_formed(old(self)@),
            old(self)@.col + 8 * text@.len() <= usize::MAX,
        ensures
            final(self)@ == feed(old(self)@, text@),
            well_formed(final(self)@),
    {
        let ghost s0 = self@;
        let mut i: usize = 0;
        while i < text.len()
            invariant
                i <= text@.len(),
                self@ == feed(s0, text@.take(i as int)),
                well_formed(self@),
                self@.col <= s0.col + 8 * i,
                s0.col + 8 * text@.len() <= usize::MAX,
            decreases text@.len() - i,
        {
            proof {
                assert(self@.col + 8 <= usize::MAX) by (nonlinear_arith)
                    requires
                        self@.col <= s0.col + 8 * i,
                        i < text@.len(),
                        s0.col + 8 * text@.len() <= usize::MAX,
                ;
            }
            self.put(text[i]);
            proof {
                let t = text@.take(i as int + 1);
                assert(t.drop_last() =~= text@.take(i as int));
                assert(t.last() == text@[i as int]);
                assert(self@.col <= s0.col + 8 * (i + 1)) by (nonlinear_arith)
                    requires
                        self@.col <= s0.col + 8 * i + 8,
                ;
            }
            i += 1;
        }
        proof {
            assert(text@.take(text@.len() as int) =~= text@);
        }
    }

    /// Feeds one chunk of session output. An empty chunk means the session
    /// ended: the end-of-session marker line is added after the existing
    /// lines, which are left as they were. Valid UTF-8 is fed character by
    /// character; a chunk that is not valid UTF-8 is dropped.
    fn process_output(&mut self, data: &[u8])
        requires
            well_formed(old(self)@),
            data@.len() == 0 || old(self)@.col + 8 * data@.len() <= usize::MAX,
        ensures
            final(self)@ == after_output(old(self)@, data@),
            well_formed(final(self)@),
    {
        if data.len() == 0 {
            self.push_line(chars_of("--- Terminal session ended ---"));
            return;
        }
        match utf8_chars(data) {
            Some(text) => {
                proof {
                    lemma_decoded_not_longer(data@);
                }
                self.process_text(text.as_slice());
            },
            None => {},
        }
    }

    /// Records that sending input failed: a visible marker line naming the
    /// error is added after the existing lines; the cursor stays.
    fn report_send_error(&mut self, err: SessionError)
        ensures
            final(self)@ == (Screen {
                lines: old(self)@.lines.push(send_error_marker(err)),
                ..old(self)@
            }),
    {
        let line = match err {
            SessionError::LockPoisoned => chars_of(
                "--- Terminal session error (mutex poisoned) ---",
            ),
            _ => {
                let mut line = chars_of("--- Error sending input: ");
                let mut rest = chars_of(err.describe());
                line.append(&mut rest);
                let mut tail = chars_of(" ---");
                line.append(&mut tail);
                line
            },
        };
        self.push_line(line);
    }
}

/// A terminal buffer: display lines and a cursor whose row always names
/// one of the lines.
pub struct TerminalWidgetState {
    grid: Grid,
}

impl View for TerminalWidgetState {
    type V = Screen;

    closed spec fn view(&self) -> Screen {
        self.grid@
    }
}

impl TerminalWidgetState {
    #[verifier::type_invariant]
    spec fn cursor_in_range(&self) -> bool {
        well_formed(self.grid@)
    }

    /// A fresh buffer: one empty line, cursor at its start.
    pub fn new() -> (r: TerminalWidgetState)
        ensures
            r@ == fresh_screen(),
    {
        TerminalWidgetState { grid: Grid::new() }
    }

    /// Number of lines.
    pub fn line_count(&self) -> (r: usize)
        ensures
            r == self@.lines.len(),
    {
        self.grid.line_count()
    }

    /// The text of line `i`.
    pub fn line(&self, i: usize) -> (r: String)
        requires
            i < self@.lines.len(),
        ensures
            r@ == self@.lines[i as int],
    {
        self.grid.line(i)
    }

    /// The cursor as (line index, column index).
    pub fn cursor(&self) -> (r: (usize, usize))
        ensures
            r.0 == self@.row,
            r.1 == self@.col,
    {
        self.grid.cursor()
    }

    /// Feeds a character sequence, one character after another.
    pub fn process_text(&mut self, text: &[char])
        requires
            old(self)@.col + 8 * text@.len() <= usize::MAX,
        ensures
            final(self)@ == feed(old(self)@, text@),
    {
        proof {
            use_type_invariant(&*self);
        }
        let mut grid = Grid::new();
        std::mem::swap(&mut grid, &mut self.grid);
        grid.process_text(text);
        std::mem::swap(&mut grid, &mut self.grid);
    }

    /// Feeds one chunk of session output. An empty chunk means the session
    /// ended: the end-of-session marker line is added after the existing
    /// lines, which are left as they were. Valid UTF-8 is fed character by
    /// character; a chunk that is not valid UTF-8 is dropped.
    pub fn process_output(&mut self, data: &[u8])
        requires
            data@.len() == 0 || old(self)@.col + 8 * data@.len() <= usize::MAX,
        ensures
            final(self)@ == after_output(old(self)@, data@),
    {
        proof {
            use_type_invariant(&*self);
        }
        let mut grid = Grid::new();
        std::mem::swap(&mut grid, &mut self.grid);
        grid.process_output(data);
        std::mem::swap(&mut grid, &mut self.grid);
    }

    /// The bytes to write to the session for a line of user input: the
    /// input followed by carriage return and line feed.
    pub fn send_input(&self, input: &str) -> (r: Vec<u8>)
        ensures
            r@ == input_line(input@),
    {
        let mut bytes = input.as_bytes_vec();
        bytes.push(13u8);
        bytes.push(10u8);
        bytes
    }

    /// Records that sending input failed: a visible marker line naming the
    /// error is added after the existing lines; the cursor stays.
    pub fn report_send_error(&mut self, err: SessionError)
        ensures
            final(self)@ == (Screen {
                lines: old(self)@.lines.push(send_error_marker(err)),
                ..old(self)@
            }),
    {
        proof {
            use_type_invariant(&*self);
        }
        let mut grid = Grid::new();
        std::mem::swap(&mut grid, &mut self.grid);
        grid.report_send_error(err);
        std::mem::swap(&mut grid, &mut self.grid);
    }
}

/// Valid UTF-8 decodes to no more characters than it has bytes.
proof fn lemma_decoded_not_longer(data: Seq<u8>)
    requires
        valid_utf8(data),
    ensures
        decode_utf8(data).len() <= data.len(),
    decreases data.len(),
{
    if data.len() != 0 {
        let rest = vstd::utf8::pop_first_scalar(data);
        assert(rest.len() < data.len()) by {
            assert(vstd::utf8::length_of_first_scalar(data) >= 1);
        }
        lemma_decoded_not_longer(rest);
    }
}

/// Processing is a function of the input history: two buffers in the same
/// state that are fed the same chunks end in the same state.
pub proof fn lemma_output_deterministic(a: Screen, b: Screen, chunks: Seq<Seq<u8>>)
    requires
        a == b,
    ensures
        replay(a, chunks) == replay(b, chunks),
{
}

} // verus!
