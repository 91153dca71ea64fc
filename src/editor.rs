//! The render loop: each frame stages a full redraw of the grid and the
//! cursor for one write, then one key event is dispatched.

use crate::ansi::{
    clear_line, clear_line_seq, hide_cursor, hide_seq, move_to, move_to_seq, show_cursor,
    show_seq,
};
use crate::buffer::Buffer;
use crate::cursor::{step, Cursor};
use crate::error::EditorError;
use crate::key::{KeyCode, KeyPress, Modifiers, Reader};
use vstd::prelude::*;

verus! {

/// The largest number of rows or columns that a terminal reports.
pub const MAX_EXTENT: usize = 65535;

/// Whether the loop goes on drawing frames.
#[derive(Debug, Clone, Copy, PartialEq, Eq, Structural)]
pub enum Status {
    Running,
    Stopped,
}

/// The key that ends the session: control and `q`.
pub open spec fn is_stop_key(key: KeyPress) -> bool {
    key.code == KeyCode::Char('q') && key.modifiers == Modifiers::Control
}

/// The direction key that `key` is, if any: `h`, `j`, `k` or `l` with no
/// modifier.
pub open spec fn motion_of(key: KeyPress) -> Option<char> {
    match key.code {
        KeyCode::Char(c) => if key.modifiers == Modifiers::Plain && (c == 'h' || c == 'j' || c
            == 'k' || c == 'l') {
            Some(c)
        } else {
            None
        },
        KeyCode::Other => None,
    }
}

/// The text of row `i` of `n`: the placeholder `~`, a clear to the end of
/// the line, and a line break unless it is the last row.
pub open spec fn row_text(i: nat, n: nat) -> Seq<char> {
    seq!['~'] + clear_line_seq() + if i + 1 < n {
        seq!['\r', '\n']
    } else {
        Seq::<char>::empty()
    }
}

/// The text of the first `k` of `n` rows.
pub open spec fn rows_prefix(k: nat, n: nat) -> Seq<char>
    decreases k,
{
    if k == 0 {
        Seq::<char>::empty()
    } else {
        rows_prefix((k - 1) as nat, n) + row_text((k - 1) as nat, n)
    }
}

/// The text of all `n` rows.
pub open spec fn rows_text(n: nat) -> Seq<char> {
    rows_prefix(n, n)
}

/// The text of a frame of `rows` rows with the cursor at `(x, y)`: hide the
/// cursor, go home, draw the rows, put the cursor at `(x, y)` and show it.
pub open spec fn frame_text(rows: nat, x: nat, y: nat) -> Seq<char> {
    hide_seq() + move_to_seq(0, 0) + rows_text(rows) + move_to_seq(x, y) + show_seq()
}

pub struct Editor {
    pub rows: usize,
    pub columns: usize,
    pub cursor: Cursor,
    pub reader: Reader,
    pub buffer: Buffer,
    pub status: Status,
}

impl Editor {
    /// The grid has one row and one column at least, no more than a
    /// terminal reports, and the cursor lies on it.
    pub open spec fn wf(&self) -> bool {
        &&& 1 <= self.rows <= MAX_EXTENT
        &&& 1 <= self.columns <= MAX_EXTENT
        &&& self.cursor.rows == self.rows
        &&& self.cursor.columns == self.columns
        &&& self.cursor.wf()
    }

    /// A running editor for a grid of `rows` by `columns`, with the cursor
    /// in the top left cell and nothing staged. A grid with no row or no
    /// column, or wider or taller than `MAX_EXTENT`, is refused.
    pub fn new(rows: usize, columns: usize) -> (r: Result<Editor, EditorError>)
        ensures
            (1 <= rows <= MAX_EXTENT && 1 <= columns <= MAX_EXTENT) <==> r is Ok,
            r is Err ==> r == Err::<Editor, EditorError>(EditorError::Config),
            r matches Ok(e) ==> {
                &&& e.wf()
                &&& e.rows == rows
                &&& e.columns == columns
                &&& e.cursor.pos() == (0nat, 0nat)
                &&& e.buffer.content@ == Seq::<char>::empty()
                &&& e.status == Status::Running
            },
    {
        if rows == 0 || columns == 0 || rows > MAX_EXTENT || columns > MAX_EXTENT {
            return Err(EditorError::Config);
        }
        Ok(
            Editor {
                rows,
                columns,
                cursor: Cursor::new(rows, columns),
                reader: Reader,
                buffer: Buffer::new(rows, columns),
                status: Status::Running,
            },
        )
    }

    /// Stages one placeholder row for each row of the grid.
    pub fn draw_rows(&mut self)
        requires
            old(self).wf(),
        ensures
            final(self).buffer.content@ == old(self).buffer.content@ + rows_text(
                old(self).rows as nat,
            ),
            final(self).wf(),
            final(self).rows == old(self).rows,
            final(self).columns == old(self).columns,
            final(self).cursor == old(self).cursor,
            final(self).status == old(self).status,
    {
        let screen_rows = self.rows;
        let ghost start = self.buffer.content@;
        let mut i: usize = 0;
        while i < screen_rows
            invariant
                i <= screen_rows,
                screen_rows == self.rows,
                self.wf(),
                self.rows == old(self).rows,
                self.columns == old(self).columns,
                self.cursor == old(self).cursor,
                self.status == old(self).status,
                start == old(self).buffer.content@,
                self.buffer.content@ == start + rows_prefix(i as nat, screen_rows as nat),
            decreases screen_rows - i,
        {
            let ghost before = self.buffer.content@;
            self.buffer.append("~");
            let clear = clear_line();
            self.buffer.append(clear.as_str());
            if i < screen_rows - 1 {
                self.buffer.append("\r\n");
            }
            proof {
                reveal_strlit("~");
                reveal_strlit("\r\n");
                assert(self.buffer.content@ =~= before + row_text(i as nat, screen_rows as nat));
                assert(self.buffer.content@ =~= start + rows_prefix(
                    (i + 1) as nat,
                    screen_rows as nat,
                ));
            }
            i += 1;
        }
    }

    /// Stages a whole frame: the rows, then the cursor at its position.
    pub fn stage_frame(&mut self)
        requires
            old(self).wf(),
        ensures
            final(self).buffer.content@ == old(self).buffer.content@ + frame_text(
                old(self).rows as nat,
                old(self).cursor.x as nat,
                old(self).cursor.y as nat,
            ),
            final(self).wf(),
            final(self).rows == old(self).rows,
            final(self).columns == old(self).columns,
            final(self).cursor == old(self).cursor,
            final(self).status == old(self).status,
    {
        let hide = hide_cursor();
        self.buffer.append(hide.as_str());
        let home = move_to(0, 0);
        self.buffer.append(home.as_str());
        self.draw_rows();
        let at = move_to(self.cursor.x as u16, self.cursor.y as u16);
        self.buffer.append(at.as_str());
        let show = show_cursor();
        self.buffer.append(show.as_str());
        assert(self.buffer.content@ =~= old(self).buffer.content@ + frame_text(
            old(self).rows as nat,
            old(self).cursor.x as nat,
            old(self).cursor.y as nat,
        ));
    }

    /// Dispatches one key event and returns whether the loop goes on.
    /// Control and `q` stops the loop; `h`, `j`, `k` and `l` with no
    /// modifier move the cursor; every other key changes nothing. A stopped
    /// editor stays stopped and takes no more keys.
    pub fn process_keypress(&mut self, key: KeyPress) -> (r: bool)
        requires
            old(self).wf(),
        ensures
            final(self).wf(),
            r == (final(self).status == Status::Running),
            final(self).rows == old(self).rows,
            final(self).columns == old(self).columns,
            final(self).buffer == old(self).buffer,
            old(self).status == Status::Stopped ==> *final(self) == *old(self),
            is_stop_key(key) ==> final(self).status == Status::Stopped && !r,
            !is_stop_key(key) && motion_of(key) is None ==> {
                &&& final(self).cursor == old(self).cursor
                &&& final(self).status == old(self).status
            },
            old(self).status == Status::Running && is_stop_key(key) ==> {
                &&& final(self).status == Status::Stopped
                &&& final(self).cursor == old(self).cursor
            },
            old(self).status == Status::Running && !is_stop_key(key) ==> {
                &&& final(self).status == Status::Running
                &&& final(self).cursor.pos() == match motion_of(key) {
                    Some(c) => step(
                        old(self).cursor.x as nat,
                        old(self).cursor.y as nat,
                        old(self).rows as nat,
                        old(self).columns as nat,
                        c,
                    ),
                    None => old(self).cursor.pos(),
                }
            },
    {
        if self.status == Status::Stopped {
            return false;
        }
        match key {
            KeyPress { code: KeyCode::Char('q'), modifiers: Modifiers::Control } => {
                self.status = Status::Stopped;
                return false;
            },
            KeyPress {
                code: KeyCode::Char(c @ ('k' | 'j' | 'h' | 'l')),
                modifiers: Modifiers::Plain,
            } => self.cursor.move_cursor(c),
            _ => {},
        }
        true
    }
}

} // verus!
