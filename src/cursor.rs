//! The cursor: a position on a fixed grid, moved one cell at a time by the
//! vi-style keys `h`, `j`, `k` and `l`, and held inside the grid.

use vstd::prelude::*;

verus! {

/// The position reached from `(x, y)` on a grid of `rows` by `columns` by
/// the key `code`: `k` goes up, `j` down, `h` left and `l` right, each only
/// where the grid goes on in that direction. Any other key, and a step that
/// would leave the grid, keeps the position.
pub open spec fn step(x: nat, y: nat, rows: nat, columns: nat, code: char) -> (nat, nat) {
    if code == 'k' && y > 0 {
        (x, (y - 1) as nat)
    } else if code == 'j' && y + 1 < rows {
        (x, y + 1)
    } else if code == 'h' && x > 0 {
        ((x - 1) as nat, y)
    } else if code == 'l' && x + 1 < columns {
        (x + 1, y)
    } else {
        (x, y)
    }
}

/// The position reached from `(x, y)` by the keys of `codes`, in order.
pub open spec fn walk(x: nat, y: nat, rows: nat, columns: nat, codes: Seq<char>) -> (nat, nat)
    decreases codes.len(),
{
    if codes.len() == 0 {
        (x, y)
    } else {
        let (x1, y1) = walk(x, y, rows, columns, codes.drop_last());
        step(x1, y1, rows, columns, codes.last())
    }
}

/// Whether `(x, y)` is a cell of a grid of `rows` by `columns`.
pub open spec fn in_grid(x: nat, y: nat, rows: nat, columns: nat) -> bool {
    x < columns && y < rows
}

pub struct Cursor {
    pub x: usize,
    pub y: usize,
    pub rows: usize,
    pub columns: usize,
}

impl Cursor {
    /// The cursor stands on a cell of its grid.
    pub open spec fn wf(&self) -> bool {
        in_grid(self.x as nat, self.y as nat, self.rows as nat, self.columns as nat)
    }

    /// The position as a pair of naturals.
    pub open spec fn pos(&self) -> (nat, nat) {
        (self.x as nat, self.y as nat)
    }

    /// A cursor in the top left cell of a grid of `rows` by `columns`.
    pub fn new(rows: usize, columns: usize) -> (r: Cursor)
        requires
            rows >= 1,
            columns >= 1,
        ensures
            r.wf(),
            r.x == 0,
            r.y == 0,
            r.rows == rows,
            r.columns == columns,
    {
        Cursor { x: 0, y: 0, rows, columns }
    }

    /// Moves one cell in the direction of `code`, or stays where that would
    /// leave the grid or `code` is no direction key.
    pub fn move_cursor(&mut self, code: char)
        requires
            old(self).wf(),
        ensures
            final(self).wf(),
            final(self).rows == old(self).rows,
            final(self).columns == old(self).columns,
            final(self).pos() == step(
                old(self).x as nat,
                old(self).y as nat,
                old(self).rows as nat,
                old(self).columns as nat,
                code,
            ),
    {
        match code {
            'k' => {
                if self.y > 0 {
                    self.y -= 1;
                }
            },
            'j' => {
                if self.y < self.rows - 1 {
                    self.y += 1;
                }
            },
            'h' => {
                if self.x > 0 {
                    self.x -= 1;
                }
            },
            'l' => {
                if self.x < self.columns - 1 {
                    self.x += 1;
                }
            },
            _ => {},
        }
    }
}

/// One step never leaves the grid.
pub proof fn lemma_step_in_grid(x: nat, y: nat, rows: nat, columns: nat, code: char)
    requires
        in_grid(x, y, rows, columns),
    ensures
        in_grid(step(x, y, rows, columns, code).0, step(x, y, rows, columns, code).1, rows, columns),
{
}

/// Clamping: on a grid of at least one row and one column, every sequence of
/// direction keys keeps the cursor inside the grid after each of its steps.
pub proof fn lemma_walk_in_grid(x: nat, y: nat, rows: nat, columns: nat, codes: Seq<char>)
    requires
        rows >= 1,
        columns >= 1,
        in_grid(x, y, rows, columns),
    ensures
        forall|i: int|
            0 <= i <= codes.len() ==> #[trigger] in_grid(
                walk(x, y, rows, columns, codes.take(i)).0,
                walk(x, y, rows, columns, codes.take(i)).1,
                rows,
                columns,
            ),
    decreases codes.len(),
{
    if codes.len() > 0 {
        lemma_walk_in_grid(x, y, rows, columns, codes.drop_last());
        assert forall|i: int| 0 <= i <= codes.len() implies #[trigger] in_grid(
            walk(x, y, rows, columns, codes.take(i)).0,
            walk(x, y, rows, columns, codes.take(i)).1,
            rows,
            columns,
        ) by {
            if i < codes.len() {
                assert(codes.take(i) =~= codes.drop_last().take(i));
            } else {
                assert(codes.take(i) =~= codes);
                let (x1, y1) = walk(x, y, rows, columns, codes.drop_last());
                assert(codes.drop_last().take(codes.len() - 1) =~= codes.drop_last());
                lemma_step_in_grid(x1, y1, rows, columns, codes.last());
            }
        }
    }
}

/// At an edge of the grid the key that points out of it does nothing: `k`
/// on the top row, `j` on the bottom row, `h` in the first column and `l`
/// in the last.
pub proof fn lemma_edges_hold(x: nat, y: nat, rows: nat, columns: nat)
    requires
        rows >= 1,
        columns >= 1,
        in_grid(x, y, rows, columns),
    ensures
        step(x, 0, rows, columns, 'k') == (x, 0nat),
        step(x, (rows - 1) as nat, rows, columns, 'j') == (x, (rows - 1) as nat),
        step(0, y, rows, columns, 'h') == (0nat, y),
        step((columns - 1) as nat, y, rows, columns, 'l') == ((columns - 1) as nat, y),
{
}

} // verus!
