//! Line clearing: detect fully filled rows and remove them.
//!
//! The API is split in two phases so the animation layer can hold the
//! completed rows on screen for a beat before they actually disappear:
//!
//! * [`detect_full_rows`] returns the indices of the currently full rows,
//!   without touching the board.
//! * [`clear_rows`] removes the given rows and collapses the stack.
//!
//! [`clear_full_lines`] wires both together.
use vstd::prelude::*;

use super::grid::{BOARD_HEIGHT, BOARD_WIDTH, Board, Row};

verus! {

/// Maximum number of rows a single tetromino lock can clear (I-piece).
pub const MAX_CLEARED_ROWS: usize = 4;

/// Row indices, in the pre-clear frame, of every fully filled row.
/// `None` marks unused slots, populated left-to-right.
pub type ClearedRows = [Option<u8>; MAX_CLEARED_ROWS];

/// Every cell of `row` is occupied.
pub open spec fn row_is_full(row: Row) -> bool {
    forall|x: int| 0 <= x < BOARD_WIDTH ==> (#[trigger] row[x]) is Some
}

/// Every cell of `row` is empty.
pub open spec fn row_is_empty(row: Row) -> bool {
    forall|x: int| 0 <= x < BOARD_WIDTH ==> (#[trigger] row[x]) is None
}

/// The indices of the full rows among rows `0..n`, bottom to top.
pub open spec fn full_rows_below(board: Board, n: int) -> Seq<int>
    decreases n,
{
    if n <= 0 {
        Seq::empty()
    } else if row_is_full(board.cells[n - 1]) {
        full_rows_below(board, n - 1).push(n - 1)
    } else {
        full_rows_below(board, n - 1)
    }
}

/// The indices of all full rows of the playfield, bottom to top.
pub open spec fn full_rows(board: Board) -> Seq<int> {
    full_rows_below(board, BOARD_HEIGHT as int)
}

/// Slot `i` of what [`detect_full_rows`] reports: the `i`-th full row from the
/// bottom, or `None` when there are not that many.
pub open spec fn detected_slot(board: Board, i: int) -> Option<u8> {
    if i < full_rows(board).len() {
        Some(full_rows(board)[i] as u8)
    } else {
        None
    }
}

/// The slot names row `y`.
pub open spec fn slot_names(slot: Option<u8>, y: int) -> bool {
    slot matches Some(v) && v as int == y
}

/// Row `y` is listed in `rows`.
pub open spec fn is_marked(rows: ClearedRows, y: int) -> bool {
    slot_names(rows[0], y) || slot_names(rows[1], y) || slot_names(rows[2], y) || slot_names(
        rows[3],
        y,
    )
}

/// How many of the rows `0..n` are listed in `rows` (each counted once).
pub open spec fn count_marked(rows: ClearedRows, n: int) -> int
    decreases n,
{
    if n <= 0 {
        0
    } else {
        count_marked(rows, n - 1) + if is_marked(rows, n - 1) {
            1int
        } else {
            0
        }
    }
}

/// The rows among `0..n` of `board` that are not listed in `rows`, bottom to top.
pub open spec fn kept_rows(board: Board, rows: ClearedRows, n: int) -> Seq<Row>
    decreases n,
{
    if n <= 0 {
        Seq::empty()
    } else if is_marked(rows, n - 1) {
        kept_rows(board, rows, n - 1)
    } else {
        kept_rows(board, rows, n - 1).push(board.cells[n - 1])
    }
}

/// `after` is `before` with the rows listed in `rows` removed, the rows above
/// them moved down in order, and empty rows added at the top.
pub open spec fn collapsed(before: Board, rows: ClearedRows, after: Board) -> bool {
    let kept = kept_rows(before, rows, BOARD_HEIGHT as int);
    forall|y: int|
        0 <= y < BOARD_HEIGHT ==> if y < kept.len() {
            #[trigger] after.cells[y] == kept[y]
        } else {
            row_is_empty(after.cells[y])
        }
}

proof fn lemma_full_rows_below_facts(board: Board, n: int)
    ensures
        forall|i: int|
            0 <= i < full_rows_below(board, n).len() ==> 0 <= #[trigger] full_rows_below(
                board,
                n,
            )[i] < n,
        forall|i: int, j: int|
            0 <= i < j < full_rows_below(board, n).len() ==> #[trigger] full_rows_below(
                board,
                n,
            )[i] < #[trigger] full_rows_below(board, n)[j],
        forall|y: int|
            0 <= y < n ==> (full_rows_below(board, n).contains(y) <==> row_is_full(
                #[trigger] board.cells[y],
            )),
        full_rows_below(board, n).len() <= if n < 0 {
            0
        } else {
            n
        },
    decreases n,
{
    if n > 0 {
        lemma_full_rows_below_facts(board, n - 1);
        let s = full_rows_below(board, n - 1);
        if row_is_full(board.cells[n - 1]) {
            assert(full_rows_below(board, n) == s.push(n - 1));
            assert forall|y: int| 0 <= y < n implies (full_rows_below(board, n).contains(y)
                <==> row_is_full(#[trigger] board.cells[y])) by {
                if y < n - 1 {
                    if s.contains(y) {
                        let k = choose|k: int| 0 <= k < s.len() && #[trigger] s[k] == y;
                        assert(s.push(n - 1)[k] == y);
                    }
                    if s.push(n - 1).contains(y) {
                        let k = choose|k: int| 0 <= k < s.len() + 1 && #[trigger] s.push(n - 1)[k] == y;
                        assert(k < s.len());
                    }
                } else {
                    assert(s.push(n - 1)[s.len() as int] == y);
                }
            }
        } else {
            assert forall|y: int| 0 <= y < n implies (full_rows_below(board, n).contains(y)
                <==> row_is_full(#[trigger] board.cells[y])) by {
                if y == n - 1 {
                    if s.contains(y) {
                        let k = choose|k: int| 0 <= k < s.len() && #[trigger] s[k] == y;
                    }
                }
            }
        }
    }
}

proof fn lemma_full_rows_prefix(board: Board, n: int, m: int)
    requires
        0 <= n <= m,
    ensures
        full_rows_below(board, n).len() <= full_rows_below(board, m).len(),
        full_rows_below(board, m).take(full_rows_below(board, n).len() as int)
            == full_rows_below(board, n),
    decreases m - n,
{
    if n < m {
        lemma_full_rows_prefix(board, n, m - 1);
        let s = full_rows_below(board, m - 1);
        let l = full_rows_below(board, n).len() as int;
        if row_is_full(board.cells[m - 1]) {
            assert(s.push(m - 1).take(l) =~= s.take(l));
        }
    } else {
        assert(full_rows_below(board, m).take(full_rows_below(board, m).len() as int)
            =~= full_rows_below(board, m));
    }
}

fn row_full(row: &Row) -> (r: bool)
    ensures
        r == row_is_full(*row),
{
    let mut x: usize = 0;
    while x < BOARD_WIDTH
        invariant
            0 <= x <= BOARD_WIDTH,
            forall|j: int| 0 <= j < x ==> (#[trigger] row[j]) is Some,
        decreases BOARD_WIDTH - x,
    {
        if row[x].is_none() {
            return false;
        }
        x += 1;
    }
    true
}

pub fn detect_full_rows(board: &Board) -> (rows: ClearedRows)
    ensures
        forall|i: int| 0 <= i < MAX_CLEARED_ROWS ==> rows[i] == detected_slot(*board, i),
{
    let mut rows: ClearedRows = [None; MAX_CLEARED_ROWS];
    let mut next: usize = 0;
    let mut y: usize = 0;
    proof {
        lemma_full_rows_below_facts(*board, BOARD_HEIGHT as int);
    }
    while y < BOARD_HEIGHT
        invariant
            0 <= y <= BOARD_HEIGHT,
            next == full_rows_below(*board, y as int).len(),
            next < MAX_CLEARED_ROWS,
            forall|i: int|
                0 <= i < MAX_CLEARED_ROWS ==> rows[i] == if i < next {
                    Some(full_rows_below(*board, y as int)[i] as u8)
                } else {
                    None
                },
        decreases BOARD_HEIGHT - y,
    {
        proof {
            lemma_full_rows_below_facts(*board, y as int);
        }
        if row_full(&board.cells[y]) {
            proof {
                assert(full_rows_below(*board, y as int + 1) == full_rows_below(
                    *board,
                    y as int,
                ).push(y as int));
            }
            rows[next] = Some(y as u8);
            next += 1;
            if next == MAX_CLEARED_ROWS {
                proof {
                    lemma_full_rows_prefix(*board, y as int + 1, BOARD_HEIGHT as int);
                    let s = full_rows_below(*board, y as int + 1);
                    let f = full_rows(*board);
                    assert(s.len() == 4);
                    assert(f.take(4) == s);
                    assert forall|i: int| 0 <= i < MAX_CLEARED_ROWS implies rows[i]
                        == detected_slot(*board, i) by {
                        assert(f.take(4)[i] == f[i]);
                    }
                }
                return rows;
            }
        }
        y += 1;
    }
    proof {
        lemma_full_rows_prefix(*board, y as int, BOARD_HEIGHT as int);
    }
    rows
}

/// Number of `true` entries among the first `n` of `flags`.
spec fn count_true(flags: Seq<bool>, n: int) -> int
    decreases n,
{
    if n <= 0 {
        0
    } else {
        count_true(flags, n - 1) + if flags[n - 1] {
            1int
        } else {
            0
        }
    }
}

proof fn lemma_count_true_set(flags: Seq<bool>, v: int, n: int)
    requires
        0 <= v < flags.len(),
        !flags[v],
        0 <= n <= flags.len(),
    ensures
        count_true(flags.update(v, true), n) == count_true(flags, n) + if v < n {
            1int
        } else {
            0
        },
    decreases n,
{
    if n > 0 {
        lemma_count_true_set(flags, v, n - 1);
    }
}

proof fn lemma_count_true_all_false(flags: Seq<bool>, n: int)
    requires
        0 <= n <= flags.len(),
        forall|y: int| 0 <= y < n ==> !(#[trigger] flags[y]),
    ensures
        count_true(flags, n) == 0,
    decreases n,
{
    if n > 0 {
        lemma_count_true_all_false(flags, n - 1);
    }
}

proof fn lemma_count_true_is_count_marked(flags: Seq<bool>, rows: ClearedRows, n: int)
    requires
        0 <= n <= flags.len(),
        forall|y: int| 0 <= y < n ==> #[trigger] flags[y] == is_marked(rows, y),
    ensures
        count_true(flags, n) == count_marked(rows, n),
    decreases n,
{
    if n > 0 {
        lemma_count_true_is_count_marked(flags, rows, n - 1);
    }
}

proof fn lemma_count_true_bounds(flags: Seq<bool>, n: int)
    requires
        0 <= n,
    ensures
        0 <= count_true(flags, n) <= n,
    decreases n,
{
    if n > 0 {
        lemma_count_true_bounds(flags, n - 1);
    }
}

/// The kept rows and the listed rows together account for every row.
pub proof fn lemma_kept_plus_marked(board: Board, rows: ClearedRows, n: int)
    requires
        0 <= n,
    ensures
        kept_rows(board, rows, n).len() + count_marked(rows, n) == n,
    decreases n,
{
    if n > 0 {
        lemma_kept_plus_marked(board, rows, n - 1);
    }
}

/// Removes the given rows and collapses the stack downward. Returns the
/// number of rows that were actually removed. Rows are interpreted in the
/// pre-clear coordinate frame, the same frame [`detect_full_rows`] returns.
pub fn clear_rows(board: &mut Board, rows: &ClearedRows) -> (cleared: u32)
    ensures
        cleared == count_marked(*rows, BOARD_HEIGHT as int),
        collapsed(*old(board), *rows, *final(board)),
{
    let ghost before = *board;
    let mut is_cleared: [bool; BOARD_HEIGHT] = [false; BOARD_HEIGHT];
    let mut cleared: u32 = 0;
    let mut i: usize = 0;
    proof {
        lemma_count_true_all_false(is_cleared@, BOARD_HEIGHT as int);
    }
    while i < MAX_CLEARED_ROWS
        invariant
            0 <= i <= MAX_CLEARED_ROWS,
            cleared == count_true(is_cleared@, BOARD_HEIGHT as int),
            forall|y: int|
                0 <= y < BOARD_HEIGHT ==> #[trigger] is_cleared[y] == (slot_names(rows[0], y) && 0
                    < i || slot_names(rows[1], y) && 1 < i || slot_names(rows[2], y) && 2 < i
                    || slot_names(rows[3], y) && 3 < i),
        decreases MAX_CLEARED_ROWS - i,
    {
        proof {
            lemma_count_true_bounds(is_cleared@, BOARD_HEIGHT as int);
        }
        if let Some(slot) = rows[i] {
            let y = slot as usize;
            if y < BOARD_HEIGHT && !is_cleared[y] {
                proof {
                    lemma_count_true_set(is_cleared@, y as int, BOARD_HEIGHT as int);
                }
                is_cleared[y] = true;
                cleared += 1;
            }
        }
        i += 1;
    }
    proof {
        lemma_count_true_is_count_marked(is_cleared@, *rows, BOARD_HEIGHT as int);
    }
    let mut write: usize = 0;
    let mut read: usize = 0;
    while read < BOARD_HEIGHT
        invariant
            0 <= write <= read <= BOARD_HEIGHT,
            forall|y: int| 0 <= y < BOARD_HEIGHT ==> #[trigger] is_cleared[y] == is_marked(*rows, y),
            write == kept_rows(before, *rows, read as int).len(),
            forall|y: int|
                0 <= y < write ==> #[trigger] board.cells[y] == kept_rows(
                    before,
                    *rows,
                    read as int,
                )[y],
            forall|y: int| read <= y < BOARD_HEIGHT ==> #[trigger] board.cells[y] == before.cells[y],
        decreases BOARD_HEIGHT - read,
    {
        if !is_cleared[read] {
            if write != read {
                let row = board.cells[read];
                board.cells[write] = row;
            }
            write += 1;
        }
        read += 1;
    }
    let ghost kept = kept_rows(before, *rows, BOARD_HEIGHT as int);
    while write < BOARD_HEIGHT
        invariant
            0 <= write <= BOARD_HEIGHT,
            kept.len() <= write,
            kept == kept_rows(before, *rows, BOARD_HEIGHT as int),
            forall|y: int| 0 <= y < kept.len() ==> #[trigger] board.cells[y] == kept[y],
            forall|y: int| kept.len() <= y < write ==> row_is_empty(#[trigger] board.cells[y]),
        decreases BOARD_HEIGHT - write,
    {
        let empty: Row = [None; BOARD_WIDTH];
        board.cells[write] = empty;
        write += 1;
    }
    cleared
}

/// When `rows` lists exactly the full rows of `board`, counting the listed
/// rows counts the full rows.
proof fn lemma_count_marked_full(board: Board, rows: ClearedRows, n: int)
    requires
        0 <= n <= BOARD_HEIGHT,
        forall|y: int|
            0 <= y < BOARD_HEIGHT ==> (is_marked(rows, y) <==> row_is_full(
                #[trigger] board.cells[y],
            )),
    ensures
        count_marked(rows, n) == full_rows_below(board, n).len(),
    decreases n,
{
    if n > 0 {
        lemma_count_marked_full(board, rows, n - 1);
        assert(is_marked(rows, n - 1) <==> row_is_full(board.cells[n - 1]));
    }
}

proof fn lemma_kept_rows_not_full(board: Board, rows: ClearedRows, n: int)
    requires
        0 <= n <= BOARD_HEIGHT,
        forall|y: int|
            0 <= y < BOARD_HEIGHT ==> (row_is_full(#[trigger] board.cells[y]) ==> is_marked(
                rows,
                y,
            )),
    ensures
        forall|j: int|
            0 <= j < kept_rows(board, rows, n).len() ==> !row_is_full(
                #[trigger] kept_rows(board, rows, n)[j],
            ),
    decreases n,
{
    if n > 0 {
        lemma_kept_rows_not_full(board, rows, n - 1);
        assert(row_is_full(board.cells[n - 1]) ==> is_marked(rows, n - 1));
        let prev = kept_rows(board, rows, n - 1);
        if !is_marked(rows, n - 1) {
            assert forall|j: int| 0 <= j < kept_rows(board, rows, n).len() implies !row_is_full(
                #[trigger] kept_rows(board, rows, n)[j],
            ) by {
                if j < prev.len() {
                    assert(kept_rows(board, rows, n)[j] == prev[j]);
                }
            }
        }
    }
}

proof fn lemma_no_full_row(board: Board)
    requires
        forall|y: int| 0 <= y < BOARD_HEIGHT ==> !row_is_full(#[trigger] board.cells[y]),
    ensures
        full_rows(board).len() == 0,
{
    lemma_full_rows_below_facts(board, BOARD_HEIGHT as int);
    let f = full_rows(board);
    if f.len() > 0 {
        assert(f.contains(f[0]));
        assert(row_is_full(board.cells[f[0]]));
    }
}

/// Clearing the detected rows of a board with at most four full rows removes
/// every full row: the count is the number of full rows and none is left.
pub proof fn lemma_clearing_detected_rows_removes_all_full_rows(
    before: Board,
    rows: ClearedRows,
    after: Board,
)
    requires
        full_rows(before).len() <= MAX_CLEARED_ROWS,
        forall|i: int| 0 <= i < MAX_CLEARED_ROWS ==> rows[i] == detected_slot(before, i),
        collapsed(before, rows, after),
    ensures
        count_marked(rows, BOARD_HEIGHT as int) == full_rows(before).len(),
        full_rows(after).len() == 0,
{
    lemma_full_rows_below_facts(before, BOARD_HEIGHT as int);
    let f = full_rows(before);
    assert forall|y: int| 0 <= y < BOARD_HEIGHT implies (is_marked(rows, y) <==> row_is_full(
        #[trigger] before.cells[y],
    )) by {
        if row_is_full(before.cells[y]) {
            assert(f.contains(y));
            let k = choose|k: int| 0 <= k < f.len() && #[trigger] f[k] == y;
            assert(rows[k] == detected_slot(before, k));
            assert(slot_names(rows[k], y));
        }
        if is_marked(rows, y) {
            let k = if slot_names(rows[0], y) {
                0
            } else if slot_names(rows[1], y) {
                1
            } else if slot_names(rows[2], y) {
                2
            } else {
                3
            };
            assert(rows[k] == detected_slot(before, k));
            assert(k < f.len());
            assert(f[k] == y);
            assert(f.contains(y));
        }
    }
    lemma_count_marked_full(before, rows, BOARD_HEIGHT as int);
    lemma_kept_rows_not_full(before, rows, BOARD_HEIGHT as int);
    let kept = kept_rows(before, rows, BOARD_HEIGHT as int);
    assert forall|y: int| 0 <= y < BOARD_HEIGHT implies !row_is_full(#[trigger] after.cells[y]) by {
        if y < kept.len() {
            assert(after.cells[y] == kept[y]);
        } else {
            assert(row_is_empty(after.cells[y]));
            assert(after.cells[y][0] is None);
        }
    }
    lemma_no_full_row(after);
}

/// A reported row is filled in every one of its `BOARD_WIDTH` columns.
pub proof fn lemma_detected_rows_are_filled(board: Board, i: int)
    requires
        0 <= i < MAX_CLEARED_ROWS,
    ensures
        detected_slot(board, i) matches Some(y) ==> forall|x: int|
            0 <= x < BOARD_WIDTH ==> (#[trigger] board.cell(x, y as int)) is Some,
{
    lemma_full_rows_below_facts(board, BOARD_HEIGHT as int);
    let f = full_rows(board);
    if i < f.len() {
        let y = f[i];
        assert(f.contains(y));
        assert(row_is_full(board.cells[y]));
        assert forall|x: int| 0 <= x < BOARD_WIDTH implies (#[trigger] board.cell(x, y)) is Some by {
            assert(board.cells[y][x] is Some);
        }
    }
}

/// A row with an empty cell in any column is never reported, so clearing
/// the reported rows keeps it.
pub proof fn lemma_row_with_hole_is_kept(board: Board, rows: ClearedRows, x: int, y: int)
    requires
        forall|i: int| 0 <= i < MAX_CLEARED_ROWS ==> rows[i] == detected_slot(board, i),
        0 <= x < BOARD_WIDTH,
        0 <= y < BOARD_HEIGHT,
        board.cell(x, y) is None,
    ensures
        !is_marked(rows, y),
{
    assert forall|i: int| 0 <= i < MAX_CLEARED_ROWS implies !slot_names(rows[i], y) by {
        lemma_detected_rows_are_filled(board, i);
        if slot_names(rows[i], y) {
            assert(board.cell(x, y) is Some);
        }
    }
    assert(!slot_names(rows[0], y) && !slot_names(rows[1], y) && !slot_names(rows[2], y)
        && !slot_names(rows[3], y));
}

/// When at most four rows are filled, every row whose `BOARD_WIDTH` cells
/// are all occupied is reported.
pub proof fn lemma_filled_rows_are_detected(board: Board, y: int)
    requires
        full_rows(board).len() <= MAX_CLEARED_ROWS,
        0 <= y < BOARD_HEIGHT,
        forall|x: int| 0 <= x < BOARD_WIDTH ==> (#[trigger] board.cell(x, y)) is Some,
    ensures
        exists|i: int| 0 <= i < MAX_CLEARED_ROWS && slot_names(#[trigger] detected_slot(board, i), y),
{
    lemma_full_rows_below_facts(board, BOARD_HEIGHT as int);
    assert forall|x: int| 0 <= x < BOARD_WIDTH implies (#[trigger] board.cells[y][x]) is Some by {
        assert(board.cell(x, y) is Some);
    }
    assert(row_is_full(board.cells[y]));
    let f = full_rows(board);
    assert(f.contains(y));
    let k = choose|k: int| 0 <= k < f.len() && f[k] == y;
    assert(slot_names(detected_slot(board, k), y));
}

/// Convenience for tests and any caller that doesn't want the two-phase
/// dance: detect the full rows and clear them immediately.
pub fn clear_full_lines(board: &mut Board) -> (cleared: u32)
    ensures
        full_rows(*old(board)).len() <= MAX_CLEARED_ROWS ==> cleared == full_rows(
            *old(board),
        ).len(),
        full_rows(*old(board)).len() <= MAX_CLEARED_ROWS ==> full_rows(*final(board)).len() == 0,
        exists|rows: ClearedRows|
            (forall|i: int| 0 <= i < MAX_CLEARED_ROWS ==> rows[i] == detected_slot(*old(board), i))
                && cleared == count_marked(rows, BOARD_HEIGHT as int) && collapsed(
                *old(board),
                rows,
                *final(board),
            ),
{
    let ghost before = *board;
    let rows = detect_full_rows(board);
    let cleared = clear_rows(board, &rows);
    proof {
        if full_rows(before).len() <= MAX_CLEARED_ROWS {
            lemma_clearing_detected_rows_removes_all_full_rows(before, rows, *board);
        }
    }
    cleared
}

} // verus!
