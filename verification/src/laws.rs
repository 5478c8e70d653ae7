//! What holds of the board whatever is done to it.

use vstd::prelude::*;
use crate::input::{
    fired_action, key_after_tick, key_after_ticks, spec_find_bind, still_waiting, Button, KeyState,
    PRIMED_TICKS,
};
use crate::model::{
    clear_of, full_rows, full_rows_below, grid_has_size, in_bounds, locked_into, row_full,
    shifted_all, shifted_down, BoardModel, Grid,
};
use crate::piece::{BoardBlock, TetrominoState};
use crate::shapes::{occupied, spec_kind_at, spec_mask, spec_rotations, PieceKind};

verus! {

/// A collapse keeps the size of the grid.
pub proof fn lemma_shifted_down_size(grid: Grid, width: int, height: int, from_row: int)
    requires
        grid_has_size(grid, width, height),
        0 <= from_row < height,
    ensures
        grid_has_size(shifted_down(grid, from_row), width, height),
{
}

/// A run of collapses keeps the size of the grid.
pub proof fn lemma_shifted_all_size(grid: Grid, width: int, height: int, rows: Seq<u8>)
    requires
        grid_has_size(grid, width, height),
        forall|i: int| 0 <= i < rows.len() ==> (#[trigger] rows[i]) < height,
    ensures
        grid_has_size(shifted_all(grid, rows), width, height),
    decreases rows.len(),
{
    if rows.len() > 0 {
        lemma_shifted_down_size(grid, width, height, rows[0] as int);
        let rest = rows.drop_first();
        assert forall|i: int| 0 <= i < rest.len() implies (#[trigger] rest[i]) < height by {
            assert(rest[i] == rows[i + 1]);
        }
        lemma_shifted_all_size(shifted_down(grid, rows[0] as int), width, height, rest);
    }
}

/// Locking a piece keeps the size of the grid.
pub proof fn lemma_locked_size(grid: Grid, width: int, height: int, piece: TetrominoState)
    requires
        grid_has_size(grid, width, height),
    ensures
        grid_has_size(locked_into(grid, piece), width, height),
{
}

/// The rows found full among the first `count` are rows among the first
/// `count`, each is full, they are listed in rising order, and none that is
/// full is left out.
pub proof fn lemma_full_rows_below(grid: Grid, count: int)
    requires
        0 <= count <= grid.len(),
        count <= u8::MAX + 1,
    ensures
        full_rows_below(grid, count).len() <= count,
        forall|i: int|
            0 <= i < full_rows_below(grid, count).len() ==> {
                &&& (#[trigger] full_rows_below(grid, count)[i]) < count
                &&& row_full(grid[full_rows_below(grid, count)[i] as int])
            },
        forall|i: int, j: int|
            0 <= i < j < full_rows_below(grid, count).len() ==> full_rows_below(grid, count)[i]
                < full_rows_below(grid, count)[j],
        forall|r: int|
            0 <= r < count && row_full(#[trigger] grid[r]) ==> full_rows_below(grid, count).contains(r as u8),
    decreases count,
{
    if count > 0 {
        lemma_full_rows_below(grid, count - 1);
        let before = full_rows_below(grid, count - 1);
        let now = full_rows_below(grid, count);
        if row_full(grid[count - 1]) {
            assert(now == before.push((count - 1) as u8));
            assert(now[now.len() - 1] == (count - 1) as u8);
            assert forall|r: int| 0 <= r < count && row_full(#[trigger] grid[r]) implies now.contains(r as u8) by {
                if r < count - 1 {
                    let i = choose|i: int| 0 <= i < before.len() && before[i] == r as u8;
                    assert(now[i] == r as u8);
                } else {
                    assert(now[now.len() - 1] == r as u8);
                }
            }
        } else {
            assert(now == before);
        }
    }
}

/// Detection on a grid with exactly one full row yields that row alone.
pub proof fn lemma_single_full_row(grid: Grid, row: int)
    requires
        grid.len() <= u8::MAX + 1,
        0 <= row < grid.len(),
        row_full(grid[row]),
        forall|r: int| 0 <= r < grid.len() && r != row ==> !row_full(#[trigger] grid[r]),
    ensures
        full_rows(grid) == seq![row as u8],
{
    lemma_rows_up_to(grid, row, grid.len() as int);
}

/// Detection on a board whose grid has exactly one full row adds that row,
/// and no other, to both queues, and leaves the grid as it is: with empty
/// queues before, each queue holds that row alone after.
pub proof fn lemma_single_full_row_detected(board: BoardModel, row: int)
    requires
        board.wf(),
        0 <= row < board.height,
        row_full(board.grid[row]),
        forall|r: int| 0 <= r < board.height && r != row ==> !row_full(#[trigger] board.grid[r]),
    ensures
        board.detected().shifting == board.shifting.push(row as u8),
        board.detected().blinking == board.blinking.push(row as u8),
        board.detected().grid == board.grid,
        board.shifting.len() == 0 ==> board.detected().shifting == seq![row as u8],
        board.blinking.len() == 0 ==> board.detected().blinking == seq![row as u8],
{
    lemma_single_full_row(board.grid, row);
    assert(board.shifting + seq![row as u8] =~= board.shifting.push(row as u8));
    assert(board.blinking + seq![row as u8] =~= board.blinking.push(row as u8));
    if board.shifting.len() == 0 {
        assert(board.shifting.push(row as u8) =~= seq![row as u8]);
    }
    if board.blinking.len() == 0 {
        assert(board.blinking.push(row as u8) =~= seq![row as u8]);
    }
}

/// With `row` the only full row, the rows found full among the first
/// `count` are none while `count` has not passed `row`, and `row` alone after.
proof fn lemma_rows_up_to(grid: Grid, row: int, count: int)
    requires
        grid.len() <= u8::MAX + 1,
        0 <= row < grid.len(),
        0 <= count <= grid.len(),
        row_full(grid[row]),
        forall|r: int| 0 <= r < grid.len() && r != row ==> !row_full(#[trigger] grid[r]),
    ensures
        count <= row ==> full_rows_below(grid, count) == Seq::<u8>::empty(),
        count > row ==> full_rows_below(grid, count) == seq![row as u8],
    decreases count,
{
    if count > 0 {
        lemma_rows_up_to(grid, row, count - 1);
        if count - 1 == row {
            assert(full_rows_below(grid, count) =~= seq![row as u8]);
        } else {
            assert(!row_full(grid[count - 1]));
        }
    }
}

/// A move, taken or refused, leaves a well-formed board well-formed.
pub proof fn lemma_moved_wf(board: BoardModel, dx: int)
    requires
        board.wf(),
    ensures
        board.moved(dx).wf(),
{
}

/// A rotation, taken or refused, leaves a well-formed board well-formed.
pub proof fn lemma_rotated_wf(board: BoardModel, delta: int)
    requires
        board.wf(),
    ensures
        board.rotated(delta).wf(),
{
}

/// A gravity tick leaves a well-formed board well-formed, and the rows it
/// queues for collapse are exactly the full rows of the grid it leaves.
pub proof fn lemma_ticked_wf(board: BoardModel, upcoming: TetrominoState)
    requires
        board.wf(),
        upcoming.wf(),
    ensures
        board.ticked(upcoming).wf(),
        board.ticked(upcoming).shifting == full_rows(board.ticked(upcoming).grid),
        board.ticked(upcoming).blinking == board.blinking + full_rows(board.ticked(upcoming).grid),
{
    let collapsed = board.collapsed();
    lemma_shifted_all_size(board.grid, board.width, board.height, board.shifting);
    lemma_locked_size(collapsed.grid, board.width, board.height, collapsed.falling);
    let after = board.ticked(upcoming);
    lemma_full_rows_below(after.grid, after.grid.len() as int);
    assert(after.shifting =~= full_rows(after.grid));
}

/// Bounds are kept by a move: if every cell of the active piece lies on the
/// grid before an attempt to move, every cell lies on it after.
pub proof fn lemma_move_keeps_bounds(board: BoardModel, dx: int)
    requires
        board.wf(),
        board.active_in_bounds(),
    ensures
        board.moved(dx).active_in_bounds(),
{
}

/// Bounds are kept by a rotation: if every cell of the active piece lies on
/// the grid before an attempt to turn, every cell lies on it after.
pub proof fn lemma_rotate_keeps_bounds(board: BoardModel, delta: int)
    requires
        board.wf(),
        board.active_in_bounds(),
    ensures
        board.rotated(delta).active_in_bounds(),
{
}

/// Bounds after a gravity tick. A piece that went down lies on the grid. A
/// tick that locks makes the next piece active where it stands, so the
/// active piece lies on the grid after it exactly if the next piece did
/// before.
pub proof fn lemma_tick_bounds(board: BoardModel, upcoming: TetrominoState)
    requires
        board.wf(),
        upcoming.wf(),
    ensures
        !board.tick_locks() ==> board.ticked(upcoming).active_in_bounds(),
        board.tick_locks() ==> (board.ticked(upcoming).active_in_bounds() <==> in_bounds(
            board.width,
            board.height,
            board.next.mask(),
            board.next.x as int,
            board.next.y as int,
        )),
{
}

/// No overlap is kept by a move: if the active piece covers no filled cell
/// before an attempt to move, it covers none after.
pub proof fn lemma_move_keeps_clear(board: BoardModel, dx: int)
    requires
        board.wf(),
        board.active_clear(),
    ensures
        board.moved(dx).active_clear(),
{
}

/// No overlap is kept by a rotation: if the active piece covers no filled
/// cell before an attempt to turn, it covers none after.
pub proof fn lemma_rotate_keeps_clear(board: BoardModel, delta: int)
    requires
        board.wf(),
        board.active_clear(),
    ensures
        board.rotated(delta).active_clear(),
{
}

/// Overlap after a gravity tick. A piece that went down covers no filled
/// cell. A tick that locks makes the next piece active where it stands, so
/// the active piece covers no filled cell after it exactly if the next piece
/// covers none of the grid with the locked piece in it.
pub proof fn lemma_tick_clear(board: BoardModel, upcoming: TetrominoState)
    requires
        board.wf(),
        upcoming.wf(),
    ensures
        !board.tick_locks() ==> board.ticked(upcoming).active_clear(),
        board.tick_locks() ==> (board.ticked(upcoming).active_clear() <==> clear_of(
            locked_into(board.collapsed().grid, board.falling),
            board.next.mask(),
            board.next.x as int,
            board.next.y as int,
        )),
{
}

/// Turning left and then right, or right and then left, brings back the
/// state from which the first turn was taken, its rotation index with it,
/// whenever both turns are taken.
pub proof fn lemma_rotation_round_trip(board: BoardModel)
    requires
        board.wf(),
    ensures
        board.can_rotate(-1) && board.rotated(-1).can_rotate(1) ==> board.rotated(-1).rotated(1) == board,
        board.can_rotate(1) && board.rotated(1).can_rotate(-1) ==> board.rotated(1).rotated(-1) == board,
{
}

/// From a valid state the turn back is always taken: whoever could turn one
/// way can turn back the other way.
pub proof fn lemma_rotation_back_is_legal(board: BoardModel)
    requires
        board.valid(),
    ensures
        board.can_rotate(-1) ==> board.rotated(-1).can_rotate(1),
        board.can_rotate(1) ==> board.rotated(1).can_rotate(-1),
{
}

/// A tick that locks commits exactly the active mask: in the grid it
/// leaves, every cell that the mask of the piece marks is filled in the
/// colour of the piece, and every other cell is as the collapse before the
/// lock left it. Where the piece lay on the grid, each of its cells is
/// among the former.
pub proof fn lemma_lock_commits_mask(board: BoardModel, upcoming: TetrominoState)
    requires
        board.wf(),
        upcoming.wf(),
        board.tick_locks(),
    ensures
        forall|r: int, c: int|
            0 <= r < board.height && 0 <= c < board.width ==> #[trigger] board.ticked(upcoming).grid[r][c] == (
            if occupied(board.falling.mask(), r - board.falling.y, c - board.falling.x) {
                BoardBlock { color: board.falling.color, filled: true }
            } else {
                board.collapsed().grid[r][c]
            }),
        board.active_in_bounds() ==> forall|row: int, col: int| #[trigger]
            occupied(board.falling.mask(), row, col) ==> {
                &&& 0 <= board.falling.y + row < board.height
                &&& 0 <= board.falling.x + col < board.width
                &&& board.ticked(upcoming).grid[board.falling.y + row][board.falling.x + col] == (BoardBlock {
                    color: board.falling.color,
                    filled: true,
                })
            },
        board.shifting.len() == 0 ==> board.collapsed().grid == board.grid,
{
    lemma_shifted_all_size(board.grid, board.width, board.height, board.shifting);
    let mask = board.falling.mask();
    let after = board.ticked(upcoming).grid;
    if board.active_in_bounds() {
        assert forall|row: int, col: int| #[trigger] occupied(mask, row, col) implies {
            &&& 0 <= board.falling.y + row < board.height
            &&& 0 <= board.falling.x + col < board.width
            &&& after[board.falling.y + row][board.falling.x + col] == (BoardBlock {
                color: board.falling.color,
                filled: true,
            })
        } by {
            let r = board.falling.y + row;
            let c = board.falling.x + col;
            assert(occupied(mask, r - board.falling.y, c - board.falling.x));
        }
    }
}

/// A piece with a cell in the leftmost column cannot go left, and one with
/// a cell in the rightmost column cannot go right: the attempt leaves the
/// board, the column of the piece with it, unchanged.
pub proof fn lemma_wall_rejects(board: BoardModel, row: int, col: int)
    requires
        board.wf(),
        occupied(board.falling.mask(), row, col),
    ensures
        board.falling.x + col == 0 ==> !board.can_move(-1) && board.moved(-1) == board,
        board.falling.x + col == board.width - 1 ==> !board.can_move(1) && board.moved(1) == board,
{
}

/// A refused move or rotation changes nothing, so it is refused again
/// however often it is tried.
pub proof fn lemma_rejection_is_idempotent(board: BoardModel, dx: int, delta: int)
    ensures
        !board.can_move(dx) ==> board.moved(dx) == board && !board.moved(dx).can_move(dx),
        !board.can_rotate(delta) ==> board.rotated(delta) == board && !board.rotated(delta).can_rotate(delta),
{
}

/// A mask with no bit in the rightmost column of the bounding box marks no
/// cell of that column.
proof fn lemma_last_column_empty(mask: u16, shift: u16)
    by (bit_vector)
    requires
        mask & 0x1111 == 0,
        shift == 3 || shift == 7 || shift == 11 || shift == 15,
    ensures
        mask & (0x8000u16 >> shift) == 0,
{
}

/// No kind of the catalogue, unrotated, has a cell in the rightmost column
/// of its bounding box.
proof fn lemma_unrotated_is_narrow(kind: PieceKind)
    ensures
        spec_mask(kind, 0) & 0x1111 == 0,
{
    assert(0x4640u16 & 0x1111 == 0) by (bit_vector);
    assert(0x8C40u16 & 0x1111 == 0) by (bit_vector);
    assert(0x4C80u16 & 0x1111 == 0) by (bit_vector);
    assert(0x4444u16 & 0x1111 == 0) by (bit_vector);
    assert(0x44C0u16 & 0x1111 == 0) by (bit_vector);
    assert(0x88C0u16 & 0x1111 == 0) by (bit_vector);
    assert(0xCC00u16 & 0x1111 == 0) by (bit_vector);
}

/// A fresh piece lies on every grid of at least 7 columns and 4 rows.
pub proof fn lemma_fresh_in_bounds(piece: TetrominoState, width: int, height: int)
    requires
        piece.is_fresh(),
        width >= 7,
        height >= 4,
    ensures
        in_bounds(width, height, piece.mask(), piece.x as int, piece.y as int),
{
    let index = choose|index: int| 0 <= index < 7 && piece.shape@ == spec_rotations(#[trigger] spec_kind_at(index));
    let kind = spec_kind_at(index);
    let mask = piece.mask();
    assert(mask == spec_mask(kind, 0));
    lemma_unrotated_is_narrow(kind);
    assert forall|row: int, col: int| #[trigger] occupied(mask, row, col) implies 0 <= piece.y + row < height
        && 0 <= piece.x + col < width by {
        if col == 3 {
            lemma_last_column_empty(mask, (row * 4 + col) as u16);
        }
    }
}

/// A board of at least 7 columns and 4 rows starts in a valid state: both
/// fresh pieces lie on the grid, and the active one covers no filled cell,
/// for there is none.
pub proof fn lemma_new_board_valid(width: int, height: int, falling: TetrominoState, next: TetrominoState)
    requires
        7 <= width <= u8::MAX,
        4 <= height <= u8::MAX,
        falling.is_fresh(),
        next.is_fresh(),
    ensures
        BoardModel::spec_new(width, height, falling, next).valid(),
        BoardModel::spec_new(width, height, falling, next).next_in_bounds(),
{
    lemma_fresh_in_bounds(falling, width, height);
    lemma_fresh_in_bounds(next, width, height);
}

/// The bounds invariant of play: where the active piece and the next piece
/// lie on the grid, and so does the piece that a lock would bring in, both
/// lie on the grid after a gravity tick.
pub proof fn lemma_tick_keeps_bounds(board: BoardModel, upcoming: TetrominoState)
    requires
        board.wf(),
        upcoming.wf(),
        board.active_in_bounds(),
        board.next_in_bounds(),
        in_bounds(board.width, board.height, upcoming.mask(), upcoming.x as int, upcoming.y as int),
    ensures
        board.ticked(upcoming).active_in_bounds(),
        board.ticked(upcoming).next_in_bounds(),
{
}

/// A held key that has just fired counts the ticks up to its next firing:
/// after `ticks` ticks, fewer than the interval of its bind, it has counted
/// `ticks` and has not fired on any of them.
pub proof fn lemma_key_counts_between_firings(key: Button, ticks: nat)
    requires
        spec_find_bind(key) is Some,
        ticks < spec_find_bind(key)->0.repeat_every,
    ensures
        key_after_ticks(KeyState { key, ticks_since_repeat: 0 }, ticks) == (KeyState {
            key,
            ticks_since_repeat: ticks as usize,
        }),
        forall|earlier: nat|
            earlier < ticks ==> fired_action(
                #[trigger] key_after_ticks(KeyState { key, ticks_since_repeat: 0 }, earlier),
            ) is None,
    decreases ticks,
{
    let start = KeyState { key, ticks_since_repeat: 0 };
    if ticks > 0 {
        let before = (ticks - 1) as nat;
        lemma_key_counts_between_firings(key, before);
        let reached = key_after_ticks(start, before);
        assert(still_waiting(reached, spec_find_bind(key)->0));
        assert(key_after_ticks(start, ticks) == key_after_tick(reached));
        assert forall|earlier: nat| earlier < ticks implies fired_action(
            #[trigger] key_after_ticks(start, earlier),
        ) is None by {
            if earlier < before {
            } else {
                assert(earlier == before);
            }
        }
    }
}

/// A held key fires every so many ticks as its bind says. Of the ticks that
/// follow a firing, the key lets all before the one with the interval's
/// number pass, fires its action on that one, and then counts anew.
pub proof fn lemma_key_fires_every_interval(key: Button)
    requires
        spec_find_bind(key) is Some,
    ensures
        forall|tick: nat|
            1 <= tick < spec_find_bind(key)->0.repeat_every ==> fired_action(
                #[trigger] key_after_ticks(KeyState { key, ticks_since_repeat: 0 }, (tick - 1) as nat),
            ) is None,
        fired_action(
            key_after_ticks(
                KeyState { key, ticks_since_repeat: 0 },
                (spec_find_bind(key)->0.repeat_every - 1) as nat,
            ),
        ) == Some(spec_find_bind(key)->0.action),
        key_after_ticks(KeyState { key, ticks_since_repeat: 0 }, spec_find_bind(key)->0.repeat_every as nat) == (
        KeyState { key, ticks_since_repeat: 0 }),
{
    let start = KeyState { key, ticks_since_repeat: 0 };
    let interval = spec_find_bind(key)->0.repeat_every as nat;
    assert(interval >= 1);
    let last = (interval - 1) as nat;
    lemma_key_counts_between_firings(key, last);
    let reached = key_after_ticks(start, last);
    assert(!still_waiting(reached, spec_find_bind(key)->0));
    assert(key_after_ticks(start, interval) == key_after_tick(reached));
    assert forall|tick: nat| 1 <= tick < interval implies fired_action(
        #[trigger] key_after_ticks(start, (tick - 1) as nat),
    ) is None by {
        assert(((tick - 1) as nat) < last);
    }
}

/// A bound key that has just gone down fires on the next tick, whatever
/// the interval of its bind, and counts from 0 after it.
pub proof fn lemma_pressed_key_fires_at_once(key: Button)
    requires
        spec_find_bind(key) is Some,
    ensures
        fired_action(KeyState { key, ticks_since_repeat: PRIMED_TICKS }) == Some(spec_find_bind(key)->0.action),
        key_after_tick(KeyState { key, ticks_since_repeat: PRIMED_TICKS }) == (KeyState {
            key,
            ticks_since_repeat: 0,
        }),
{
}

} // verus!
