//! The board: the grid of locked cells, the active piece and the one that
//! follows it, and the two queues of completed rows.

use vstd::prelude::*;
use crate::model::{
    clear_of, empty_grid, empty_row, full_rows_below, in_bounds, locked_into, rotation_after,
    row_full, shifted_all, shifted_down, BoardModel,
};
use crate::piece::{BoardBlock, TetrominoState};
use crate::random::get_next_tetromino;
use crate::shapes::{cell_occupied, occupied};

verus! {

/// Why the board left an operation undone.
#[derive(Clone, Copy, Debug, PartialEq, Eq, Structural)]
pub enum Rejection {
    /// The piece cannot go to the column asked for.
    InvalidMove,
    /// The piece cannot turn where it is.
    InvalidRotation,
}

/// The board. `locked_state` holds the grid row by row, top row first;
/// `blinking_rows_queue` and `row_shift_queue` hold the rows found full, the
/// first for whoever draws the board, the second for the next gravity tick.
pub struct BoardState {
    pub width: u8,
    pub height: u8,
    pub falling_state: TetrominoState,
    pub locked_state: Vec<Vec<BoardBlock>>,
    pub next_tetromino: TetrominoState,
    pub blinking_rows_queue: Vec<u8>,
    pub row_shift_queue: Vec<u8>,
}

impl View for BoardState {
    type V = BoardModel;

    open spec fn view(&self) -> BoardModel {
        BoardModel {
            width: self.width as int,
            height: self.height as int,
            grid: Seq::new(self.locked_state@.len(), |r: int| self.locked_state@[r]@),
            falling: self.falling_state,
            next: self.next_tetromino,
            blinking: self.blinking_rows_queue@,
            shifting: self.row_shift_queue@,
        }
    }
}

impl BoardState {
    /// The grid has the board's dimensions, both pieces are in one of the four
    /// rotation states, and every row awaiting collapse is a row of the grid.
    pub open spec fn wf(&self) -> bool {
        self@.wf()
    }

    /// Whether this board is well-formed. A board that the functions of this
    /// module made is; one whose fields were set by hand need not be.
    pub fn is_well_formed(&self) -> (ok: bool)
        ensures
            ok == self.wf(),
    {
        if self.locked_state.len() != self.height as usize {
            return false;
        }
        if !(0 <= self.falling_state.rotation && self.falling_state.rotation < 4) {
            return false;
        }
        if !(0 <= self.next_tetromino.rotation && self.next_tetromino.rotation < 4) {
            return false;
        }
        let mut r: usize = 0;
        while r < self.locked_state.len()
            invariant
                r <= self.locked_state@.len() == self.height,
                forall|i: int| 0 <= i < r ==> (#[trigger] self@.grid[i]).len() == self.width,
            decreases self.locked_state@.len() - r,
        {
            if self.locked_state[r].len() != self.width as usize {
                assert(self@.grid[r as int].len() != self.width);
                return false;
            }
            assert(self@.grid[r as int].len() == self.width);
            r += 1;
        }
        let mut i: usize = 0;
        while i < self.row_shift_queue.len()
            invariant
                i <= self.row_shift_queue@.len(),
                forall|j: int| 0 <= j < i ==> (#[trigger] self.row_shift_queue@[j]) < self.height,
            decreases self.row_shift_queue@.len() - i,
        {
            if self.row_shift_queue[i] >= self.height {
                assert(self@.shifting[i as int] >= self.height);
                return false;
            }
            i += 1;
        }
        true
    }

    /// Whether a piece with `mask` may rest at (`x`, `y`) on this board: every
    /// marked cell on the grid and on no filled cell.
    pub fn fits_at(&self, mask: u16, x: i16, y: i16) -> (ok: bool)
        requires
            self.wf(),
        ensures
            ok == self@.fits(mask, x as int, y as int),
    {
        let mut row: u8 = 0;
        while row < 4
            invariant
                self.wf(),
                row <= 4,
                forall|r: int, c: int| 0 <= r < row && #[trigger] occupied(mask, r, c) ==> {
                    &&& 0 <= y + r < self.height
                    &&& 0 <= x + c < self.width
                    &&& !self@.grid[y + r][x + c].filled
                },
            decreases 4 - row,
        {
            let mut col: u8 = 0;
            while col < 4
                invariant
                    self.wf(),
                    row < 4,
                    col <= 4,
                    forall|r: int, c: int| 0 <= r < row && #[trigger] occupied(mask, r, c) ==> {
                        &&& 0 <= y + r < self.height
                        &&& 0 <= x + c < self.width
                        &&& !self@.grid[y + r][x + c].filled
                    },
                    forall|c: int| 0 <= c < col && #[trigger] occupied(mask, row as int, c) ==> {
                        &&& 0 <= y + row < self.height
                        &&& 0 <= x + c < self.width
                        &&& !self@.grid[y + row][x + c].filled
                    },
                decreases 4 - col,
            {
                if cell_occupied(mask, row, col) {
                    let r: i32 = y as i32 + row as i32;
                    let c: i32 = x as i32 + col as i32;
                    if r < 0 || r >= self.height as i32 || c < 0 || c >= self.width as i32 {
                        assert(!in_bounds(self.width as int, self.height as int, mask, x as int, y as int));
                        return false;
                    }
                    assert(self@.grid[r as int] == self.locked_state@[r as int]@);
                    if self.locked_state[r as usize][c as usize].filled {
                        assert(self@.grid[y + row][x + col].filled);
                        assert(!clear_of(self@.grid, mask, x as int, y as int));
                        return false;
                    }
                }
                col += 1;
            }
            row += 1;
        }
        true
    }

    /// Whether the active piece may go `x_delta` columns to the right (to the
    /// left where `x_delta` is negative).
    pub fn can_move(&self, x_delta: i16) -> (ok: bool)
        requires
            self.wf(),
        ensures
            ok == self@.can_move(x_delta as int),
    {
        let target: i32 = self.falling_state.x as i32 + x_delta as i32;
        if target < i8::MIN as i32 || target > i8::MAX as i32 {
            return false;
        }
        self.fits_at(self.falling_state.current_mask(), target as i16, self.falling_state.y as i16)
    }

    /// The rotation state that `rotation_delta` quarter turns lead to.
    pub fn rotation_target(&self, rotation_delta: i8) -> (target: i8)
        requires
            self.wf(),
        ensures
            target == rotation_after(self.falling_state.rotation as int, rotation_delta as int),
            0 <= target < 4,
    {
        let sum: i16 = self.falling_state.rotation as i16 + rotation_delta as i16;
        let lifted: u16 = (sum + 128) as u16;
        (lifted % 4) as i8
    }

    /// Whether the active piece may turn by `rotation_delta` quarter turns
    /// where it is.
    pub fn can_rotate(&self, rotation_delta: i8) -> (ok: bool)
        requires
            self.wf(),
        ensures
            ok == self@.can_rotate(rotation_delta as int),
    {
        let target = self.rotation_target(rotation_delta);
        self.fits_at(
            self.falling_state.shape[target as usize],
            self.falling_state.x as i16,
            self.falling_state.y as i16,
        )
    }

    /// Whether the active piece may go down one row.
    pub fn can_gravity(&self) -> (ok: bool)
        requires
            self.wf(),
        ensures
            ok == self@.can_descend(),
    {
        if self.falling_state.y == i8::MAX {
            return false;
        }
        self.fits_at(
            self.falling_state.current_mask(),
            self.falling_state.x as i16,
            self.falling_state.y as i16 + 1,
        )
    }

    /// A board of `width` columns and `height` rows with an empty grid and
    /// empty queues, `falling` as the active piece and `next` as the one
    /// that follows it.
    pub fn with_pieces(width: u8, height: u8, falling: TetrominoState, next: TetrominoState) -> (board: BoardState)
        requires
            falling.wf(),
            next.wf(),
        ensures
            board@ == BoardModel::spec_new(width as int, height as int, falling, next),
            board.wf(),
    {
        let mut grid: Vec<Vec<BoardBlock>> = Vec::new();
        let mut r: u8 = 0;
        while r < height
            invariant
                r <= height,
                grid@.len() == r,
                forall|i: int| 0 <= i < r ==> (#[trigger] grid@[i])@ == empty_row(width as int),
            decreases height - r,
        {
            let mut row: Vec<BoardBlock> = Vec::new();
            let mut c: u8 = 0;
            while c < width
                invariant
                    c <= width,
                    row@.len() == c,
                    forall|j: int| 0 <= j < c ==> #[trigger] row@[j] == BoardBlock::spec_empty(),
                decreases width - c,
            {
                row.push(BoardBlock::empty());
                c += 1;
            }
            assert(row@ =~= empty_row(width as int));
            grid.push(row);
            r += 1;
        }
        let board = BoardState {
            width,
            height,
            falling_state: falling,
            locked_state: grid,
            next_tetromino: next,
            blinking_rows_queue: Vec::new(),
            row_shift_queue: Vec::new(),
        };
        assert(board@.grid =~= empty_grid(width as int, height as int));
        board
    }

    /// A board of `width` columns and `height` rows with an empty grid, and
    /// two fresh pieces, the active one and the one that follows it, each of
    /// a random kind and colour.
    pub fn new(width: u8, height: u8) -> (board: BoardState)
        ensures
            board@ == BoardModel::spec_new(width as int, height as int, board@.falling, board@.next),
            board@.falling.is_fresh(),
            board@.next.is_fresh(),
            board.wf(),
    {
        let falling = get_next_tetromino();
        let next = get_next_tetromino();
        BoardState::with_pieces(width, height, falling, next)
    }

    /// Collapses row `from_row`: every row above it is copied one row down,
    /// the lowest first, so that row `from_row` gets what the row above it
    /// held and row 0 stays as it was.
    pub fn shift_board_down(&mut self, from_row: &u8)
        requires
            old(self).wf(),
            *from_row < old(self).height,
        ensures
            final(self)@ == (BoardModel { grid: shifted_down(old(self)@.grid, *from_row as int), ..old(self)@ }),
            final(self).wf(),
    {
        let ghost before = self@.grid;
        let mut y: u8 = *from_row;
        while y > 0
            invariant
                y <= *from_row < self.height,
                self.width == old(self).width,
                self.height == old(self).height,
                self.falling_state == old(self).falling_state,
                self.next_tetromino == old(self).next_tetromino,
                self.blinking_rows_queue == old(self).blinking_rows_queue,
                self.row_shift_queue == old(self).row_shift_queue,
                old(self).wf(),
                before == old(self)@.grid,
                self.locked_state@.len() == self.height,
                forall|r: int| 0 <= r < self.height ==> (#[trigger] self.locked_state@[r])@ == (if y < r
                    <= *from_row {
                    before[r - 1]
                } else {
                    before[r]
                }),
            decreases y,
        {
            y -= 1;
            let mut x: u8 = 0;
            while x < self.width
                invariant
                    y < *from_row < self.height,
                    x <= self.width,
                    self.width == old(self).width,
                    self.height == old(self).height,
                    self.falling_state == old(self).falling_state,
                    self.next_tetromino == old(self).next_tetromino,
                    self.blinking_rows_queue == old(self).blinking_rows_queue,
                    self.row_shift_queue == old(self).row_shift_queue,
                    old(self).wf(),
                    before == old(self)@.grid,
                    self.locked_state@.len() == self.height,
                    forall|r: int| 0 <= r < self.height && r != y + 1 ==> (
                    #[trigger] self.locked_state@[r])@ == (if y + 1 < r <= *from_row {
                        before[r - 1]
                    } else {
                        before[r]
                    }),
                    self.locked_state@[y + 1]@.len() == self.width,
                    forall|c: int| 0 <= c < self.width ==> #[trigger] self.locked_state@[y + 1]@[c] == (if c < x {
                        before[y as int][c]
                    } else {
                        before[y + 1][c]
                    }),
                decreases self.width - x,
            {
                assert(self.locked_state@[y as int]@ == before[y as int]);
                let block = self.locked_state[y as usize][x as usize];
                self.locked_state[y as usize + 1][x as usize] = block;
                x += 1;
            }
            assert(self.locked_state@[y + 1]@ =~= before[y as int]);
        }
        assert(self@.grid =~= shifted_down(before, *from_row as int));
    }

    /// Collapses the rows awaiting collapse, in the order in which they were
    /// found, and empties their queue.
    pub fn apply_row_shifts(&mut self)
        requires
            old(self).wf(),
        ensures
            final(self)@ == old(self)@.collapsed(),
            final(self).wf(),
    {
        let ghost before = self@.grid;
        let count = self.row_shift_queue.len();
        let mut i: usize = 0;
        assert(self@.shifting.subrange(0, count as int) =~= self@.shifting);
        while i < count
            invariant
                i <= count == self.row_shift_queue@.len(),
                self.wf(),
                self@ == (BoardModel { grid: self@.grid, ..old(self)@ }),
                shifted_all(self@.grid, self@.shifting.subrange(i as int, count as int)) == shifted_all(
                    before,
                    old(self)@.shifting,
                ),
                before == old(self)@.grid,
            decreases count - i,
        {
            let row = self.row_shift_queue[i];
            let ghost rest = self@.shifting.subrange(i as int, count as int);
            assert(rest[0] == row);
            assert(rest.drop_first() =~= self@.shifting.subrange(i + 1, count as int));
            self.shift_board_down(&row);
            i += 1;
        }
        assert(self@.shifting.subrange(count as int, count as int) =~= Seq::<u8>::empty());
        self.row_shift_queue = Vec::new();
        assert(self@ == old(self)@.collapsed());
    }

    /// Locks the active piece into the grid: every cell of the grid that its
    /// mask marks is filled in its colour. The piece that was next becomes
    /// active, and `upcoming` becomes next.
    pub fn lock_with(&mut self, upcoming: TetrominoState)
        requires
            old(self).wf(),
            upcoming.wf(),
        ensures
            final(self)@ == old(self)@.locked(upcoming),
            final(self).wf(),
    {
        let ghost before = self@.grid;
        let piece = self.falling_state;
        let mask = piece.current_mask();
        let mut row: u8 = 0;
        assert forall|r: int| 0 <= r < self.height implies (#[trigger] self.locked_state@[r])@.len()
            == self.width by {
            assert(self@.grid[r] == self.locked_state@[r]@);
        }
        while row < 4
            invariant
                row <= 4,
                old(self).wf(),
                before == old(self)@.grid,
                piece == old(self).falling_state,
                mask == piece.mask(),
                self.width == old(self).width,
                self.height == old(self).height,
                self.falling_state == old(self).falling_state,
                self.next_tetromino == old(self).next_tetromino,
                self.blinking_rows_queue == old(self).blinking_rows_queue,
                self.row_shift_queue == old(self).row_shift_queue,
                self.locked_state@.len() == self.height,
                forall|r: int| 0 <= r < self.height ==> (#[trigger] self.locked_state@[r])@.len() == self.width,
                forall|r: int, c: int|
                    0 <= r < self.height && 0 <= c < self.width ==> #[trigger] self.locked_state@[r]@[c] == (
                    if occupied(mask, r - piece.y, c - piece.x) && r - piece.y < row {
                        BoardBlock { color: piece.color, filled: true }
                    } else {
                        before[r][c]
                    }),
            decreases 4 - row,
        {
            let mut col: u8 = 0;
            while col < 4
                invariant
                    row < 4,
                    col <= 4,
                    old(self).wf(),
                    before == old(self)@.grid,
                    piece == old(self).falling_state,
                    mask == piece.mask(),
                    self.width == old(self).width,
                    self.height == old(self).height,
                    self.falling_state == old(self).falling_state,
                    self.next_tetromino == old(self).next_tetromino,
                    self.blinking_rows_queue == old(self).blinking_rows_queue,
                    self.row_shift_queue == old(self).row_shift_queue,
                    self.locked_state@.len() == self.height,
                    forall|r: int| 0 <= r < self.height ==> (#[trigger] self.locked_state@[r])@.len() == self.width,
                    forall|r: int, c: int|
                        0 <= r < self.height && 0 <= c < self.width ==> #[trigger] self.locked_state@[r]@[c] == (
                        if occupied(mask, r - piece.y, c - piece.x) && (r - piece.y < row || (r - piece.y == row
                            && c - piece.x < col)) {
                            BoardBlock { color: piece.color, filled: true }
                        } else {
                            before[r][c]
                        }),
                decreases 4 - col,
            {
                if cell_occupied(mask, row, col) {
                    let r: i16 = piece.y as i16 + row as i16;
                    let c: i16 = piece.x as i16 + col as i16;
                    if 0 <= r && r < self.height as i16 && 0 <= c && c < self.width as i16 {
                        self.locked_state[r as usize][c as usize] = BoardBlock { color: piece.color, filled: true };
                    }
                }
                col += 1;
            }
            row += 1;
        }
        self.falling_state = self.next_tetromino;
        self.next_tetromino = upcoming;
        assert(self@.grid =~~= locked_into(before, piece));
        assert(self@ == old(self)@.locked(upcoming));
    }

    /// Locks the active piece into the grid, makes the piece that was next
    /// the active one, and draws a fresh piece of a random kind and colour to
    /// be next.
    pub fn lock_current(&mut self)
        requires
            old(self).wf(),
        ensures
            final(self)@ == old(self)@.locked(final(self)@.next),
            final(self)@.next.is_fresh(),
            final(self).wf(),
    {
        let upcoming = get_next_tetromino();
        self.lock_with(upcoming);
    }

    /// Finds the full rows, top to bottom, and adds each to both queues. The
    /// grid stays as it is.
    pub fn check_completed_lines(&mut self)
        requires
            old(self).wf(),
        ensures
            final(self)@ == old(self)@.detected(),
            final(self).wf(),
    {
        let mut y: u8 = 0;
        while y < self.height
            invariant
                y <= self.height,
                self.wf(),
                self@ == (BoardModel {
                    blinking: old(self)@.blinking + full_rows_below(old(self)@.grid, y as int),
                    shifting: old(self)@.shifting + full_rows_below(old(self)@.grid, y as int),
                    ..old(self)@
                }),
            decreases self.height - y,
        {
            let mut completed = true;
            let mut x: u8 = 0;
            assert(self@.grid[y as int] == self.locked_state@[y as int]@);
            while x < self.width
                invariant
                    x <= self.width,
                    y < self.height,
                    self.wf(),
                    self.locked_state@[y as int]@.len() == self.width,
                    completed == (forall|c: int| 0 <= c < x ==> (#[trigger] self.locked_state@[y as int]@[c]).filled),
                decreases self.width - x,
            {
                if !self.locked_state[y as usize][x as usize].filled {
                    completed = false;
                }
                x += 1;
            }
            assert(completed == row_full(self@.grid[y as int]));
            if completed {
                let ghost shifting_before = self@.shifting;
                let ghost blinking_before = self@.blinking;
                self.row_shift_queue.push(y);
                self.blinking_rows_queue.push(y);
                assert(self@.shifting =~= old(self)@.shifting + full_rows_below(old(self)@.grid, y + 1));
                assert(self@.blinking =~= old(self)@.blinking + full_rows_below(old(self)@.grid, y + 1));
            }
            y += 1;
        }
        assert(self@ == old(self)@.detected());
    }

    /// One gravity tick with the piece that becomes next if the tick locks
    /// the active one. The rows awaiting collapse collapse; then the active
    /// piece goes down one row, or is locked where it cannot; then the full
    /// rows are detected and queued.
    pub fn gravity_with(&mut self, upcoming: TetrominoState)
        requires
            old(self).wf(),
            upcoming.wf(),
        ensures
            final(self)@ == old(self)@.ticked(upcoming),
            final(self).wf(),
    {
        self.apply_row_shifts();
        if self.can_gravity() {
            self.falling_state.y += 1;
            assert(self@ == old(self)@.collapsed().descended());
        } else {
            self.lock_with(upcoming);
        }
        self.check_completed_lines();
    }

    /// One gravity tick. The rows awaiting collapse collapse; then the active
    /// piece goes down one row, or is locked where it cannot, and a fresh
    /// piece of a random kind and colour is drawn to be next; then the full
    /// rows are detected and queued.
    pub fn gravity(&mut self)
        requires
            old(self).wf(),
        ensures
            final(self)@ == old(self)@.ticked(final(self)@.next),
            old(self)@.tick_locks() ==> final(self)@.next.is_fresh(),
            final(self).wf(),
    {
        self.apply_row_shifts();
        if self.can_gravity() {
            self.falling_state.y += 1;
            assert(self@ == old(self)@.collapsed().descended());
        } else {
            self.lock_current();
        }
        self.check_completed_lines();
    }

    /// Moves the active piece one column to the right if it fits there, and
    /// leaves the board as it is if not.
    pub fn move_right(&mut self) -> (res: Result<(), Rejection>)
        requires
            old(self).wf(),
        ensures
            final(self)@ == old(self)@.moved(1),
            final(self).wf(),
            res is Ok <==> old(self)@.can_move(1),
            res is Err ==> res == Err::<(), Rejection>(Rejection::InvalidMove),
    {
        if self.can_move(1) {
            self.falling_state.x += 1;
            assert(self@ == old(self)@.moved(1));
            Ok(())
        } else {
            Err(Rejection::InvalidMove)
        }
    }

    /// Moves the active piece one column to the left if it fits there, and
    /// leaves the board as it is if not.
    pub fn move_left(&mut self) -> (res: Result<(), Rejection>)
        requires
            old(self).wf(),
        ensures
            final(self)@ == old(self)@.moved(-1),
            final(self).wf(),
            res is Ok <==> old(self)@.can_move(-1),
            res is Err ==> res == Err::<(), Rejection>(Rejection::InvalidMove),
    {
        if self.can_move(-1) {
            self.falling_state.x -= 1;
            assert(self@ == old(self)@.moved(-1));
            Ok(())
        } else {
            Err(Rejection::InvalidMove)
        }
    }

    /// Turns the active piece a quarter turn to the left if it fits so turned
    /// where it is, and leaves the board as it is if not.
    pub fn rotate_left(&mut self) -> (res: Result<(), Rejection>)
        requires
            old(self).wf(),
        ensures
            final(self)@ == old(self)@.rotated(-1),
            final(self).wf(),
            res is Ok <==> old(self)@.can_rotate(-1),
            res is Err ==> res == Err::<(), Rejection>(Rejection::InvalidRotation),
    {
        if self.can_rotate(-1) {
            self.falling_state.rotation = self.rotation_target(-1);
            assert(self@ == old(self)@.rotated(-1));
            Ok(())
        } else {
            Err(Rejection::InvalidRotation)
        }
    }

    /// Turns the active piece a quarter turn to the right if it fits so
    /// turned where it is, and leaves the board as it is if not.
    pub fn rotate_right(&mut self) -> (res: Result<(), Rejection>)
        requires
            old(self).wf(),
        ensures
            final(self)@ == old(self)@.rotated(1),
            final(self).wf(),
            res is Ok <==> old(self)@.can_rotate(1),
            res is Err ==> res == Err::<(), Rejection>(Rejection::InvalidRotation),
    {
        if self.can_rotate(1) {
            self.falling_state.rotation = self.rotation_target(1);
            assert(self@ == old(self)@.rotated(1));
            Ok(())
        } else {
            Err(Rejection::InvalidRotation)
        }
    }
}

} // verus!
