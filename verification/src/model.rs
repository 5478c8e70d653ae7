//! The rules of the board as mathematics: what a state is, when a piece fits,
//! and what each operation makes of a state.

use vstd::prelude::*;
use crate::piece::{BoardBlock, TetrominoState};
use crate::shapes::occupied;

verus! {

/// The grid as rows of cells, top row first.
pub type Grid = Seq<Seq<BoardBlock>>;

/// Whether `grid` has `height` rows of `width` cells each.
pub open spec fn grid_has_size(grid: Grid, width: int, height: int) -> bool {
    &&& grid.len() == height
    &&& forall|r: int| 0 <= r < height ==> (#[trigger] grid[r]).len() == width
}

/// Whether every cell that `mask` marks, its bounding box placed with the
/// top-left corner at column `x` and row `y`, lies on the grid.
pub open spec fn in_bounds(width: int, height: int, mask: u16, x: int, y: int) -> bool {
    forall|row: int, col: int| #[trigger]
        occupied(mask, row, col) ==> 0 <= y + row < height && 0 <= x + col < width
}

/// Whether no cell that `mask` marks, placed at (`x`, `y`), coincides with a
/// filled cell of `grid`. Marked cells that lie off the grid coincide with none.
pub open spec fn clear_of(grid: Grid, mask: u16, x: int, y: int) -> bool {
    forall|row: int, col: int|
        (#[trigger] occupied(mask, row, col) && 0 <= y + row < grid.len() && 0 <= x + col
            < grid[y + row].len()) ==> !grid[y + row][x + col].filled
}

/// Whether a piece with `mask` may rest at (`x`, `y`): on the grid, and on no
/// filled cell.
pub open spec fn fits(grid: Grid, width: int, height: int, mask: u16, x: int, y: int) -> bool {
    in_bounds(width, height, mask, x, y) && clear_of(grid, mask, x, y)
}

/// A row of `width` empty cells.
pub open spec fn empty_row(width: int) -> Seq<BoardBlock> {
    Seq::new(width as nat, |c: int| BoardBlock::spec_empty())
}

/// A grid of `height` rows of `width` empty cells.
pub open spec fn empty_grid(width: int, height: int) -> Grid {
    Seq::new(height as nat, |r: int| empty_row(width))
}

/// Whether `value` can be the coordinate of a piece.
pub open spec fn is_coordinate(value: int) -> bool {
    i8::MIN <= value <= i8::MAX
}

/// The rotation state reached from `rotation` by `delta` quarter turns,
/// always one of 0, 1, 2, 3.
pub open spec fn rotation_after(rotation: int, delta: int) -> int {
    (rotation + delta) % 4
}

/// The grid after the collapse of row `from_row`: each row from 1 to
/// `from_row` holds what the row above it held, and the others, row 0 among
/// them, are as before.
pub open spec fn shifted_down(grid: Grid, from_row: int) -> Grid {
    Seq::new(grid.len(), |r: int| if 1 <= r <= from_row { grid[r - 1] } else { grid[r] })
}

/// The grid after the collapse of every row of `rows`, first to last, each
/// on the grid that the one before it left.
pub open spec fn shifted_all(grid: Grid, rows: Seq<u8>) -> Grid
    decreases rows.len(),
{
    if rows.len() == 0 {
        grid
    } else {
        shifted_all(shifted_down(grid, rows[0] as int), rows.drop_first())
    }
}

/// The grid after `piece` has been locked into it: every cell of the grid
/// that the piece's current mask marks is filled in the piece's colour, and
/// every other cell is as before.
pub open spec fn locked_into(grid: Grid, piece: TetrominoState) -> Grid {
    Seq::new(
        grid.len(),
        |r: int|
            Seq::new(
                grid[r].len(),
                |c: int|
                    if occupied(piece.mask(), r - piece.y, c - piece.x) {
                        BoardBlock { color: piece.color, filled: true }
                    } else {
                        grid[r][c]
                    },
            ),
    )
}

/// Whether every cell of `row` is filled.
pub open spec fn row_full(row: Seq<BoardBlock>) -> bool {
    forall|c: int| 0 <= c < row.len() ==> (#[trigger] row[c]).filled
}

/// The indices of the full rows among the first `count` rows of `grid`, in
/// rising order.
pub open spec fn full_rows_below(grid: Grid, count: int) -> Seq<u8>
    decreases count,
{
    if count <= 0 {
        Seq::empty()
    } else if row_full(grid[count - 1]) {
        full_rows_below(grid, count - 1).push((count - 1) as u8)
    } else {
        full_rows_below(grid, count - 1)
    }
}

/// The indices of the full rows of `grid`, top to bottom.
pub open spec fn full_rows(grid: Grid) -> Seq<u8> {
    full_rows_below(grid, grid.len() as int)
}

/// A state of the board.
pub struct BoardModel {
    pub width: int,
    pub height: int,
    pub grid: Grid,
    pub falling: TetrominoState,
    pub next: TetrominoState,
    pub blinking: Seq<u8>,
    pub shifting: Seq<u8>,
}

impl BoardModel {
    /// The state of a board of `width` columns and `height` rows on which
    /// nothing has happened yet: an empty grid, empty queues, `falling` as
    /// the active piece and `next` as the one that follows it.
    pub open spec fn spec_new(width: int, height: int, falling: TetrominoState, next: TetrominoState) -> BoardModel {
        BoardModel {
            width,
            height,
            grid: empty_grid(width, height),
            falling,
            next,
            blinking: Seq::empty(),
            shifting: Seq::empty(),
        }
    }

    /// The grid has the board's dimensions, both pieces are in one of the four
    /// rotation states, and every row awaiting collapse is a row of the grid.
    pub open spec fn wf(self) -> bool {
        &&& 0 <= self.width <= u8::MAX
        &&& 0 <= self.height <= u8::MAX
        &&& grid_has_size(self.grid, self.width, self.height)
        &&& self.falling.wf()
        &&& self.next.wf()
        &&& forall|i: int| 0 <= i < self.shifting.len() ==> (#[trigger] self.shifting[i]) < self.height
    }

    /// Whether a piece with `mask` may rest at (`x`, `y`) on this board.
    pub open spec fn fits(self, mask: u16, x: int, y: int) -> bool {
        fits(self.grid, self.width, self.height, mask, x, y)
    }

    /// Every cell of the active piece lies on the grid.
    pub open spec fn active_in_bounds(self) -> bool {
        in_bounds(self.width, self.height, self.falling.mask(), self.falling.x as int, self.falling.y as int)
    }

    /// Every cell of the next piece, taken where it stands, lies on the grid.
    pub open spec fn next_in_bounds(self) -> bool {
        in_bounds(self.width, self.height, self.next.mask(), self.next.x as int, self.next.y as int)
    }

    /// No cell of the active piece coincides with a filled cell.
    pub open spec fn active_clear(self) -> bool {
        clear_of(self.grid, self.falling.mask(), self.falling.x as int, self.falling.y as int)
    }

    /// The active piece is at rest where the rules allow it: on the grid and
    /// on no filled cell.
    pub open spec fn valid(self) -> bool {
        self.wf() && self.active_in_bounds() && self.active_clear()
    }

    /// Whether the active piece may go `dx` columns to the right (to the
    /// left where `dx` is negative).
    pub open spec fn can_move(self, dx: int) -> bool {
        &&& is_coordinate(self.falling.x + dx)
        &&& self.fits(self.falling.mask(), self.falling.x + dx, self.falling.y as int)
    }

    /// The state after an attempt to move by `dx` columns: the piece is moved
    /// where it may, and nothing changes where it may not.
    pub open spec fn moved(self, dx: int) -> BoardModel {
        if self.can_move(dx) {
            BoardModel {
                falling: TetrominoState { x: (self.falling.x + dx) as i8, ..self.falling },
                ..self
            }
        } else {
            self
        }
    }

    /// Whether the active piece may turn by `delta` quarter turns where it is.
    pub open spec fn can_rotate(self, delta: int) -> bool {
        self.fits(
            self.falling.shape@[rotation_after(self.falling.rotation as int, delta)],
            self.falling.x as int,
            self.falling.y as int,
        )
    }

    /// The state after an attempt to turn by `delta` quarter turns: the piece
    /// is turned where it may, and nothing changes where it may not.
    pub open spec fn rotated(self, delta: int) -> BoardModel {
        if self.can_rotate(delta) {
            BoardModel {
                falling: TetrominoState {
                    rotation: rotation_after(self.falling.rotation as int, delta) as i8,
                    ..self.falling
                },
                ..self
            }
        } else {
            self
        }
    }

    /// Whether the active piece may go down one row.
    pub open spec fn can_descend(self) -> bool {
        &&& is_coordinate(self.falling.y + 1)
        &&& self.fits(self.falling.mask(), self.falling.x as int, self.falling.y + 1)
    }

    /// The state after the rows awaiting collapse have collapsed.
    pub open spec fn collapsed(self) -> BoardModel {
        BoardModel { grid: shifted_all(self.grid, self.shifting), shifting: Seq::empty(), ..self }
    }

    /// The state after the active piece has gone down one row.
    pub open spec fn descended(self) -> BoardModel {
        BoardModel { falling: TetrominoState { y: (self.falling.y + 1) as i8, ..self.falling }, ..self }
    }

    /// The state after the active piece has been locked into the grid: the
    /// piece that was next is active, and `upcoming` is next.
    pub open spec fn locked(self, upcoming: TetrominoState) -> BoardModel {
        BoardModel {
            grid: locked_into(self.grid, self.falling),
            falling: self.next,
            next: upcoming,
            ..self
        }
    }

    /// The state after the full rows have been detected: they are added to
    /// both queues, and the grid is as before.
    pub open spec fn detected(self) -> BoardModel {
        BoardModel {
            blinking: self.blinking + full_rows(self.grid),
            shifting: self.shifting + full_rows(self.grid),
            ..self
        }
    }

    /// Whether a gravity tick locks the active piece: after the pending
    /// collapse it cannot go down.
    pub open spec fn tick_locks(self) -> bool {
        !self.collapsed().can_descend()
    }

    /// The state after one gravity tick, `upcoming` being the piece that
    /// becomes next if the tick locks the active one. The rows awaiting
    /// collapse collapse; then the active piece goes down one row, or is
    /// locked where it cannot; then the full rows are detected.
    pub open spec fn ticked(self, upcoming: TetrominoState) -> BoardModel {
        let collapsed = self.collapsed();
        if collapsed.can_descend() {
            collapsed.descended().detected()
        } else {
            collapsed.locked(upcoming).detected()
        }
    }
}

} // verus!
