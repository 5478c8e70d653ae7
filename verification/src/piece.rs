//! Pieces and grid cells as plain data.

use vstd::prelude::*;
use crate::shapes::{is_catalogue_shape, spec_rotations, PieceKind};

verus! {

/// An RGBA colour, each channel from 0 (none) to 255 (full).
#[derive(Clone, Copy, Debug, PartialEq, Eq, Structural)]
pub struct Color {
    pub r: u8,
    pub g: u8,
    pub b: u8,
    pub a: u8,
}

/// Column at which a fresh piece's bounding box starts.
pub const SPAWN_X: i8 = 4;

/// Row at which a fresh piece's bounding box starts.
pub const SPAWN_Y: i8 = 0;

/// Lowest value of a colour channel of a fresh piece.
pub const CHANNEL_MIN: u8 = 51;

/// The value of a full colour channel. It is the alpha of every fresh piece,
/// and the other channels of a fresh piece stay below it.
pub const CHANNEL_MAX: u8 = 255;

/// A piece on or beside the board: its rotation table, which of the four
/// rotation states it is in, its colour, and the grid position (`x`, `y`) of
/// the top-left corner of its 4x4 bounding box.
#[derive(Clone, Copy, Debug)]
pub struct TetrominoState {
    pub shape: [u16; 4],
    pub rotation: i8,
    pub color: Color,
    pub x: i8,
    pub y: i8,
}

/// One cell of the grid.
#[derive(Clone, Copy, Debug, PartialEq, Eq, Structural)]
pub struct BoardBlock {
    pub color: Color,
    pub filled: bool,
}

impl Color {
    /// Whether this is a colour that a fresh piece may have: opaque, and
    /// each of the other channels no darker than `CHANNEL_MIN` and short of
    /// full.
    pub open spec fn is_piece_color(self) -> bool {
        &&& CHANNEL_MIN <= self.r < CHANNEL_MAX
        &&& CHANNEL_MIN <= self.g < CHANNEL_MAX
        &&& CHANNEL_MIN <= self.b < CHANNEL_MAX
        &&& self.a == CHANNEL_MAX
    }
}

impl BoardBlock {
    /// The cell that nothing has been locked into.
    pub open spec fn spec_empty() -> BoardBlock {
        BoardBlock { color: Color { r: 0, g: 0, b: 0, a: 0 }, filled: false }
    }

    /// The cell that nothing has been locked into.
    pub fn empty() -> (block: BoardBlock)
        ensures
            block == Self::spec_empty(),
    {
        BoardBlock { color: Color { r: 0, g: 0, b: 0, a: 0 }, filled: false }
    }
}

impl TetrominoState {
    /// The rotation index is one of the four states.
    pub open spec fn wf(self) -> bool {
        0 <= self.rotation < 4
    }

    /// The mask of the current rotation state.
    pub open spec fn mask(self) -> u16
        recommends
            self.wf(),
    {
        self.shape@[self.rotation as int]
    }

    /// Whether this is a piece as it enters the game: of a kind of the
    /// catalogue, unrotated, at the spawn position, in a piece colour.
    pub open spec fn is_fresh(self) -> bool {
        &&& is_catalogue_shape(self.shape@)
        &&& self.rotation == 0
        &&& self.x == SPAWN_X
        &&& self.y == SPAWN_Y
        &&& self.color.is_piece_color()
    }

    /// There is a fresh piece.
    pub proof fn lemma_fresh_exists()
        ensures
            exists|piece: TetrominoState| #[trigger] piece.is_fresh(),
    {
        let piece = TetrominoState {
            shape: [0x4640u16, 0x0E40u16, 0x4C40u16, 0x4E00u16],
            rotation: 0,
            color: Color { r: CHANNEL_MIN, g: CHANNEL_MIN, b: CHANNEL_MIN, a: CHANNEL_MAX },
            x: SPAWN_X,
            y: SPAWN_Y,
        };
        assert(piece.shape@ =~= spec_rotations(PieceKind::T));
        crate::shapes::lemma_kind_in_catalogue(PieceKind::T);
        assert(piece.is_fresh());
    }

    /// The piece of `kind` and `color` as it enters the game: unrotated, at
    /// the spawn position.
    pub fn spawn(kind: PieceKind, color: Color) -> (piece: TetrominoState)
        ensures
            piece.shape@ == spec_rotations(kind),
            piece.rotation == 0,
            piece.color == color,
            piece.x == SPAWN_X,
            piece.y == SPAWN_Y,
    {
        TetrominoState { shape: kind.rotations(), rotation: 0, color, x: SPAWN_X, y: SPAWN_Y }
    }

    /// The mask of the current rotation state.
    pub fn current_mask(&self) -> (mask: u16)
        requires
            self.wf(),
        ensures
            mask == self.mask(),
    {
        self.shape[self.rotation as usize]
    }
}

} // verus!
