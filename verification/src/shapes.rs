//! The catalogue of piece geometries.
//!
//! Every kind has four rotation states. A rotation state is a 16-bit mask over
//! the piece's 4x4 bounding box, row by row from the top, the most significant
//! bit standing for the top-left cell.

use vstd::prelude::*;

verus! {

/// The seven kinds of piece.
#[derive(Clone, Copy, Debug, PartialEq, Eq, Structural)]
pub enum PieceKind {
    T,
    S,
    Z,
    I,
    J,
    L,
    O,
}

/// Number of piece kinds in the catalogue.
pub const KIND_COUNT: usize = 7;

/// Whether `mask` marks the cell at (`row`, `col`) of the bounding box.
/// Cells outside the 4x4 box are never marked.
pub open spec fn occupied(mask: u16, row: int, col: int) -> bool {
    &&& 0 <= row < 4
    &&& 0 <= col < 4
    &&& mask & (0x8000u16 >> ((row * 4 + col) as u16)) != 0
}

/// The mask of `kind` in rotation state `rotation`, for `rotation` in 0..4.
pub open spec fn spec_mask(kind: PieceKind, rotation: int) -> u16 {
    match kind {
        PieceKind::T => if rotation == 0 { 0x4640 } else if rotation == 1 { 0x0E40 } else if rotation == 2 { 0x4C40 } else { 0x4E00 },
        PieceKind::S => if rotation == 0 { 0x8C40 } else if rotation == 1 { 0x6C00 } else if rotation == 2 { 0x8C40 } else { 0x6C00 },
        PieceKind::Z => if rotation == 0 { 0x4C80 } else if rotation == 1 { 0xC600 } else if rotation == 2 { 0x4C80 } else { 0xC600 },
        PieceKind::I => if rotation == 0 { 0x4444 } else if rotation == 1 { 0x0F00 } else if rotation == 2 { 0x4444 } else { 0x0F00 },
        PieceKind::J => if rotation == 0 { 0x44C0 } else if rotation == 1 { 0x8E00 } else if rotation == 2 { 0xC880 } else { 0xE200 },
        PieceKind::L => if rotation == 0 { 0x88C0 } else if rotation == 1 { 0xE800 } else if rotation == 2 { 0xC440 } else { 0x2E00 },
        PieceKind::O => 0xCC00,
    }
}

/// The four rotation states of `kind` as a sequence.
pub open spec fn spec_rotations(kind: PieceKind) -> Seq<u16> {
    Seq::new(4, |r: int| spec_mask(kind, r))
}

/// The kind at position `index` of the catalogue, for `index` in 0..7.
pub open spec fn spec_kind_at(index: int) -> PieceKind {
    if index == 0 {
        PieceKind::T
    } else if index == 1 {
        PieceKind::S
    } else if index == 2 {
        PieceKind::Z
    } else if index == 3 {
        PieceKind::I
    } else if index == 4 {
        PieceKind::J
    } else if index == 5 {
        PieceKind::L
    } else {
        PieceKind::O
    }
}

/// Whether `shape` is the rotation table of some kind of the catalogue.
pub open spec fn is_catalogue_shape(shape: Seq<u16>) -> bool {
    exists|index: int| 0 <= index < 7 && shape == spec_rotations(#[trigger] spec_kind_at(index))
}

/// Every kind stands somewhere in the catalogue, so its rotation table is a
/// catalogue shape.
pub proof fn lemma_kind_in_catalogue(kind: PieceKind)
    ensures
        exists|index: int| 0 <= index < 7 && #[trigger] spec_kind_at(index) == kind,
        is_catalogue_shape(spec_rotations(kind)),
{
    let index: int = match kind {
        PieceKind::T => 0,
        PieceKind::S => 1,
        PieceKind::Z => 2,
        PieceKind::I => 3,
        PieceKind::J => 4,
        PieceKind::L => 5,
        PieceKind::O => 6,
    };
    assert(spec_kind_at(index) == kind);
}

impl PieceKind {
    /// The kind at position `index` of the catalogue, `None` past its end.
    pub fn from_index(index: usize) -> (kind: Option<PieceKind>)
        ensures
            index < KIND_COUNT ==> kind == Some(spec_kind_at(index as int)),
            index >= KIND_COUNT ==> kind is None,
    {
        match index {
            0 => Some(PieceKind::T),
            1 => Some(PieceKind::S),
            2 => Some(PieceKind::Z),
            3 => Some(PieceKind::I),
            4 => Some(PieceKind::J),
            5 => Some(PieceKind::L),
            6 => Some(PieceKind::O),
            _ => None,
        }
    }

    /// The four rotation states of this kind.
    pub fn rotations(self) -> (table: [u16; 4])
        ensures
            table@ == spec_rotations(self),
    {
        let table: [u16; 4] = match self {
            PieceKind::T => [0x4640, 0x0E40, 0x4C40, 0x4E00],
            PieceKind::S => [0x8C40, 0x6C00, 0x8C40, 0x6C00],
            PieceKind::Z => [0x4C80, 0xC600, 0x4C80, 0xC600],
            PieceKind::I => [0x4444, 0x0F00, 0x4444, 0x0F00],
            PieceKind::J => [0x44C0, 0x8E00, 0xC880, 0xE200],
            PieceKind::L => [0x88C0, 0xE800, 0xC440, 0x2E00],
            PieceKind::O => [0xCC00, 0xCC00, 0xCC00, 0xCC00],
        };
        assert(table@ =~= spec_rotations(self));
        table
    }

    /// The mask of this kind in rotation state `rotation`.
    pub fn mask(self, rotation: u8) -> (mask: u16)
        requires
            rotation < 4,
        ensures
            mask == spec_mask(self, rotation as int),
    {
        let table = self.rotations();
        table[rotation as usize]
    }
}

/// Whether `mask` marks the cell at (`row`, `col`) of the bounding box.
pub fn cell_occupied(mask: u16, row: u8, col: u8) -> (marked: bool)
    ensures
        marked == occupied(mask, row as int, col as int),
{
    if row < 4 && col < 4 {
        let shift: u16 = (row * 4 + col) as u16;
        mask & (0x8000u16 >> shift) != 0
    } else {
        false
    }
}

} // verus!
