//! Where chance enters: the kind and the colour of each fresh piece.

use vstd::prelude::*;
use rand::seq::IteratorRandom;
use rand::Rng;
use crate::piece::{Color, TetrominoState, CHANNEL_MAX, CHANNEL_MIN};
use crate::shapes::{spec_kind_at, PieceKind, KIND_COUNT};

verus! {

/// Calls `rand::seq::IteratorRandom::choose` on the range `0..count` with the
/// thread's generator. Trusted: `choose` returns `None` exactly when the
/// iterator is empty, and otherwise one of the items that it yields, here a
/// number below `count`. Which one is left open.
#[verifier::external_body]
fn random_index(count: usize) -> (index: Option<usize>)
    ensures
        count == 0 <==> index is None,
        index is Some ==> index->0 < count,
{
    (0..count).choose(&mut rand::thread_rng())
}

/// Calls `rand::Rng::gen_range` on the inclusive range `low..=high` with the
/// thread's generator. Trusted: the value lies in the range. `gen_range`
/// panics on an empty range, which `requires` leaves out.
#[verifier::external_body]
fn random_channel(low: u8, high: u8) -> (value: u8)
    requires
        low <= high,
    ensures
        low <= value <= high,
{
    rand::thread_rng().gen_range(low..=high)
}

/// A kind of the catalogue, chosen at random.
pub fn random_kind() -> (kind: PieceKind)
    ensures
        exists|index: int| 0 <= index < KIND_COUNT && kind == #[trigger] spec_kind_at(index),
{
    match random_index(KIND_COUNT) {
        Some(index) => match PieceKind::from_index(index) {
            Some(kind) => kind,
            None => unreached(),
        },
        None => unreached(),
    }
}

/// An opaque colour whose other channels are chosen at random,
/// independently of one another, none darker than `CHANNEL_MIN` and none
/// full.
pub fn random_color() -> (color: Color)
    ensures
        color.is_piece_color(),
{
    let r = random_channel(CHANNEL_MIN, CHANNEL_MAX - 1);
    let g = random_channel(CHANNEL_MIN, CHANNEL_MAX - 1);
    let b = random_channel(CHANNEL_MIN, CHANNEL_MAX - 1);
    Color { r, g, b, a: CHANNEL_MAX }
}

/// A fresh piece of a random kind in a random colour that does not depend on
/// the kind.
pub fn get_next_tetromino() -> (piece: TetrominoState)
    ensures
        piece.is_fresh(),
        piece.wf(),
{
    let kind = random_kind();
    let color = random_color();
    let piece = TetrominoState::spawn(kind, color);
    proof {
        crate::shapes::lemma_kind_in_catalogue(kind);
    }
    piece
}

} // verus!
