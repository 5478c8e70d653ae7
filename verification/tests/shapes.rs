use tetris::piece::{Color, TetrominoState, SPAWN_X, SPAWN_Y};
use tetris::shapes::{cell_occupied, PieceKind, KIND_COUNT};

fn cells(mask: u16) -> Vec<(u8, u8)> {
    let mut found = Vec::new();
    for row in 0..4u8 {
        for col in 0..4u8 {
            if cell_occupied(mask, row, col) {
                found.push((row, col));
            }
        }
    }
    found
}

#[test]
fn catalogue_masks_are_bit_for_bit() {
    assert_eq!(PieceKind::T.rotations(), [0x4640, 0x0E40, 0x4C40, 0x4E00]);
    assert_eq!(PieceKind::S.rotations(), [0x8C40, 0x6C00, 0x8C40, 0x6C00]);
    assert_eq!(PieceKind::Z.rotations(), [0x4C80, 0xC600, 0x4C80, 0xC600]);
    assert_eq!(PieceKind::I.rotations(), [0x4444, 0x0F00, 0x4444, 0x0F00]);
    assert_eq!(PieceKind::J.rotations(), [0x44C0, 0x8E00, 0xC880, 0xE200]);
    assert_eq!(PieceKind::L.rotations(), [0x88C0, 0xE800, 0xC440, 0x2E00]);
    assert_eq!(PieceKind::O.rotations(), [0xCC00, 0xCC00, 0xCC00, 0xCC00]);
}

#[test]
fn mask_picks_the_rotation_state() {
    assert_eq!(PieceKind::T.mask(0), 0x4640);
    assert_eq!(PieceKind::T.mask(1), 0x0E40);
    assert_eq!(PieceKind::T.mask(2), 0x4C40);
    assert_eq!(PieceKind::T.mask(3), 0x4E00);
    assert_eq!(PieceKind::J.mask(2), 0xC880);
    assert_eq!(PieceKind::L.mask(3), 0x2E00);
    assert_eq!(PieceKind::I.mask(1), 0x0F00);
}

#[test]
fn every_mask_marks_four_cells() {
    for index in 0..KIND_COUNT {
        let kind = PieceKind::from_index(index).unwrap();
        for rotation in 0..4u8 {
            assert_eq!(cells(kind.mask(rotation)).len(), 4);
        }
    }
}

#[test]
fn kinds_stand_in_catalogue_order() {
    assert_eq!(PieceKind::from_index(0), Some(PieceKind::T));
    assert_eq!(PieceKind::from_index(1), Some(PieceKind::S));
    assert_eq!(PieceKind::from_index(2), Some(PieceKind::Z));
    assert_eq!(PieceKind::from_index(3), Some(PieceKind::I));
    assert_eq!(PieceKind::from_index(4), Some(PieceKind::J));
    assert_eq!(PieceKind::from_index(5), Some(PieceKind::L));
    assert_eq!(PieceKind::from_index(6), Some(PieceKind::O));
    assert_eq!(PieceKind::from_index(7), None);
    assert_eq!(PieceKind::from_index(usize::MAX), None);
}

#[test]
fn masks_read_row_major_from_the_top_left() {
    assert!(cell_occupied(0x8000, 0, 0));
    assert!(!cell_occupied(0x8000, 0, 1));
    assert!(cell_occupied(0x0001, 3, 3));
    assert!(cell_occupied(0x1000, 0, 3));
    assert!(cell_occupied(0x0800, 1, 0));
    assert_eq!(cells(0x4640), vec![(0, 1), (1, 1), (1, 2), (2, 1)]);
    assert_eq!(cells(0x4444), vec![(0, 1), (1, 1), (2, 1), (3, 1)]);
    assert_eq!(cells(0x0F00), vec![(1, 0), (1, 1), (1, 2), (1, 3)]);
    assert_eq!(cells(0xCC00), vec![(0, 0), (0, 1), (1, 0), (1, 1)]);
    assert_eq!(cells(0x2E00), vec![(0, 2), (1, 0), (1, 1), (1, 2)]);
    assert_eq!(cells(0), vec![]);
}

#[test]
fn cells_off_the_box_are_never_marked() {
    assert!(!cell_occupied(0xFFFF, 4, 0));
    assert!(!cell_occupied(0xFFFF, 0, 4));
    assert!(!cell_occupied(0xFFFF, 255, 255));
    assert!(cell_occupied(0xFFFF, 3, 3));
}

#[test]
fn spawned_piece_is_unrotated_at_the_spawn_position() {
    let color = Color { r: 60, g: 70, b: 80, a: 255 };
    let piece = TetrominoState::spawn(PieceKind::L, color);
    assert_eq!(piece.shape, [0x88C0, 0xE800, 0xC440, 0x2E00]);
    assert_eq!(piece.rotation, 0);
    assert_eq!(piece.color, color);
    assert_eq!(piece.x, 4);
    assert_eq!(piece.y, 0);
    assert_eq!(SPAWN_X, 4);
    assert_eq!(SPAWN_Y, 0);
    assert_eq!(piece.current_mask(), 0x88C0);
}
