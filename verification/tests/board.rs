use tetris::board::{BoardState, Rejection};
use tetris::piece::{BoardBlock, Color, TetrominoState};
use tetris::random::{get_next_tetromino, random_color, random_kind};
use tetris::shapes::{cell_occupied, PieceKind};

const RED: Color = Color { r: 255, g: 60, b: 60, a: 255 };
const BLUE: Color = Color { r: 60, g: 60, b: 255, a: 255 };
const GREEN: Color = Color { r: 60, g: 255, b: 60, a: 255 };

fn piece_at(kind: PieceKind, color: Color, x: i8, y: i8) -> TetrominoState {
    let mut piece = TetrominoState::spawn(kind, color);
    piece.x = x;
    piece.y = y;
    piece
}

fn board_with(kind: PieceKind, x: i8, y: i8) -> BoardState {
    BoardState::with_pieces(10, 20, piece_at(kind, RED, x, y), TetrominoState::spawn(PieceKind::I, BLUE))
}

fn fill_row(board: &mut BoardState, row: usize, color: Color, skip: Option<usize>) {
    for col in 0..board.width as usize {
        if Some(col) != skip {
            board.locked_state[row][col] = BoardBlock { color, filled: true };
        }
    }
}

fn active_cells(board: &BoardState) -> Vec<(i32, i32)> {
    let piece = &board.falling_state;
    let mut found = Vec::new();
    for row in 0..4u8 {
        for col in 0..4u8 {
            if cell_occupied(piece.current_mask(), row, col) {
                found.push((piece.y as i32 + row as i32, piece.x as i32 + col as i32));
            }
        }
    }
    found
}

fn active_is_legal(board: &BoardState) -> bool {
    active_cells(board).iter().all(|&(row, col)| {
        0 <= row
            && row < board.height as i32
            && 0 <= col
            && col < board.width as i32
            && !board.locked_state[row as usize][col as usize].filled
    })
}

fn is_catalogue_shape(shape: [u16; 4]) -> bool {
    (0..7).any(|index| PieceKind::from_index(index).unwrap().rotations() == shape)
}

#[test]
fn new_board_is_empty_with_two_fresh_pieces() {
    let board = BoardState::new(10, 20);
    assert_eq!(board.width, 10);
    assert_eq!(board.height, 20);
    assert_eq!(board.locked_state.len(), 20);
    for row in &board.locked_state {
        assert_eq!(row.len(), 10);
        for block in row {
            assert_eq!(*block, BoardBlock::empty());
            assert!(!block.filled);
        }
    }
    assert!(board.blinking_rows_queue.is_empty());
    assert!(board.row_shift_queue.is_empty());
    for piece in [&board.falling_state, &board.next_tetromino] {
        assert!(is_catalogue_shape(piece.shape));
        assert_eq!(piece.rotation, 0);
        assert_eq!((piece.x, piece.y), (4, 0));
        for channel in [piece.color.r, piece.color.g, piece.color.b] {
            assert!(51 <= channel && channel < 255);
        }
        assert_eq!(piece.color.a, 255);
    }
    assert!(active_is_legal(&board));
}

#[test]
fn new_board_takes_any_size() {
    let board = BoardState::new(0, 0);
    assert_eq!(board.locked_state.len(), 0);
    let board = BoardState::new(3, 255);
    assert_eq!(board.locked_state.len(), 255);
    assert_eq!(board.locked_state[254].len(), 3);
}

#[test]
fn random_pieces_vary_in_kind_and_colour() {
    let mut shapes = Vec::new();
    let mut channels = Vec::new();
    for _ in 0..400 {
        let piece = get_next_tetromino();
        assert!(is_catalogue_shape(piece.shape));
        assert_eq!((piece.rotation, piece.x, piece.y), (0, 4, 0));
        assert_eq!(piece.color.a, 255);
        if !shapes.contains(&piece.shape) {
            shapes.push(piece.shape);
        }
        for channel in [piece.color.r, piece.color.g, piece.color.b] {
            assert!(51 <= channel && channel < 255);
            if !channels.contains(&channel) {
                channels.push(channel);
            }
        }
    }
    assert!(shapes.len() > 1);
    assert!(channels.len() > 2);
    assert!(channels.iter().any(|&channel| 51 < channel && channel < 254));
}

#[test]
fn random_kind_and_colour_stay_in_range() {
    let mut kinds = Vec::new();
    for _ in 0..400 {
        let kind = random_kind();
        if !kinds.contains(&kind) {
            kinds.push(kind);
        }
        let color = random_color();
        for channel in [color.r, color.g, color.b] {
            assert!(51 <= channel && channel < 255);
        }
        assert_eq!(color.a, 255);
    }
    assert!(kinds.len() > 1);
}

#[test]
fn fits_at_checks_bounds_and_filled_cells() {
    let mut board = board_with(PieceKind::O, 4, 0);
    let mask = PieceKind::O.mask(0);
    assert!(board.fits_at(mask, 0, 0));
    assert!(board.fits_at(mask, 8, 18));
    assert!(!board.fits_at(mask, 9, 0));
    assert!(!board.fits_at(mask, -1, 0));
    assert!(!board.fits_at(mask, 0, 19));
    assert!(!board.fits_at(mask, 0, -1));
    assert!(board.fits_at(0, -100, 300));
    board.locked_state[5][5] = BoardBlock { color: GREEN, filled: true };
    assert!(!board.fits_at(mask, 4, 4));
    assert!(!board.fits_at(mask, 5, 5));
    assert!(board.fits_at(mask, 6, 5));
    assert!(board.fits_at(mask, 4, 6));
    assert!(board.fits_at(PieceKind::I.mask(0), -1, 0));
    assert!(!board.fits_at(PieceKind::I.mask(0), -2, 0));
}

#[test]
fn move_left_stops_at_the_wall() {
    let mut board = board_with(PieceKind::T, 4, 0);
    for expected in [3, 2, 1, 0, -1] {
        assert_eq!(board.move_left(), Ok(()));
        assert_eq!(board.falling_state.x, expected);
    }
    assert!(!board.can_move(-1));
    assert_eq!(board.move_left(), Err(Rejection::InvalidMove));
    assert_eq!(board.falling_state.x, -1);
    assert_eq!(board.falling_state.y, 0);
    assert!(active_is_legal(&board));
}

#[test]
fn move_right_stops_at_the_wall() {
    let mut board = board_with(PieceKind::T, 4, 0);
    for expected in [5, 6, 7] {
        assert!(board.can_move(1));
        assert_eq!(board.move_right(), Ok(()));
        assert_eq!(board.falling_state.x, expected);
    }
    assert_eq!(board.move_right(), Err(Rejection::InvalidMove));
    assert_eq!(board.falling_state.x, 7);
    assert!(active_is_legal(&board));
}

#[test]
fn move_into_a_filled_cell_is_rejected() {
    let mut board = board_with(PieceKind::O, 4, 0);
    board.locked_state[1][3] = BoardBlock { color: GREEN, filled: true };
    assert_eq!(board.move_left(), Err(Rejection::InvalidMove));
    assert_eq!(board.falling_state.x, 4);
    assert_eq!(board.move_right(), Ok(()));
    assert_eq!(board.falling_state.x, 5);
}

#[test]
fn rejected_mutators_change_nothing_however_often_called() {
    let mut board = board_with(PieceKind::T, -1, 3);
    board.locked_state[7][2] = BoardBlock { color: GREEN, filled: true };
    let grid = board.locked_state.clone();
    for _ in 0..5 {
        assert_eq!(board.move_left(), Err(Rejection::InvalidMove));
        assert_eq!(board.rotate_left(), Err(Rejection::InvalidRotation));
        assert_eq!(board.rotate_right(), Err(Rejection::InvalidRotation));
        assert_eq!((board.falling_state.x, board.falling_state.y), (-1, 3));
        assert_eq!(board.falling_state.rotation, 0);
        assert_eq!(board.falling_state.shape, PieceKind::T.rotations());
        assert_eq!(board.falling_state.color, RED);
        assert_eq!(board.locked_state, grid);
        assert_eq!(board.next_tetromino.shape, PieceKind::I.rotations());
        assert!(board.blinking_rows_queue.is_empty());
        assert!(board.row_shift_queue.is_empty());
    }
}

#[test]
fn rotation_index_wraps_both_ways() {
    let mut board = board_with(PieceKind::T, 4, 4);
    assert_eq!(board.rotation_target(-1), 3);
    assert_eq!(board.rotation_target(1), 1);
    assert_eq!(board.rotate_left(), Ok(()));
    assert_eq!(board.falling_state.rotation, 3);
    assert_eq!(board.rotation_target(1), 0);
    assert_eq!(board.rotate_left(), Ok(()));
    assert_eq!(board.falling_state.rotation, 2);
    assert_eq!(board.rotate_right(), Ok(()));
    assert_eq!(board.rotate_right(), Ok(()));
    assert_eq!(board.falling_state.rotation, 0);
    for expected in [1, 2, 3, 0] {
        assert_eq!(board.rotate_right(), Ok(()));
        assert_eq!(board.falling_state.rotation, expected);
    }
    assert_eq!((board.falling_state.x, board.falling_state.y), (4, 4));
}

#[test]
fn rotation_target_is_the_remainder_for_any_delta() {
    let mut board = board_with(PieceKind::T, 4, 4);
    board.falling_state.rotation = 2;
    assert_eq!(board.rotation_target(0), 2);
    assert_eq!(board.rotation_target(2), 0);
    assert_eq!(board.rotation_target(-2), 0);
    assert_eq!(board.rotation_target(-3), 3);
    assert_eq!(board.rotation_target(127), 1);
    assert_eq!(board.rotation_target(-128), 2);
}

#[test]
fn left_then_right_restores_the_rotation() {
    for index in 0..7 {
        let kind = PieceKind::from_index(index).unwrap();
        for start in 0..4i8 {
            let mut board = board_with(kind, 4, 4);
            board.falling_state.rotation = start;
            assert_eq!(board.rotate_left(), Ok(()));
            assert_eq!(board.rotate_right(), Ok(()));
            assert_eq!(board.falling_state.rotation, start);
            assert_eq!(board.rotate_right(), Ok(()));
            assert_eq!(board.rotate_left(), Ok(()));
            assert_eq!(board.falling_state.rotation, start);
        }
    }
}

#[test]
fn rotation_into_a_wall_or_a_filled_cell_is_rejected() {
    let mut board = board_with(PieceKind::I, -1, 0);
    assert!(!board.can_rotate(1));
    assert_eq!(board.rotate_right(), Err(Rejection::InvalidRotation));
    assert_eq!(board.falling_state.rotation, 0);
    let mut board = board_with(PieceKind::I, 4, 0);
    board.locked_state[1][7] = BoardBlock { color: GREEN, filled: true };
    assert_eq!(board.rotate_left(), Err(Rejection::InvalidRotation));
    assert_eq!(board.falling_state.rotation, 0);
    board.locked_state[1][7] = BoardBlock::empty();
    assert!(board.can_rotate(-1));
    assert_eq!(board.rotate_left(), Ok(()));
    assert_eq!(board.falling_state.rotation, 3);
}

#[test]
fn rotation_below_the_floor_is_rejected() {
    let mut board = board_with(PieceKind::I, 4, 17);
    board.falling_state.rotation = 1;
    assert_eq!(board.rotate_right(), Err(Rejection::InvalidRotation));
    assert_eq!(board.falling_state.rotation, 1);
}

#[test]
fn gravity_lets_the_piece_fall_one_row() {
    let mut board = board_with(PieceKind::O, 4, 0);
    let upcoming = TetrominoState::spawn(PieceKind::Z, GREEN);
    assert!(board.can_gravity());
    board.gravity_with(upcoming);
    assert_eq!((board.falling_state.x, board.falling_state.y), (4, 1));
    assert_eq!(board.falling_state.shape, PieceKind::O.rotations());
    assert_eq!(board.next_tetromino.shape, PieceKind::I.rotations());
    assert!(board.locked_state.iter().all(|row| row.iter().all(|block| !block.filled)));
    assert!(board.blinking_rows_queue.is_empty());
    assert!(board.row_shift_queue.is_empty());
}

#[test]
fn lock_commits_exactly_the_active_mask() {
    let mut board = board_with(PieceKind::O, 4, 18);
    board.locked_state[19][0] = BoardBlock { color: GREEN, filled: true };
    let before = board.locked_state.clone();
    let upcoming = TetrominoState::spawn(PieceKind::Z, GREEN);
    assert!(!board.can_gravity());
    board.gravity_with(upcoming);
    for row in 0..20 {
        for col in 0..10 {
            let block = board.locked_state[row][col];
            if (row == 18 || row == 19) && (col == 4 || col == 5) {
                assert_eq!(block, BoardBlock { color: RED, filled: true });
            } else {
                assert_eq!(block, before[row][col]);
            }
        }
    }
    assert_eq!(board.falling_state.shape, PieceKind::I.rotations());
    assert_eq!(board.falling_state.color, BLUE);
    assert_eq!((board.falling_state.x, board.falling_state.y), (4, 0));
    assert_eq!(board.next_tetromino.shape, PieceKind::Z.rotations());
    assert_eq!(board.next_tetromino.color, GREEN);
    assert!(board.row_shift_queue.is_empty());
}

#[test]
fn piece_locks_on_top_of_a_filled_cell() {
    let mut board = board_with(PieceKind::T, 4, 5);
    board.locked_state[8][5] = BoardBlock { color: GREEN, filled: true };
    board.gravity_with(TetrominoState::spawn(PieceKind::Z, GREEN));
    for (row, col) in [(5, 5), (6, 5), (6, 6), (7, 5)] {
        assert_eq!(board.locked_state[row][col], BoardBlock { color: RED, filled: true });
    }
    let filled = board.locked_state.iter().flatten().filter(|block| block.filled).count();
    assert_eq!(filled, 5);
    assert_eq!(board.falling_state.shape, PieceKind::I.rotations());
}

#[test]
fn lock_with_replaces_both_pieces() {
    let mut board = board_with(PieceKind::I, 0, 3);
    board.falling_state.rotation = 1;
    let upcoming = TetrominoState::spawn(PieceKind::S, GREEN);
    board.lock_with(upcoming);
    for col in 0..4 {
        assert_eq!(board.locked_state[4][col], BoardBlock { color: RED, filled: true });
    }
    assert_eq!(board.locked_state.iter().flatten().filter(|block| block.filled).count(), 4);
    assert_eq!(board.falling_state.shape, PieceKind::I.rotations());
    assert_eq!(board.falling_state.rotation, 0);
    assert_eq!(board.next_tetromino.shape, PieceKind::S.rotations());
}

#[test]
fn lock_current_draws_a_fresh_next_piece() {
    let mut board = board_with(PieceKind::O, 4, 18);
    board.lock_current();
    assert_eq!(board.locked_state.iter().flatten().filter(|block| block.filled).count(), 4);
    assert_eq!(board.falling_state.shape, PieceKind::I.rotations());
    assert!(is_catalogue_shape(board.next_tetromino.shape));
    assert_eq!(board.next_tetromino.rotation, 0);
    assert_eq!((board.next_tetromino.x, board.next_tetromino.y), (4, 0));
    assert_eq!(board.next_tetromino.color.a, 255);
}

#[test]
fn gravity_draws_a_fresh_piece_on_lock() {
    let mut board = board_with(PieceKind::O, 4, 18);
    board.gravity();
    assert_eq!(board.locked_state[19][4], BoardBlock { color: RED, filled: true });
    assert_eq!(board.falling_state.shape, PieceKind::I.rotations());
    assert!(is_catalogue_shape(board.next_tetromino.shape));
    assert!(51 <= board.next_tetromino.color.r && board.next_tetromino.color.r < 255);
    let mut board = board_with(PieceKind::O, 4, 0);
    board.gravity();
    assert_eq!(board.falling_state.y, 1);
    assert_eq!(board.next_tetromino.shape, PieceKind::I.rotations());
    assert_eq!(board.next_tetromino.color, BLUE);
}

#[test]
fn a_single_full_row_is_detected_alone() {
    for full in [0usize, 7, 19] {
        let mut board = board_with(PieceKind::O, 4, 2);
        if full == 0 {
            board.falling_state.y = 5;
        }
        fill_row(&mut board, full, GREEN, None);
        if full != 19 {
            fill_row(&mut board, 19, BLUE, Some(3));
        }
        let before = board.locked_state.clone();
        board.check_completed_lines();
        assert_eq!(board.row_shift_queue, vec![full as u8]);
        assert_eq!(board.blinking_rows_queue, vec![full as u8]);
        assert_eq!(board.locked_state, before);
    }
}

#[test]
fn full_rows_are_listed_top_to_bottom_in_both_queues() {
    let mut board = board_with(PieceKind::O, 4, 0);
    fill_row(&mut board, 19, GREEN, None);
    fill_row(&mut board, 17, GREEN, None);
    fill_row(&mut board, 18, GREEN, Some(9));
    board.blinking_rows_queue.push(3);
    board.check_completed_lines();
    assert_eq!(board.row_shift_queue, vec![17, 19]);
    assert_eq!(board.blinking_rows_queue, vec![3, 17, 19]);
}

#[test]
fn no_full_row_leaves_the_queues_alone() {
    let mut board = board_with(PieceKind::O, 4, 0);
    fill_row(&mut board, 19, GREEN, Some(0));
    board.check_completed_lines();
    assert!(board.row_shift_queue.is_empty());
    assert!(board.blinking_rows_queue.is_empty());
}

#[test]
fn shift_board_down_copies_each_row_above_one_down() {
    let mut board = board_with(PieceKind::O, 4, 0);
    fill_row(&mut board, 0, RED, Some(1));
    fill_row(&mut board, 1, GREEN, Some(2));
    fill_row(&mut board, 2, BLUE, None);
    fill_row(&mut board, 3, GREEN, Some(4));
    let before = board.locked_state.clone();
    board.shift_board_down(&2);
    assert_eq!(board.locked_state[0], before[0]);
    assert_eq!(board.locked_state[1], before[0]);
    assert_eq!(board.locked_state[2], before[1]);
    assert_eq!(board.locked_state[3], before[3]);
    for row in 4..20 {
        assert_eq!(board.locked_state[row], before[row]);
    }
}

#[test]
fn shift_board_down_from_the_top_row_changes_nothing() {
    let mut board = board_with(PieceKind::O, 4, 4);
    fill_row(&mut board, 0, RED, None);
    fill_row(&mut board, 1, GREEN, Some(2));
    let before = board.locked_state.clone();
    board.shift_board_down(&0);
    assert_eq!(board.locked_state, before);
}

#[test]
fn queued_rows_collapse_in_the_order_of_detection() {
    let mut board = board_with(PieceKind::O, 4, 0);
    fill_row(&mut board, 16, RED, Some(1));
    fill_row(&mut board, 17, GREEN, None);
    fill_row(&mut board, 18, BLUE, Some(3));
    fill_row(&mut board, 19, GREEN, None);
    let before = board.locked_state.clone();
    board.row_shift_queue = vec![17, 19];
    board.apply_row_shifts();
    assert!(board.row_shift_queue.is_empty());
    assert_eq!(board.locked_state[19], before[18]);
    assert_eq!(board.locked_state[18], before[16]);
    assert_eq!(board.locked_state[17], before[15]);
    assert_eq!(board.locked_state[16], before[14]);
    for row in 0..16 {
        assert!(board.locked_state[row].iter().all(|block| !block.filled));
    }
}

#[test]
fn collapse_is_deferred_to_the_next_gravity() {
    let mut board = board_with(PieceKind::O, 4, 0);
    fill_row(&mut board, 19, GREEN, None);
    fill_row(&mut board, 18, BLUE, Some(0));
    board.locked_state[17][6] = BoardBlock { color: RED, filled: true };
    let before = board.locked_state.clone();
    let upcoming = TetrominoState::spawn(PieceKind::Z, GREEN);

    board.gravity_with(upcoming);
    assert_eq!(board.row_shift_queue, vec![19]);
    assert_eq!(board.blinking_rows_queue, vec![19]);
    assert_eq!(board.locked_state, before);
    assert!(board.locked_state[19].iter().all(|block| block.filled));
    assert_eq!(board.falling_state.y, 1);

    board.gravity_with(upcoming);
    let mut expected = vec![vec![BoardBlock::empty(); 10]; 20];
    expected[19] = before[18].clone();
    expected[18] = before[17].clone();
    assert_eq!(board.locked_state, expected);
    assert!(!board.locked_state[19][0].filled);
    assert_eq!(board.locked_state[19][1], BoardBlock { color: BLUE, filled: true });
    assert_eq!(board.locked_state[18][6], BoardBlock { color: RED, filled: true });
    assert!(board.row_shift_queue.is_empty());
    assert_eq!(board.blinking_rows_queue, vec![19]);
    assert_eq!(board.falling_state.y, 2);
}

#[test]
fn locking_can_complete_a_row() {
    let mut board = board_with(PieceKind::I, 0, 18);
    board.falling_state.rotation = 1;
    for col in 4..10 {
        board.locked_state[19][col] = BoardBlock { color: GREEN, filled: true };
    }
    board.gravity_with(TetrominoState::spawn(PieceKind::Z, GREEN));
    assert!(board.locked_state[19].iter().all(|block| block.filled));
    assert_eq!(board.row_shift_queue, vec![19]);
    assert_eq!(board.blinking_rows_queue, vec![19]);
    board.gravity_with(TetrominoState::spawn(PieceKind::Z, GREEN));
    assert!(board.locked_state.iter().flatten().all(|block| !block.filled));
    assert!(board.row_shift_queue.is_empty());
}

#[test]
fn active_piece_stays_legal_through_play() {
    let mut board = BoardState::with_pieces(
        10,
        20,
        TetrominoState::spawn(PieceKind::T, RED),
        TetrominoState::spawn(PieceKind::L, BLUE),
    );
    let kinds = [PieceKind::S, PieceKind::I, PieceKind::O, PieceKind::J, PieceKind::Z];
    let mut step = 0usize;
    for _ in 0..3 {
        for _ in 0..30 {
            assert!(active_is_legal(&board));
            match step % 5 {
                0 => {
                    let _ = board.move_left();
                }
                1 => {
                    let _ = board.rotate_right();
                }
                2 => {
                    let _ = board.move_right();
                }
                3 => {
                    let _ = board.rotate_left();
                }
                _ => {
                    let _ = board.move_right();
                }
            }
            assert!(active_is_legal(&board));
            board.gravity_with(TetrominoState::spawn(kinds[step % 5], GREEN));
            step += 1;
        }
    }
    assert!(active_is_legal(&board));
    assert!(board.locked_state.iter().flatten().any(|block| block.filled));
}

#[test]
fn a_piece_in_the_last_column_of_a_wide_board_cannot_leave_the_coordinates() {
    let mut board = BoardState::with_pieces(
        255,
        4,
        piece_at(PieceKind::O, RED, 127, 0),
        TetrominoState::spawn(PieceKind::I, BLUE),
    );
    assert!(!board.can_move(1));
    assert_eq!(board.move_right(), Err(Rejection::InvalidMove));
    assert_eq!(board.falling_state.x, 127);
    assert_eq!(board.move_left(), Ok(()));
    assert_eq!(board.falling_state.x, 126);
}

#[test]
fn boards_made_here_are_well_formed() {
    assert!(BoardState::new(10, 20).is_well_formed());
    assert!(BoardState::new(0, 0).is_well_formed());
    let mut board = board_with(PieceKind::O, 4, 0);
    assert!(board.is_well_formed());
    board.gravity_with(TetrominoState::spawn(PieceKind::Z, GREEN));
    let _ = board.move_left();
    let _ = board.rotate_left();
    assert!(board.is_well_formed());
}

#[test]
fn boards_set_by_hand_may_be_malformed() {
    let mut board = board_with(PieceKind::O, 4, 0);
    board.locked_state.pop();
    assert!(!board.is_well_formed());
    let mut board = board_with(PieceKind::O, 4, 0);
    board.locked_state[3].push(BoardBlock::empty());
    assert!(!board.is_well_formed());
    let mut board = board_with(PieceKind::O, 4, 0);
    board.falling_state.rotation = 4;
    assert!(!board.is_well_formed());
    let mut board = board_with(PieceKind::O, 4, 0);
    board.next_tetromino.rotation = -1;
    assert!(!board.is_well_formed());
    let mut board = board_with(PieceKind::O, 4, 0);
    board.row_shift_queue.push(20);
    assert!(!board.is_well_formed());
    board.row_shift_queue = vec![19, 0];
    assert!(board.is_well_formed());
    board.width = 11;
    assert!(!board.is_well_formed());
}
