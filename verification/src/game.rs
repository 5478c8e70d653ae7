//! The game around the board: the keys that are held, the pace of gravity,
//! and the pause in which completed rows blink before they collapse.

use vstd::prelude::*;
use crate::board::BoardState;
use crate::input::{
    find_bind, fired_action, key_after_tick, keys_after_event, release_key, BindActions, Button,
    EventType, KeyState, PRIMED_TICKS,
};
use crate::model::BoardModel;
use crate::piece::TetrominoState;

verus! {

/// Updates between two gravity ticks of the game's own: a tick falls on
/// every update that finds more than this many gone by since the last.
pub const GRAVITY_EVERY: u8 = 16;

/// Updates that the pause for completed rows lasts.
pub const BLINK_TICKS: u8 = 32;

/// Updates after which the blinking rows are shown or hidden in turn.
pub const BLINK_TOGGLE: u8 = 4;

/// The game: the board, the keys that are down, the updates since the game
/// last let the piece fall, and the state of the pause for completed rows:
/// whether it is on, which rows blink, for how many updates, and whether
/// they are shown at the moment.
pub struct Game {
    pub board: BoardState,
    pub key_states: Vec<KeyState>,
    pub ticks_since_gravity: u8,
    pub pause: bool,
    pub blinking_rows: Vec<u8>,
    pub blinking_ticks: u8,
    pub blinking_visibility: bool,
}

/// A state of the game.
pub struct GameModel {
    pub board: BoardModel,
    pub keys: Seq<KeyState>,
    pub ticks_since_gravity: u8,
    pub pause: bool,
    pub blinking_rows: Seq<u8>,
    pub blinking_ticks: u8,
    pub blinking_visibility: bool,
}

/// Whether every piece of `pieces` is a fresh one.
pub open spec fn all_fresh(pieces: Seq<TetrominoState>) -> bool {
    forall|i: int| 0 <= i < pieces.len() ==> (#[trigger] pieces[i]).is_fresh()
}

/// The board after `action`, `upcoming` being the piece that becomes next
/// if the action is a drop that locks the active one.
pub open spec fn acted(board: BoardModel, action: BindActions, upcoming: TetrominoState) -> BoardModel {
    match action {
        BindActions::MoveLeft => board.moved(-1),
        BindActions::MoveRight => board.moved(1),
        BindActions::MoveDown => board.ticked(upcoming),
        BindActions::RotateLeft => board.rotated(-1),
        BindActions::RotateRight => board.rotated(1),
    }
}

/// The board after the held keys `keys` have had their turn, first to last,
/// each that fires acting on the board that the ones before it left. The
/// piece at a key's position in `pieces` is the one that becomes next if
/// that key's action locks the active piece.
pub open spec fn keys_fired(board: BoardModel, keys: Seq<KeyState>, pieces: Seq<TetrominoState>) -> BoardModel
    decreases keys.len(),
{
    if keys.len() == 0 {
        board
    } else {
        let before = keys_fired(board, keys.drop_last(), pieces.drop_last());
        match fired_action(keys.last()) {
            Some(action) => acted(before, action, pieces.last()),
            None => before,
        }
    }
}

impl GameModel {
    /// The board is well-formed, and the count of blinking updates is within
    /// the pause.
    pub open spec fn wf(self) -> bool {
        self.board.wf() && self.blinking_ticks < BLINK_TICKS
    }

    /// The state after the held keys have had their turn: each has waited
    /// one tick more or fired, and the board is as the firings left it.
    pub open spec fn input_ticked(self, pieces: Seq<TetrominoState>) -> GameModel {
        GameModel {
            board: keys_fired(self.board, self.keys, pieces),
            keys: self.keys.map_values(|state: KeyState| key_after_tick(state)),
            ..self
        }
    }

    /// The state after the game has let the piece fall if it is time to: a
    /// gravity tick where more than `GRAVITY_EVERY` updates have gone by
    /// since the last, and one more update counted where not.
    pub open spec fn paced(self, upcoming: TetrominoState) -> GameModel {
        if self.ticks_since_gravity > GRAVITY_EVERY {
            GameModel { board: self.board.ticked(upcoming), ticks_since_gravity: 0, ..self }
        } else {
            GameModel { ticks_since_gravity: (self.ticks_since_gravity + 1) as u8, ..self }
        }
    }

    /// The state after the part of an update that runs only outside the
    /// pause: the held keys have their turn, then gravity has its own.
    pub open spec fn played(self, pieces: Seq<TetrominoState>) -> GameModel {
        if self.pause {
            self
        } else {
            self.input_ticked(pieces.take(self.keys.len() as int)).paced(pieces[self.keys.len() as int])
        }
    }

    /// The state after the board's list of completed rows, if it holds any,
    /// has been taken over: the pause begins, its count starts at 0, the
    /// rows blink, and the board's list is empty.
    pub open spec fn rows_taken(self) -> GameModel {
        if self.board.blinking.len() > 0 {
            GameModel {
                board: BoardModel { blinking: Seq::empty(), ..self.board },
                pause: true,
                blinking_ticks: 0,
                blinking_rows: self.board.blinking,
                ..self
            }
        } else {
            self
        }
    }

    /// The state after the blinking rows have been shown or hidden in turn,
    /// which happens on every count that `BLINK_TOGGLE` divides.
    pub open spec fn toggled(self) -> GameModel {
        if self.blinking_ticks % BLINK_TOGGLE == 0 {
            GameModel { blinking_visibility: !self.blinking_visibility, ..self }
        } else {
            self
        }
    }

    /// The state after the end of the pause has been seen to, which happens
    /// when the count is `BLINK_TICKS`: the count starts over, no row
    /// blinks, the pause is off, and if it was on the board has had the one
    /// gravity tick that collapses the completed rows.
    pub open spec fn resumed(self, upcoming: TetrominoState) -> GameModel {
        if self.blinking_ticks == BLINK_TICKS {
            GameModel {
                board: if self.pause {
                    self.board.ticked(upcoming)
                } else {
                    self.board
                },
                pause: false,
                blinking_ticks: 0,
                blinking_rows: Seq::empty(),
                ..self
            }
        } else {
            self
        }
    }

    /// The state after one update. `pieces` holds one piece for each held
    /// key and two more, for the game's own gravity tick and for the one
    /// that ends a pause: each is the piece that becomes next if the tick at
    /// its position locks the active piece.
    pub open spec fn updated(self, pieces: Seq<TetrominoState>) -> GameModel {
        let played = self.played(pieces);
        let counted = GameModel { blinking_ticks: (played.blinking_ticks + 1) as u8, ..played };
        counted.rows_taken().toggled().resumed(pieces[self.keys.len() as int + 1])
    }

    /// Whether the row `row` of the grid is to be drawn: it is not while it
    /// blinks and the blinking rows are hidden.
    pub open spec fn row_shown(self, row: u8) -> bool {
        !(self.blinking_rows.contains(row) && !self.blinking_visibility)
    }
}

impl View for Game {
    type V = GameModel;

    open spec fn view(&self) -> GameModel {
        GameModel {
            board: self.board@,
            keys: self.key_states@,
            ticks_since_gravity: self.ticks_since_gravity,
            pause: self.pause,
            blinking_rows: self.blinking_rows@,
            blinking_ticks: self.blinking_ticks,
            blinking_visibility: self.blinking_visibility,
        }
    }
}

impl Game {
    /// The board is well-formed, and the count of blinking updates is
    /// within the pause.
    pub open spec fn wf(&self) -> bool {
        self@.wf()
    }

    /// Whether this game is well-formed. A game that the functions of this
    /// module made is; one whose fields were set by hand need not be.
    pub fn is_well_formed(&self) -> (ok: bool)
        ensures
            ok == self.wf(),
    {
        self.board.is_well_formed() && self.blinking_ticks < BLINK_TICKS
    }

    /// A game on `board` in which no key is down and no row blinks.
    pub fn new(board: BoardState) -> (game: Game)
        requires
            board.wf(),
        ensures
            game@ == (GameModel {
                board: board@,
                keys: Seq::empty(),
                ticks_since_gravity: 0,
                pause: false,
                blinking_rows: Seq::empty(),
                blinking_ticks: 0,
                blinking_visibility: false,
            }),
            game.wf(),
    {
        Game {
            board,
            key_states: Vec::new(),
            ticks_since_gravity: 0,
            pause: false,
            blinking_rows: Vec::new(),
            blinking_ticks: 0,
            blinking_visibility: false,
        }
    }

    /// Takes note that `key` went down or up. A key that went down joins the
    /// held keys, primed to fire on the next tick; one that went up leaves
    /// them at once.
    pub fn handle_input(&mut self, key: Button, event_type: EventType)
        ensures
            final(self)@ == (GameModel { keys: keys_after_event(old(self)@.keys, key, event_type), ..old(self)@ }),
    {
        match event_type {
            EventType::Press => {
                self.key_states.push(KeyState { key, ticks_since_repeat: PRIMED_TICKS });
            },
            EventType::Release => {
                release_key(&mut self.key_states, key);
            },
        }
    }

    /// Asks of the board what `action` stands for. A drop is a gravity tick,
    /// which draws a fresh piece of a random kind and colour if it locks
    /// the active one.
    pub fn execute_action(&mut self, action: &BindActions)
        requires
            old(self).board.wf(),
        ensures
            exists|upcoming: TetrominoState| #[trigger]
                upcoming.is_fresh() && final(self)@ == (GameModel {
                    board: acted(old(self)@.board, *action, upcoming),
                    ..old(self)@
                }),
            final(self).board.wf(),
    {
        proof {
            TetrominoState::lemma_fresh_exists();
        }
        let ghost spare = choose|piece: TetrominoState| #[trigger] piece.is_fresh();
        match action {
            BindActions::MoveLeft => {
                let _ = self.board.move_left();
                assert(self@ == (GameModel { board: acted(old(self)@.board, *action, spare), ..old(self)@ }));
            },
            BindActions::MoveRight => {
                let _ = self.board.move_right();
                assert(self@ == (GameModel { board: acted(old(self)@.board, *action, spare), ..old(self)@ }));
            },
            BindActions::MoveDown => {
                self.board.gravity();
                let ghost drawn = if old(self)@.board.tick_locks() {
                    self@.board.next
                } else {
                    spare
                };
                assert(self@ == (GameModel { board: acted(old(self)@.board, *action, drawn), ..old(self)@ }));
            },
            BindActions::RotateLeft => {
                let _ = self.board.rotate_left();
                assert(self@ == (GameModel { board: acted(old(self)@.board, *action, spare), ..old(self)@ }));
            },
            BindActions::RotateRight => {
                let _ = self.board.rotate_right();
                assert(self@ == (GameModel { board: acted(old(self)@.board, *action, spare), ..old(self)@ }));
            },
        }
    }

    /// Gives every held key its turn, in the order in which they went down.
    /// A key that is bound fires its action on every tick that is the
    /// interval of its bind after its last firing, and at once when it has
    /// just gone down; between firings it counts the ticks; one that is not
    /// bound is passed over.
    pub fn tick_input(&mut self)
        requires
            old(self).board.wf(),
        ensures
            exists|pieces: Seq<TetrominoState>|
                pieces.len() == old(self)@.keys.len() && all_fresh(pieces) && final(self)@ == #[trigger] old(
                    self,
                )@.input_ticked(pieces),
            final(self).board.wf(),
    {
        proof {
            TetrominoState::lemma_fresh_exists();
        }
        let ghost spare = choose|piece: TetrominoState| #[trigger] piece.is_fresh();
        let ghost keys = self@.keys;
        let ghost mut pieces: Seq<TetrominoState> = Seq::empty();
        let count = self.key_states.len();
        let mut i: usize = 0;
        proof {
            assert(keys.take(0) =~= Seq::<KeyState>::empty());
        }
        while i < count
            invariant
                i <= count == keys.len(),
                keys == old(self)@.keys,
                spare.is_fresh(),
                self.board.wf(),
                pieces.len() == i,
                all_fresh(pieces),
                self@.board == keys_fired(old(self)@.board, keys.take(i as int), pieces),
                self@.keys.len() == count,
                forall|j: int| 0 <= j < i ==> #[trigger] self@.keys[j] == key_after_tick(keys[j]),
                forall|j: int| i <= j < count ==> #[trigger] self@.keys[j] == keys[j],
                self@ == (GameModel { board: self@.board, keys: self@.keys, ..old(self)@ }),
            decreases count - i,
        {
            let state = self.key_states[i];
            let ghost board_before = self@.board;
            let ghost pieces_before = pieces;
            proof {
                assert(keys.take(i + 1).drop_last() =~= keys.take(i as int));
                assert(keys.take(i + 1).last() == state);
            }
            match find_bind(&state.key) {
                Ok(bind) => {
                    if bind.repeat_every > 0 && state.ticks_since_repeat < bind.repeat_every - 1 {
                        self.key_states[i] = KeyState {
                            key: state.key,
                            ticks_since_repeat: state.ticks_since_repeat + 1,
                        };
                        proof {
                            pieces = pieces.push(spare);
                        }
                    } else {
                        self.key_states[i] = KeyState { key: state.key, ticks_since_repeat: 0 };
                        self.execute_action(&bind.action);
                        proof {
                            let drawn = choose|upcoming: TetrominoState| #[trigger]
                                upcoming.is_fresh() && self@.board == acted(board_before, bind.action, upcoming);
                            pieces = pieces.push(drawn);
                        }
                    }
                },
                Err(_) => {
                    proof {
                        pieces = pieces.push(spare);
                    }
                },
            }
            proof {
                assert(pieces.drop_last() =~= pieces_before);
            }
            i += 1;
        }
        proof {
            assert(keys.take(count as int) =~= keys);
            assert(self@.keys =~= keys.map_values(|state: KeyState| key_after_tick(state)));
            assert(self@ == old(self)@.input_ticked(pieces));
        }
    }

    /// Lets the piece fall if it is time to: a gravity tick where more than
    /// `GRAVITY_EVERY` updates have gone by since the last, and one more
    /// update counted where not.
    pub fn pace_gravity(&mut self)
        requires
            old(self).board.wf(),
        ensures
            exists|upcoming: TetrominoState| #[trigger]
                upcoming.is_fresh() && final(self)@ == old(self)@.paced(upcoming),
            final(self).board.wf(),
    {
        proof {
            TetrominoState::lemma_fresh_exists();
        }
        let ghost spare = choose|piece: TetrominoState| #[trigger] piece.is_fresh();
        if self.ticks_since_gravity > GRAVITY_EVERY {
            self.ticks_since_gravity = 0;
            self.board.gravity();
            let ghost drawn = if old(self)@.board.tick_locks() {
                self@.board.next
            } else {
                spare
            };
            assert(self@ == old(self)@.paced(drawn));
        } else {
            self.ticks_since_gravity += 1;
            assert(self@ == old(self)@.paced(spare));
        }
    }

    /// One update of the game. Outside the pause the held keys have their
    /// turn and gravity has its own. Then the count of blinking updates goes
    /// up; completed rows that the board has listed begin a pause and blink;
    /// and a pause that has lasted `BLINK_TICKS` updates ends with the one
    /// gravity tick that collapses the rows.
    pub fn update(&mut self)
        requires
            old(self).wf(),
        ensures
            exists|pieces: Seq<TetrominoState>|
                pieces.len() == old(self)@.keys.len() + 2 && all_fresh(pieces) && final(self)@ == #[trigger] old(
                    self,
                )@.updated(pieces),
            final(self).wf(),
    {
        proof {
            TetrominoState::lemma_fresh_exists();
        }
        let ghost spare = choose|piece: TetrominoState| #[trigger] piece.is_fresh();
        let ghost count = self@.keys.len() as int;
        let ghost mut for_keys: Seq<TetrominoState> = Seq::new(count as nat, |i: int| spare);
        let ghost mut for_pace: TetrominoState = spare;
        let ghost mut for_resume: TetrominoState = spare;
        if !self.pause {
            self.tick_input();
            proof {
                for_keys = choose|pieces: Seq<TetrominoState>|
                    pieces.len() == count && all_fresh(pieces) && self@ == #[trigger] old(self)@.input_ticked(
                        pieces,
                    );
            }
            let ghost after_keys = self@;
            self.pace_gravity();
            proof {
                for_pace = choose|upcoming: TetrominoState| #[trigger]
                    upcoming.is_fresh() && self@ == after_keys.paced(upcoming);
            }
        }
        let ghost played = self@;
        self.blinking_ticks += 1;
        if self.board.blinking_rows_queue.len() > 0 {
            self.pause = true;
            self.blinking_ticks = 0;
            let mut rows: Vec<u8> = Vec::new();
            std::mem::swap(&mut rows, &mut self.board.blinking_rows_queue);
            self.blinking_rows = rows;
        }
        if self.blinking_ticks % BLINK_TOGGLE == 0 {
            self.blinking_visibility = !self.blinking_visibility;
        }
        let ghost toggled = self@;
        if self.blinking_ticks == BLINK_TICKS {
            self.blinking_ticks = 0;
            self.blinking_rows = Vec::new();
            if self.pause {
                let ghost board_before = self@.board;
                self.board.gravity();
                proof {
                    if board_before.tick_locks() {
                        for_resume = self@.board.next;
                    }
                }
            }
            self.pause = false;
        }
        proof {
            let pieces = for_keys.push(for_pace).push(for_resume);
            assert(pieces.take(count) =~= for_keys);
            assert(pieces[count] == for_pace);
            assert(pieces[count + 1] == for_resume);
            assert(played == old(self)@.played(pieces));
            let counted = GameModel { blinking_ticks: (played.blinking_ticks + 1) as u8, ..played };
            assert(toggled == counted.rows_taken().toggled());
            assert(self@ == toggled.resumed(for_resume));
            assert(self@ == old(self)@.updated(pieces));
        }
    }

    /// Whether the row `row` of the grid is to be drawn: it is not while it
    /// blinks and the blinking rows are hidden.
    pub fn row_is_shown(&self, row: u8) -> (shown: bool)
        ensures
            shown == self@.row_shown(row),
    {
        if self.blinking_visibility {
            return true;
        }
        let mut i: usize = 0;
        while i < self.blinking_rows.len()
            invariant
                i <= self.blinking_rows@.len(),
                !self.blinking_visibility,
                forall|j: int| 0 <= j < i ==> self.blinking_rows@[j] != row,
            decreases self.blinking_rows@.len() - i,
        {
            if self.blinking_rows[i] == row {
                assert(self.blinking_rows@[i as int] == row);
                return false;
            }
            i += 1;
        }
        true
    }
}

} // verus!
