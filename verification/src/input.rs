//! Keys and what they are bound to.
//!
//! A held key repeats its action: it fires on the tick after it went down,
//! and from then on every so many ticks as its bind says, until it is
//! released.

use vstd::prelude::*;

verus! {

/// A button of an input device: a key of the keyboard by its key code, or
/// any other button by a code that tells it from the rest.
#[derive(Clone, Copy, Debug, PartialEq, Eq, Structural)]
pub enum Button {
    Keyboard(u32),
    Other(u32),
}

/// Key code of the key that moves the piece left.
pub const KEY_A: u32 = 0x61;

/// Key code of the key that moves the piece right.
pub const KEY_D: u32 = 0x64;

/// Key code of the key that turns the piece right.
pub const KEY_E: u32 = 0x65;

/// Key code of the key that turns the piece left.
pub const KEY_Q: u32 = 0x71;

/// Key code of the key that drops the piece one row.
pub const KEY_S: u32 = 0x73;

/// Ticks that a key is taken to have counted when it goes down, more than
/// any bind asks for, so that it fires on the next tick.
pub const PRIMED_TICKS: usize = 1000;

/// What happened to a button.
#[derive(Clone, Copy, Debug, PartialEq, Eq, Structural)]
pub enum EventType {
    Press,
    Release,
}

/// What a key can ask of the board.
#[derive(Clone, Copy, Debug, PartialEq, Eq, Structural)]
pub enum BindActions {
    MoveLeft,
    MoveRight,
    MoveDown,
    RotateLeft,
    RotateRight,
}

/// A key, the action it is bound to, and the number of ticks from one
/// firing of a held key to the next.
#[derive(Clone, Copy, Debug, PartialEq, Eq, Structural)]
pub struct BindEntry {
    pub key: Button,
    pub repeat_every: usize,
    pub action: BindActions,
}

/// A key that is down, and the ticks that it has counted since it last
/// fired, the tick of the firing not among them.
#[derive(Clone, Copy, Debug, PartialEq, Eq, Structural)]
pub struct KeyState {
    pub key: Button,
    pub ticks_since_repeat: usize,
}

/// The binds: A and D move the piece left and right every 4 ticks, S drops
/// it every tick, Q and E turn it left and right every 5 ticks.
pub open spec fn spec_binds() -> Seq<BindEntry> {
    seq![
        BindEntry { key: Button::Keyboard(KEY_A), repeat_every: 4, action: BindActions::MoveLeft },
        BindEntry { key: Button::Keyboard(KEY_D), repeat_every: 4, action: BindActions::MoveRight },
        BindEntry { key: Button::Keyboard(KEY_S), repeat_every: 1, action: BindActions::MoveDown },
        BindEntry { key: Button::Keyboard(KEY_Q), repeat_every: 5, action: BindActions::RotateLeft },
        BindEntry { key: Button::Keyboard(KEY_E), repeat_every: 5, action: BindActions::RotateRight },
    ]
}

/// The bind of `key`, `None` for a key that is not bound.
pub open spec fn spec_find_bind(key: Button) -> Option<BindEntry> {
    if key == Button::Keyboard(KEY_A) {
        Some(spec_binds()[0])
    } else if key == Button::Keyboard(KEY_D) {
        Some(spec_binds()[1])
    } else if key == Button::Keyboard(KEY_S) {
        Some(spec_binds()[2])
    } else if key == Button::Keyboard(KEY_Q) {
        Some(spec_binds()[3])
    } else if key == Button::Keyboard(KEY_E) {
        Some(spec_binds()[4])
    } else {
        None
    }
}

/// Whether a held key in state `state` that is bound by `bind` lets this
/// tick pass: it has counted fewer ticks than one short of the interval of
/// its bind. A key that fired counts from 0, so it fires again on the tick
/// that is the interval's number after its last.
pub open spec fn still_waiting(state: KeyState, bind: BindEntry) -> bool {
    bind.repeat_every > 0 && state.ticks_since_repeat < bind.repeat_every - 1
}

/// The action that a key in state `state` fires on this tick, `None` where
/// it fires none: the key is not bound, or has not waited long enough.
pub open spec fn fired_action(state: KeyState) -> Option<BindActions> {
    match spec_find_bind(state.key) {
        Some(bind) => if still_waiting(state, bind) {
            None
        } else {
            Some(bind.action)
        },
        None => None,
    }
}

/// The state of a held key after a tick: a key that is not bound is as
/// before, one that has not waited long enough has counted one tick more,
/// and one that fired counts anew from 0.
pub open spec fn key_after_tick(state: KeyState) -> KeyState {
    match spec_find_bind(state.key) {
        Some(bind) => if still_waiting(state, bind) {
            KeyState { key: state.key, ticks_since_repeat: (state.ticks_since_repeat + 1) as usize }
        } else {
            KeyState { key: state.key, ticks_since_repeat: 0 }
        },
        None => state,
    }
}

/// The state of a held key after `ticks` ticks.
pub open spec fn key_after_ticks(state: KeyState, ticks: nat) -> KeyState
    decreases ticks,
{
    if ticks == 0 {
        state
    } else {
        key_after_tick(key_after_ticks(state, (ticks - 1) as nat))
    }
}

/// The test that a held key passes if it is another key than `key`.
pub open spec fn is_other_than(key: Button) -> spec_fn(KeyState) -> bool {
    |state: KeyState| state.key != key
}

/// The keys that are down after `key` went down or up: pressed, it joins
/// them at the end, primed to fire; released, every entry of it leaves.
pub open spec fn keys_after_event(keys: Seq<KeyState>, key: Button, event_type: EventType) -> Seq<KeyState> {
    match event_type {
        EventType::Press => keys.push(KeyState { key, ticks_since_repeat: PRIMED_TICKS }),
        EventType::Release => keys.filter(is_other_than(key)),
    }
}

/// The binds, in the order in which a key is looked up.
pub fn binds() -> (table: [BindEntry; 5])
    ensures
        table@ == spec_binds(),
{
    let table = [
        BindEntry { key: Button::Keyboard(KEY_A), repeat_every: 4, action: BindActions::MoveLeft },
        BindEntry { key: Button::Keyboard(KEY_D), repeat_every: 4, action: BindActions::MoveRight },
        BindEntry { key: Button::Keyboard(KEY_S), repeat_every: 1, action: BindActions::MoveDown },
        BindEntry { key: Button::Keyboard(KEY_Q), repeat_every: 5, action: BindActions::RotateLeft },
        BindEntry { key: Button::Keyboard(KEY_E), repeat_every: 5, action: BindActions::RotateRight },
    ];
    assert(table@ =~= spec_binds());
    table
}

/// The bind of `key`: the first entry of the table for that key, `Err` for a
/// key that is not bound.
pub fn find_bind(key: &Button) -> (res: Result<BindEntry, ()>)
    ensures
        res is Ok <==> spec_find_bind(*key) is Some,
        res is Ok ==> Some(res->Ok_0) == spec_find_bind(*key),
{
    let table = binds();
    let mut i: usize = 0;
    while i < 5
        invariant
            i <= 5,
            table@ == spec_binds(),
            forall|j: int| 0 <= j < i ==> (#[trigger] spec_binds()[j]).key != *key,
        decreases 5 - i,
    {
        if table[i].key == *key {
            return Ok(table[i]);
        }
        i += 1;
    }
    assert(spec_binds()[0].key != *key);
    assert(spec_binds()[1].key != *key);
    assert(spec_binds()[2].key != *key);
    assert(spec_binds()[3].key != *key);
    assert(spec_binds()[4].key != *key);
    Err(())
}

/// Takes every entry of `key` out of `keys`, keeping the others in order.
pub fn release_key(keys: &mut Vec<KeyState>, key: Button)
    ensures
        final(keys)@ == old(keys)@.filter(is_other_than(key)),
{
    let ghost pred = is_other_than(key);
    let mut kept: Vec<KeyState> = Vec::new();
    let mut i: usize = 0;
    proof {
        reveal(Seq::filter);
        assert(keys@.take(0) =~= Seq::<KeyState>::empty());
    }
    while i < keys.len()
        invariant
            i <= keys@.len(),
            keys@ == old(keys)@,
            pred == is_other_than(key),
            kept@ == keys@.take(i as int).filter(pred),
        decreases keys@.len() - i,
    {
        if keys[i].key != key {
            kept.push(keys[i]);
        }
        proof {
            reveal(Seq::filter);
            assert(keys@.take(i + 1).drop_last() =~= keys@.take(i as int));
            assert(keys@.take(i + 1).last() == keys@[i as int]);
        }
        i += 1;
    }
    proof {
        assert(keys@.take(keys@.len() as int) =~= keys@);
    }
    *keys = kept;
}

} // verus!
