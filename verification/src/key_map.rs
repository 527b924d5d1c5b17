//! A map of keys, for a driver who steers with the keyboard alone: which
//! keys are down, and which have just gone down or come up.

use std::collections::HashMap;
use vstd::prelude::*;
use crate::input::{Button, Key};

verus! {

broadcast use vstd::std_specs::hash::group_hash_axioms;

/// How a key stands. `WasUp` is a key that has just gone down, `WasDown`
/// one that has just come up.
#[derive(Clone, Copy, Debug, PartialEq, Eq, Structural)]
pub enum KeyState {
    Up,
    Down,
    WasUp,
    WasDown,
}

/// The keys that steer.
#[derive(Clone, Copy, Debug, PartialEq, Eq, Structural, Hash)]
pub enum KeyCode {
    W,
    A,
    S,
    D,
    Space,
    Shift,
}

/// The steering key that a key of the keyboard stands for, if any: the
/// letters and the arrows alike.
pub open spec fn key_code(key: Key) -> Option<KeyCode> {
    match key {
        Key::W | Key::Up => Some(KeyCode::W),
        Key::A | Key::Left => Some(KeyCode::A),
        Key::S | Key::Down => Some(KeyCode::S),
        Key::D | Key::Right => Some(KeyCode::D),
        Key::Space => Some(KeyCode::Space),
        Key::LShift => Some(KeyCode::Shift),
        _ => None,
    }
}

/// The steering key that a controller button stands for, if any.
pub open spec fn button_code(button: Button) -> Option<KeyCode> {
    match button {
        Button::RightShoulder => Some(KeyCode::Space),
        _ => None,
    }
}

impl KeyCode {
    /// The steering key that a key of the keyboard stands for, if any.
    pub fn from_key(key: Key) -> (code: Option<KeyCode>)
        ensures
            code == key_code(key),
    {
        match key {
            Key::W | Key::Up => Some(KeyCode::W),
            Key::A | Key::Left => Some(KeyCode::A),
            Key::S | Key::Down => Some(KeyCode::S),
            Key::D | Key::Right => Some(KeyCode::D),
            Key::Space => Some(KeyCode::Space),
            Key::LShift => Some(KeyCode::Shift),
            _ => None,
        }
    }

    /// The steering key that a controller button stands for, if any.
    pub fn from_button(button: Button) -> (code: Option<KeyCode>)
        ensures
            code == button_code(button),
    {
        match button {
            Button::RightShoulder => Some(KeyCode::Space),
            _ => None,
        }
    }
}

/// The number under which a key is filed.
pub open spec fn slot_of(key: KeyCode) -> u64 {
    match key {
        KeyCode::W => 0,
        KeyCode::A => 1,
        KeyCode::S => 2,
        KeyCode::D => 3,
        KeyCode::Space => 4,
        KeyCode::Shift => 5,
    }
}

fn slot(key: &KeyCode) -> (out: u64)
    ensures
        out == slot_of(*key),
{
    match key {
        KeyCode::W => 0,
        KeyCode::A => 1,
        KeyCode::S => 2,
        KeyCode::D => 3,
        KeyCode::Space => 4,
        KeyCode::Shift => 5,
    }
}

/// What is known of each key.
pub struct KeyMap {
    slots: HashMap<u64, KeyState>,
}

impl View for KeyMap {
    type V = Map<KeyCode, KeyState>;

    closed spec fn view(&self) -> Map<KeyCode, KeyState> {
        Map::new(
            |key: KeyCode| self.slots@.contains_key(slot_of(key)),
            |key: KeyCode| self.slots@[slot_of(key)],
        )
    }
}

/// What a map knows of a key.
pub open spec fn known(keys: Map<KeyCode, KeyState>, key: KeyCode) -> Option<KeyState> {
    if keys.contains_key(key) {
        Some(keys[key])
    } else {
        None
    }
}

/// A key's state once its edge is settled: a key that was down or has just
/// gone down is down, any other is up.
pub open spec fn settled(state: Option<KeyState>) -> KeyState {
    match state {
        Some(KeyState::WasUp) | Some(KeyState::Down) => KeyState::Down,
        _ => KeyState::Up,
    }
}

impl KeyMap {
    /// A map that knows of no key.
    pub fn new() -> (map: KeyMap)
        ensures
            map@ == Map::<KeyCode, KeyState>::empty(),
    {
        let map = KeyMap { slots: HashMap::new() };
        assert(map@ =~= Map::<KeyCode, KeyState>::empty());
        map
    }

    /// What is known of `key`.
    pub fn get(&self, key: &KeyCode) -> (state: Option<&KeyState>)
        ensures
            match state {
                Some(found) => known(self@, *key) == Some(*found),
                None => known(self@, *key).is_none(),
            },
    {
        let filed = slot(key);
        self.slots.get(&filed)
    }

    /// Notes `state` of `key` and returns what was known before.
    pub fn insert(&mut self, key: KeyCode, state: KeyState) -> (before: Option<KeyState>)
        ensures
            final(self)@ == old(self)@.insert(key, state),
            before == known(old(self)@, key),
    {
        let before = self.slots.insert(slot(&key), state);
        assert(final(self)@ =~= old(self)@.insert(key, state));
        before
    }
}

/// Whether `key` is down.
pub fn key_down(key_map: &KeyMap, key: &KeyCode) -> (down: bool)
    ensures
        down == (known(key_map@, *key) == Some(KeyState::WasUp) || known(key_map@, *key) == Some(
            KeyState::Down,
        )),
{
    match key_map.get(key) {
        Some(KeyState::WasUp) | Some(KeyState::Down) => true,
        _ => false,
    }
}

/// Whether `key` has gone down or come up since its edge was last settled.
pub fn key_changed(key_map: &KeyMap, key: &KeyCode) -> (changed: bool)
    ensures
        changed == (known(key_map@, *key) == Some(KeyState::WasUp) || known(key_map@, *key)
            == Some(KeyState::WasDown)),
{
    match key_map.get(key) {
        Some(KeyState::WasUp) | Some(KeyState::WasDown) => true,
        _ => false,
    }
}

/// Settles the edge of `key`: afterwards it is down or up and no longer
/// changed.
pub fn change_key(key_map: &mut KeyMap, key: KeyCode)
    ensures
        final(key_map)@ == old(key_map)@.insert(key, settled(known(old(key_map)@, key))),
{
    let state = match key_map.get(&key) {
        Some(KeyState::WasUp) | Some(KeyState::Down) => KeyState::Down,
        _ => KeyState::Up,
    };
    key_map.insert(key, state);
}

} // verus!
