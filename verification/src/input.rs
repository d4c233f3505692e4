//! The keypad: which host keys stand for the sixteen keys of the machine,
//! and how host events change the snapshot of keys that are down.

use vstd::prelude::*;

verus! {

/// The place in the snapshot of the request to quit.
pub const KEY_QUIT: usize = 16;

/// The size of the snapshot: the sixteen keys and the request to quit.
pub const SNAPSHOT_SIZE: usize = 17;

/// A key of the host keyboard, as far as the keypad cares.
#[derive(Clone, Copy, Debug, PartialEq, Eq, Structural)]
pub enum HostKey {
    Num1,
    Num2,
    Num3,
    Num4,
    Q,
    W,
    E,
    R,
    A,
    S,
    D,
    F,
    Z,
    X,
    C,
    V,
    Escape,
    Other,
}

/// An event of the host, as far as the keypad cares.
#[derive(Clone, Copy, Debug, PartialEq, Eq)]
pub enum InputEvent {
    /// The host asks the program to end.
    Quit,
    /// A key went down, or repeats while held.
    KeyDown { key: Option<HostKey>, repeat: bool },
    /// A key went up.
    KeyUp { key: Option<HostKey>, repeat: bool },
    /// Anything else.
    Other,
}

/// The keypad layout: the machine key that a host key stands for.
///
/// ```text
///   1 2 3 4        1 2 3 C
///   Q W E R   for  4 5 6 D
///   A S D F        7 8 9 E
///   Z X C V        A 0 B F
/// ```
pub open spec fn key_of(key: HostKey) -> Option<usize> {
    match key {
        HostKey::Num1 => Some(0x1usize),
        HostKey::Num2 => Some(0x2usize),
        HostKey::Num3 => Some(0x3usize),
        HostKey::Q => Some(0x4usize),
        HostKey::W => Some(0x5usize),
        HostKey::E => Some(0x6usize),
        HostKey::A => Some(0x7usize),
        HostKey::S => Some(0x8usize),
        HostKey::D => Some(0x9usize),
        HostKey::Z => Some(0xAusize),
        HostKey::X => Some(0x0usize),
        HostKey::C => Some(0xBusize),
        HostKey::V => Some(0xFusize),
        HostKey::F => Some(0xEusize),
        HostKey::R => Some(0xDusize),
        HostKey::Num4 => Some(0xCusize),
        HostKey::Escape => None,
        HostKey::Other => None,
    }
}

/// The snapshot with the entry of a host key set to `down`, if the host key
/// stands for a machine key.
pub open spec fn with_host_key(keys: Seq<bool>, key: HostKey, down: bool) -> Seq<bool> {
    match key_of(key) {
        Some(k) => keys.update(k as int, down),
        None => keys,
    }
}

/// The snapshot after one event. A request to quit, and the escape key going
/// down or repeating, raise the quit entry. A keypad key going down or up
/// sets or clears its entry; key repeats are ignored.
pub open spec fn after_event(keys: Seq<bool>, event: InputEvent) -> Seq<bool> {
    match event {
        InputEvent::Quit => keys.update(16, true),
        InputEvent::KeyDown { key: Some(HostKey::Escape), repeat } => keys.update(16, true),
        InputEvent::KeyDown { key: Some(key), repeat: false } => with_host_key(keys, key, true),
        InputEvent::KeyUp { key: Some(key), repeat: false } => with_host_key(keys, key, false),
        _ => keys,
    }
}

/// The snapshot after a run of events, the first event first.
pub open spec fn after_events(keys: Seq<bool>, events: Seq<InputEvent>) -> Seq<bool>
    decreases events.len(),
{
    if events.len() == 0 {
        keys
    } else {
        after_event(after_events(keys, events.drop_last()), events.last())
    }
}

/// The keys that are down, and whether the host has asked to quit.
pub struct Input {
    keys: [bool; SNAPSHOT_SIZE],
}

impl View for Input {
    type V = Seq<bool>;

    closed spec fn view(&self) -> Seq<bool> {
        self.keys@
    }
}

impl Input {
    /// A keypad with no key down and no request to quit.
    pub fn init() -> (input: Input)
        ensures
            input@ == Seq::new(17, |k: int| false),
    {
        let input = Input { keys: [false; SNAPSHOT_SIZE] };
        assert(input@ =~= Seq::new(17, |k: int| false));
        input
    }

    /// The machine key that a host key stands for.
    pub fn get_key(key: HostKey) -> (r: Option<usize>)
        ensures
            r == key_of(key),
            r matches Some(k) ==> k < 16,
    {
        Some(
            match key {
                HostKey::Num1 => 1,
                HostKey::Num2 => 2,
                HostKey::Num3 => 3,
                HostKey::Q => 4,
                HostKey::W => 5,
                HostKey::E => 6,
                HostKey::A => 7,
                HostKey::S => 8,
                HostKey::D => 9,
                HostKey::Z => 0xA,
                HostKey::X => 0,
                HostKey::C => 0xB,
                HostKey::V => 0xF,
                HostKey::F => 0xE,
                HostKey::R => 0xD,
                HostKey::Num4 => 0xC,
                _ => {
                    return None;
                },
            },
        )
    }

    /// Takes one event into the snapshot.
    pub fn handle(&mut self, event: InputEvent)
        ensures
            final(self)@ == after_event(old(self)@, event),
            final(self)@.len() == 17,
    {
        match event {
            InputEvent::Quit => {
                self.keys[KEY_QUIT] = true;
            },
            InputEvent::KeyDown { key: Some(HostKey::Escape), repeat: _ } => {
                self.keys[KEY_QUIT] = true;
            },
            InputEvent::KeyDown { key: Some(key), repeat: false } => {
                if let Some(k) = Input::get_key(key) {
                    self.keys[k] = true;
                }
            },
            InputEvent::KeyUp { key: Some(key), repeat: false } => {
                if let Some(k) = Input::get_key(key) {
                    self.keys[k] = false;
                }
            },
            _ => {},
        }
    }

    /// Takes the events that the host has queued into the snapshot, in
    /// their order, and hands out the snapshot.
    pub fn read(&mut self, events: &[InputEvent]) -> (keys: [bool; SNAPSHOT_SIZE])
        ensures
            final(self)@ == after_events(old(self)@, events@),
            keys@ == final(self)@,
    {
        let mut n: usize = 0;
        while n < events.len()
            invariant
                n <= events@.len(),
                self@ == after_events(old(self)@, events@.subrange(0, n as int)),
            decreases events@.len() - n,
        {
            assert(events@.subrange(0, n + 1).drop_last() =~= events@.subrange(0, n as int));
            self.handle(events[n]);
            n += 1;
        }
        assert(events@.subrange(0, n as int) =~= events@);
        self.keys
    }

    /// The snapshot as it stands.
    pub fn keys(&self) -> (keys: &[bool])
        ensures
            keys@ == self@,
    {
        self.keys.as_slice()
    }
}

} // verus!
