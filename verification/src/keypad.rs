//! The sixteen-key hex keypad: which keys are held, the most recent key-down
//! edge, and the layout that maps host keys onto hex keys.
use vstd::prelude::*;

verus! {

/// A key of the host keyboard, as far as the keypad layout tells keys apart.
#[derive(Clone, Copy, Debug, PartialEq, Eq)]
pub enum HostKey {
    Num1,
    Num2,
    Num3,
    Num4,
    Q,
    W,
    E,
    R,
    A,
    S,
    D,
    F,
    Z,
    X,
    C,
    V,
    Escape,
    /// Any key that the layout does not use.
    Other,
}

/// One event of the host's event queue.
#[derive(Clone, Copy, Debug, PartialEq, Eq)]
pub enum HostEvent {
    /// The host asks the interpreter to shut down.
    Quit,
    KeyDown(HostKey),
    KeyUp(HostKey),
    /// Any event that the interpreter does not react to.
    Other,
}

/// What a batch of host events amounted to.
#[derive(Clone, Copy, Debug, PartialEq, Eq)]
pub enum Polled {
    /// The batch held a quit request; the events behind it were not looked at.
    Quit,
    /// The hex key of the last key-down event in the batch.
    Pressed(u8),
    /// The batch held no key-down event of a mapped key.
    Idle,
}

impl HostKey {
    /// The keypad layout:
    ///
    /// ```text
    /// 1 2 3 4        1 2 3 C
    /// Q W E R   ->   4 5 6 D
    /// A S D F        7 8 9 E
    /// Z X C V        A 0 B F
    /// ```
    pub open spec fn hex_spec(self) -> Option<u8> {
        match self {
            HostKey::Num1 => Some(0x1u8),
            HostKey::Num2 => Some(0x2u8),
            HostKey::Num3 => Some(0x3u8),
            HostKey::Num4 => Some(0xCu8),
            HostKey::Q => Some(0x4u8),
            HostKey::W => Some(0x5u8),
            HostKey::E => Some(0x6u8),
            HostKey::R => Some(0xDu8),
            HostKey::A => Some(0x7u8),
            HostKey::S => Some(0x8u8),
            HostKey::D => Some(0x9u8),
            HostKey::F => Some(0xEu8),
            HostKey::Z => Some(0xAu8),
            HostKey::X => Some(0x0u8),
            HostKey::C => Some(0xBu8),
            HostKey::V => Some(0xFu8),
            HostKey::Escape => None,
            HostKey::Other => None,
        }
    }

    /// The hex key that this host key stands for, if the layout uses it.
    #[verifier::when_used_as_spec(hex_spec)]
    pub fn hex(self) -> (key: Option<u8>)
        ensures
            key == self.hex_spec(),
            key matches Some(k) ==> k < 16,
    {
        match self {
            HostKey::Num1 => Some(0x1),
            HostKey::Num2 => Some(0x2),
            HostKey::Num3 => Some(0x3),
            HostKey::Num4 => Some(0xC),
            HostKey::Q => Some(0x4),
            HostKey::W => Some(0x5),
            HostKey::E => Some(0x6),
            HostKey::R => Some(0xD),
            HostKey::A => Some(0x7),
            HostKey::S => Some(0x8),
            HostKey::D => Some(0x9),
            HostKey::F => Some(0xE),
            HostKey::Z => Some(0xA),
            HostKey::X => Some(0x0),
            HostKey::C => Some(0xB),
            HostKey::V => Some(0xF),
            HostKey::Escape => None,
            HostKey::Other => None,
        }
    }
}

impl HostEvent {
    /// A quit request: the host's own, or the escape key going down.
    pub open spec fn is_quit(self) -> bool {
        self == HostEvent::Quit || self == HostEvent::KeyDown(HostKey::Escape)
    }

    /// The hex key that this event pressed, if it is a key-down of a mapped key.
    pub open spec fn pressed(self) -> Option<u8> {
        match self {
            HostEvent::KeyDown(key) => key.hex_spec(),
            _ => None,
        }
    }
}

/// The keypad as contracts see it.
pub struct KeypadModel {
    /// The hex keys that are held down.
    pub held: Set<u8>,
    /// The most recent key-down edge that no wait-for-key has taken yet.
    pub edge: Option<u8>,
}

impl KeypadModel {
    /// Only hex keys `0x0..=0xF` occur.
    pub open spec fn wf(self) -> bool {
        &&& forall|k: u8| self.held.contains(k) ==> k < 16
        &&& self.edge matches Some(k) ==> k < 16
    }

    /// No key held, no edge waiting.
    pub open spec fn idle() -> KeypadModel {
        KeypadModel { held: Set::empty(), edge: None }
    }

    /// Key `k` goes down. A key that was up leaves an edge; a key that was
    /// already held (a host key repeat) does not. Values above `0xF` are ignored.
    pub open spec fn key_down(self, k: u8) -> KeypadModel {
        if k >= 16 {
            self
        } else if self.held.contains(k) {
            self
        } else {
            KeypadModel { held: self.held.insert(k), edge: Some(k) }
        }
    }

    /// Key `k` goes up. Releasing a key that is not held changes nothing, and
    /// an edge that is waiting stays.
    pub open spec fn key_up(self, k: u8) -> KeypadModel {
        KeypadModel { held: self.held.remove(k), edge: self.edge }
    }

    /// The edge slot emptied, as the wait-for-key instruction leaves it.
    pub open spec fn consume_edge(self) -> KeypadModel {
        KeypadModel { held: self.held, edge: None }
    }

    /// The effect of one host event that is no quit request. Keys that the
    /// layout does not use, and events of other kinds, are ignored.
    pub open spec fn ingest(self, event: HostEvent) -> KeypadModel {
        match event {
            HostEvent::KeyDown(key) => match key.hex_spec() {
                Some(k) => self.key_down(k),
                None => self,
            },
            HostEvent::KeyUp(key) => match key.hex_spec() {
                Some(k) => self.key_up(k),
                None => self,
            },
            _ => self,
        }
    }

    /// The effect of a batch of host events, taken in order, with `last` the
    /// key pressed last so far. The batch ends at its first quit request.
    pub open spec fn poll(self, last: Option<u8>, events: Seq<HostEvent>) -> (KeypadModel, Polled)
        decreases events.len(),
    {
        if events.len() == 0 {
            (
                self,
                match last {
                    Some(k) => Polled::Pressed(k),
                    None => Polled::Idle,
                },
            )
        } else if events[0].is_quit() {
            (self, Polled::Quit)
        } else {
            let now = match events[0].pressed() {
                Some(k) => Some(k),
                None => last,
            };
            self.ingest(events[0]).poll(now, events.drop_first())
        }
    }
}

/// The keypad: a 16-bit mask of the keys that are held, bit `k` for hex key
/// `k`, and a single slot for the most recent key-down edge.
pub struct Keypad {
    held: u16,
    edge: Option<u8>,
}

/// Bit `k` of `mask`.
pub open spec fn mask_has(mask: u16, k: u8) -> bool {
    (mask >> k) & 1 == 1
}

proof fn lemma_mask_set(mask: u16, k: u8, j: u8)
    by (bit_vector)
    requires
        k < 16,
        j < 16,
    ensures
        mask_has(mask | (1u16 << k), j) == (j == k || mask_has(mask, j)),
{
}

proof fn lemma_mask_clear(mask: u16, k: u8, j: u8)
    by (bit_vector)
    requires
        k < 16,
        j < 16,
    ensures
        mask_has(mask & !(1u16 << k), j) == (j != k && mask_has(mask, j)),
{
}

proof fn lemma_mask_zero(j: u8)
    by (bit_vector)
    requires
        j < 16,
    ensures
        !mask_has(0u16, j),
{
}

impl View for Keypad {
    type V = KeypadModel;

    closed spec fn view(&self) -> KeypadModel {
        KeypadModel {
            held: Set::new(|k: u8| k < 16 && mask_has(self.held, k)),
            edge: self.edge,
        }
    }
}

impl Keypad {
    /// A keypad with no key held and no edge waiting.
    pub fn new() -> (pad: Keypad)
        ensures
            pad@ == KeypadModel::idle(),
            pad@.wf(),
    {
        let pad = Keypad { held: 0, edge: None };
        proof {
            assert forall|k: u8| !(k < 16 && mask_has(0u16, k)) by {
                if k < 16 {
                    lemma_mask_zero(k);
                }
            }
            assert(pad@.held =~= Set::<u8>::empty());
        }
        pad
    }

    /// Whether hex key `k` is held. Values above `0xF` are never held.
    pub fn is_held(&self, k: u8) -> (held: bool)
        ensures
            held == self@.held.contains(k),
    {
        k < 16 && (self.held >> k) & 1 == 1
    }

    /// The key-down edge that is waiting, if any.
    pub fn edge(&self) -> (edge: Option<u8>)
        ensures
            edge == self@.edge,
    {
        self.edge
    }

    /// Records that hex key `k` went down.
    pub fn key_down(&mut self, k: u8)
        requires
            old(self)@.wf(),
        ensures
            final(self)@ == old(self)@.key_down(k),
            final(self)@.wf(),
    {
        if k < 16 && (self.held >> k) & 1 == 0 {
            let ghost before = self.held;
            self.held = self.held | (1u16 << k);
            self.edge = Some(k);
            proof {
                assert((before >> k) & 1 == 0 ==> !mask_has(before, k)) by (bit_vector);
                assert forall|j: u8|
                    (j < 16 && mask_has(self.held, j)) == (j == k || (j < 16 && mask_has(
                        before,
                        j,
                    ))) by {
                    if j < 16 {
                        lemma_mask_set(before, k, j);
                    }
                }
                assert(self@.held =~= old(self)@.held.insert(k));
            }
        } else {
            proof {
                if k < 16 {
                    let m = self.held;
                    assert((m >> k) & 1 != 0 ==> mask_has(m, k)) by (bit_vector);
                }
            }
        }
    }

    /// Records that hex key `k` went up.
    pub fn key_up(&mut self, k: u8)
        requires
            old(self)@.wf(),
        ensures
            final(self)@ == old(self)@.key_up(k),
            final(self)@.wf(),
    {
        if k < 16 {
            let ghost before = self.held;
            self.held = self.held & !(1u16 << k);
            proof {
                assert forall|j: u8|
                    (j < 16 && mask_has(self.held, j)) == (j != k && (j < 16 && mask_has(
                        before,
                        j,
                    ))) by {
                    if j < 16 {
                        lemma_mask_clear(before, k, j);
                    }
                }
                assert(self@.held =~= old(self)@.held.remove(k));
            }
        } else {
            proof {
                assert(self@.held =~= old(self)@.held.remove(k));
            }
        }
    }

    /// Takes the waiting key-down edge, leaving the slot empty.
    pub fn take_edge(&mut self) -> (edge: Option<u8>)
        requires
            old(self)@.wf(),
        ensures
            edge == old(self)@.edge,
            final(self)@ == old(self)@.consume_edge(),
            final(self)@.wf(),
    {
        let edge = self.edge;
        self.edge = None;
        edge
    }

    /// Feeds one host event that is no quit request into the keypad.
    pub fn ingest(&mut self, event: HostEvent)
        requires
            old(self)@.wf(),
        ensures
            final(self)@ == old(self)@.ingest(event),
            final(self)@.wf(),
    {
        match event {
            HostEvent::KeyDown(key) => {
                if let Some(k) = key.hex() {
                    self.key_down(k);
                }
            },
            HostEvent::KeyUp(key) => {
                if let Some(k) = key.hex() {
                    self.key_up(k);
                }
            },
            _ => {},
        }
    }

    /// Feeds a batch of host events into the keypad, in order, up to the first
    /// quit request, and reports the quit request or the key pressed last.
    pub fn poll_input(&mut self, events: &Vec<HostEvent>) -> (polled: Polled)
        requires
            old(self)@.wf(),
        ensures
            (final(self)@, polled) == old(self)@.poll(None, events@),
            final(self)@.wf(),
    {
        let mut last_pressed: Option<u8> = None;
        let mut at: usize = 0;
        proof {
            assert(events@.skip(0) =~= events@);
        }
        while at < events.len()
            invariant
                at <= events.len(),
                self@.wf(),
                old(self)@.poll(None, events@) == self@.poll(last_pressed, events@.skip(at as int)),
            decreases events.len() - at,
        {
            let event = events[at];
            proof {
                let rest = events@.skip(at as int);
                assert(rest.drop_first() =~= events@.skip(at as int + 1));
            }
            match event {
                HostEvent::Quit => {
                    return Polled::Quit;
                },
                HostEvent::KeyDown(HostKey::Escape) => {
                    return Polled::Quit;
                },
                HostEvent::KeyDown(key) => {
                    if let Some(k) = key.hex() {
                        last_pressed = Some(k);
                    }
                },
                _ => {},
            }
            self.ingest(event);
            at += 1;
        }
        match last_pressed {
            Some(k) => Polled::Pressed(k),
            None => Polled::Idle,
        }
    }
}

} // verus!
