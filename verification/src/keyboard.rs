use vstd::prelude::*;
use crate::fault::FaultKind;

verus! {

/// The model of a [`Keyboard`].
#[verifier::ext_equal]
pub struct KeyboardView {
    /// For each of the 16 keys, whether it is down.
    pub keypad: Seq<bool>,
    /// The keys that went down and that no key wait has taken yet, oldest
    /// first.
    pub pending: Seq<u8>,
}

impl KeyboardView {
    /// Sixteen keys, and only keys of the pad among the pending ones.
    pub open spec fn wf(self) -> bool {
        &&& self.keypad.len() == 16
        &&& forall|i: int| 0 <= i < self.pending.len() ==> #[trigger] self.pending[i] < 16
    }

    /// All keys up, nothing pending.
    pub open spec fn idle() -> KeyboardView {
        KeyboardView { keypad: Seq::new(16, |i: int| false), pending: Seq::empty() }
    }

    /// The keyboard after the host reports that `key` is down. A key that
    /// goes down is marked and queued; one that is down already changes
    /// nothing, and neither does a key outside the pad.
    pub open spec fn press(self, key: u8) -> KeyboardView {
        if key < 16 && !self.keypad[key as int] {
            KeyboardView {
                keypad: self.keypad.update(key as int, true),
                pending: self.pending.push(key),
            }
        } else {
            self
        }
    }

    /// The keyboard after the host reports that `key` is up.
    pub open spec fn release(self, key: u8) -> KeyboardView {
        if key < 16 {
            KeyboardView { keypad: self.keypad.update(key as int, false), ..self }
        } else {
            self
        }
    }

    /// The keyboard without its oldest pending key.
    pub open spec fn taken(self) -> KeyboardView {
        if self.pending.len() > 0 {
            KeyboardView { pending: self.pending.drop_first(), ..self }
        } else {
            self
        }
    }

    /// The keyboard with nothing pending.
    pub open spec fn drained(self) -> KeyboardView {
        KeyboardView { pending: Seq::empty(), ..self }
    }
}

/// The 16-key pad: which keys are down, and the queue of keys that went
/// down.
#[derive(Debug)]
pub struct Keyboard {
    pub keypad: [bool; 16],
    pub pending: Vec<u8>,
}

impl View for Keyboard {
    type V = KeyboardView;

    open spec fn view(&self) -> KeyboardView {
        KeyboardView { keypad: self.keypad@, pending: self.pending@ }
    }
}

impl Keyboard {
    /// A keyboard with all keys up and nothing pending.
    pub fn new() -> (r: Keyboard)
        ensures
            r@ == KeyboardView::idle(),
            r@.wf(),
    {
        let r = Keyboard { keypad: [false; 16], pending: Vec::new() };
        assert(r@ =~= KeyboardView::idle());
        r
    }

    /// The host reports that `key` is down. A key outside the pad is
    /// rejected with a memory fault, and nothing changes.
    pub fn press_key(&mut self, key: u8) -> (r: Result<(), FaultKind>)
        ensures
            final(self)@ == old(self)@.press(key),
            r == if key < 16 {
                Ok::<(), FaultKind>(())
            } else {
                Err::<(), FaultKind>(FaultKind::MemoryFault)
            },
            old(self)@.wf() ==> final(self)@.wf(),
    {
        if key >= 16 {
            return Err(FaultKind::MemoryFault);
        }
        if !self.keypad[key as usize] {
            self.keypad[key as usize] = true;
            self.pending.push(key);
        }
        assert(self@ =~= old(self)@.press(key));
        Ok(())
    }

    /// The host reports that `key` is up. A key outside the pad is rejected
    /// with a memory fault, and nothing changes.
    pub fn release_key(&mut self, key: u8) -> (r: Result<(), FaultKind>)
        ensures
            final(self)@ == old(self)@.release(key),
            r == if key < 16 {
                Ok::<(), FaultKind>(())
            } else {
                Err::<(), FaultKind>(FaultKind::MemoryFault)
            },
            old(self)@.wf() ==> final(self)@.wf(),
    {
        if key >= 16 {
            return Err(FaultKind::MemoryFault);
        }
        self.keypad[key as usize] = false;
        assert(self@ =~= old(self)@.release(key));
        Ok(())
    }

    /// Takes the oldest key that went down and was not taken yet; `None`
    /// where there is none, which is when a key wait stays blocked.
    pub fn wait_for_keypress(&mut self) -> (r: Option<u8>)
        ensures
            final(self)@ == old(self)@.taken(),
            r == if old(self)@.pending.len() > 0 {
                Some(old(self)@.pending[0])
            } else {
                None
            },
            old(self)@.wf() ==> final(self)@.wf(),
    {
        if self.pending.len() == 0 {
            return None;
        }
        let key = self.pending.remove(0);
        assert(self@ =~= old(self)@.taken());
        Some(key)
    }

    /// Forgets the keys that went down before now.
    pub fn discard_pending(&mut self)
        ensures
            final(self)@ == old(self)@.drained(),
            final(self)@.wf() == (old(self)@.keypad.len() == 16),
    {
        self.pending.clear();
        assert(self@ =~= old(self)@.drained());
    }
}

impl Default for Keyboard {
    /// A keyboard with all keys up and nothing pending.
    fn default() -> (r: Keyboard)
        ensures
            r@ == KeyboardView::idle(),
            r@.wf(),
    {
        Keyboard::new()
    }
}

} // verus!
