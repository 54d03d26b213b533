use vstd::prelude::*;

verus! {

/// Remembers that the next word (and possibly the one after it) needs to be
/// capitalized.
///
/// Each slot holds a countdown: 0 means no request, 1 means the request is due
/// at the next query. `pending` moves into `current` once `current` fires.
pub struct Capitalize {
    current: u8,
    pending: u8,
}

/// State of the scheduler after a `signal`.
pub open spec fn signal_spec(s: (u8, u8)) -> (u8, u8) {
    if s.0 == 0 {
        (1, s.1)
    } else {
        (s.0, 1)
    }
}

/// Answer of one query, and the state it leaves behind.
pub open spec fn poll_spec(s: (u8, u8)) -> (bool, (u8, u8)) {
    if s.0 == 1 {
        (true, (s.1, 0))
    } else if s.0 == 0 {
        (false, (0, s.1))
    } else {
        (false, ((s.0 - 1) as u8, s.1))
    }
}

impl View for Capitalize {
    type V = (u8, u8);

    closed spec fn view(&self) -> (u8, u8) {
        (self.current, self.pending)
    }
}

impl Default for Capitalize {
    fn default() -> (r: Self)
        ensures
            r@ == (0u8, 0u8),
    {
        Capitalize { current: 0, pending: 0 }
    }
}

impl Capitalize {
    /// Signals that an upcoming word should be capitalized: the next one if no
    /// request is waiting for it, otherwise the one after.
    pub fn signal(&mut self)
        ensures
            final(self)@ == signal_spec(old(self)@),
    {
        if self.current == 0 {
            self.current = 1;
            return;
        }
        self.pending = 1;
    }

    /// Tells whether the word about to be placed is capitalized.
    /// Must be queried exactly once per word.
    pub fn capitalize(&mut self) -> (r: bool)
        ensures
            (r, final(self)@) == poll_spec(old(self)@),
    {
        if self.current == 1 {
            self.current = self.pending;
            self.pending = 0;
            return true;
        }
        self.current = self.current.saturating_sub(1);
        false
    }
}

} // verus!
