//! The quit guard of the console shell: quitting takes several quick key
//! presses, so a stray keystroke cannot end the session. Presses count only
//! while they stay within a fixed window of the previous one; a pause resets
//! the count.

use vstd::prelude::*;

verus! {

/// How many presses within the window quit the console.
pub const QUIT_PRESS_TARGET: u64 = 4;

/// How many milliseconds may pass between presses before the count resets.
pub const QUIT_WINDOW_MILLIS: u64 = 2000;

/// The window between two presses has expired.
pub open spec fn window_expired(last_ms: u64, now_ms: u64) -> bool {
    now_ms > last_ms && now_ms - last_ms > QUIT_WINDOW_MILLIS
}

/// Counts quick consecutive quit presses.
pub struct QuitCounter {
    count: u64,
    last_press_ms: u64,
}

impl QuitCounter {
    /// How many presses count so far.
    pub closed spec fn count(&self) -> u64 {
        self.count
    }

    /// When the last press happened.
    pub closed spec fn last_press_ms(&self) -> u64 {
        self.last_press_ms
    }

    /// A fresh counter at the given clock reading.
    pub fn new(start_ms: u64) -> (r: QuitCounter)
        ensures
            r.count() == 0,
            r.last_press_ms() == start_ms,
    {
        QuitCounter { count: 0, last_press_ms: start_ms }
    }

    /// Registers one press at the given clock reading; true means enough
    /// quick presses have gathered and the console quits. A press after the
    /// window starts a fresh count; the count never grows past the target.
    pub fn press(&mut self, now_ms: u64) -> (r: bool)
        ensures
            final(self).last_press_ms() == now_ms,
            final(self).count() == (if window_expired(old(self).last_press_ms(), now_ms) {
                1u64
            } else if old(self).count() < QUIT_PRESS_TARGET {
                (old(self).count() + 1) as u64
            } else {
                old(self).count()
            }),
            r == (final(self).count() >= QUIT_PRESS_TARGET),
    {
        if now_ms > self.last_press_ms && now_ms - self.last_press_ms > QUIT_WINDOW_MILLIS {
            self.count = 0;
        }
        self.last_press_ms = now_ms;
        if self.count < QUIT_PRESS_TARGET {
            self.count = self.count + 1;
        }
        self.count >= QUIT_PRESS_TARGET
    }
}

} // verus!
