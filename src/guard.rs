//! The terminal-mode guard: it records whether the terminal is in raw mode
//! and makes sure that the mode is restored, and the screen cleared, once
//! and only once, whichever way the session ends.

use vstd::prelude::*;

verus! {

/// The terminal's input mode as far as the session has changed it.
#[derive(Debug, Clone, Copy, PartialEq, Eq, Structural)]
pub enum Mode {
    /// Raw mode was never entered.
    Cooked,
    /// Raw mode was entered and not yet left.
    Raw,
    /// Raw mode was left: the terminal is restored for good.
    Restored,
}

/// The mode after a request to enter raw mode, and whether the terminal
/// must be switched to it now.
pub open spec fn enter_step(m: Mode) -> (Mode, bool) {
    if m == Mode::Cooked {
        (Mode::Raw, true)
    } else {
        (m, false)
    }
}

/// The mode after a request to restore the terminal, and whether the
/// teardown (leave raw mode, clear the screen, cursor home) must run now.
pub open spec fn release_step(m: Mode) -> (Mode, bool) {
    if m == Mode::Raw {
        (Mode::Restored, true)
    } else {
        (m, false)
    }
}

/// How many of `n` requests to restore the terminal in a row, made from
/// mode `m`, run the teardown.
pub open spec fn teardowns(m: Mode, n: nat) -> nat
    decreases n,
{
    if n == 0 {
        0
    } else {
        let (next, fire) = release_step(m);
        (if fire {
            1nat
        } else {
            0nat
        }) + teardowns(next, (n - 1) as nat)
    }
}

#[derive(Debug)]
pub struct ModeGuard {
    pub mode: Mode,
}

impl ModeGuard {
    /// A guard for a terminal that has not left its usual mode.
    pub fn new() -> (r: ModeGuard)
        ensures
            r.mode == Mode::Cooked,
    {
        ModeGuard { mode: Mode::Cooked }
    }

    /// Records the entry into raw mode; returns whether the caller must
    /// switch the terminal to raw mode now. Only the first request does so,
    /// and none after the terminal was restored.
    pub fn enter(&mut self) -> (r: bool)
        ensures
            (final(self).mode, r) == enter_step(old(self).mode),
    {
        if self.mode == Mode::Cooked {
            self.mode = Mode::Raw;
            true
        } else {
            false
        }
    }

    /// Records the restoration of the terminal; returns whether the caller
    /// must run the teardown now, which is so once, on the first request
    /// after raw mode was entered.
    pub fn release(&mut self) -> (r: bool)
        ensures
            (final(self).mode, r) == release_step(old(self).mode),
    {
        if self.mode == Mode::Raw {
            self.mode = Mode::Restored;
            true
        } else {
            false
        }
    }
}

/// Once raw mode has been entered, the teardown runs exactly once, however
/// many requests to restore the terminal the ways out of the session make
/// (the stop key, an error, the end of the guard's scope), as long as there
/// is one.
pub proof fn lemma_teardown_once(n: nat)
    requires
        n >= 1,
    ensures
        teardowns(Mode::Raw, n) == 1,
{
    lemma_restored_stays(Mode::Restored, (n - 1) as nat);
}

/// From a terminal that is not in raw mode, no request runs the teardown.
pub proof fn lemma_restored_stays(m: Mode, n: nat)
    requires
        m != Mode::Raw,
    ensures
        teardowns(m, n) == 0,
    decreases n,
{
    if n > 0 {
        lemma_restored_stays(m, (n - 1) as nat);
    }
}

} // verus!
