use vstd::prelude::*;

verus! {

/// A spin-synchronized binary permission flag.
///
/// One flag gates one kind of access to a single stack slot: a write-permit
/// says the slot may be (re)written, a read-permit says the slot holds a
/// committed value ready for consumption. A transition that would busy-wait
/// until a cooperating call hands the flag over instead requires the flag to
/// already be in the state the wait looks for — the states in which such a
/// spin would never end are exactly the states these contracts exclude — so
/// every admitted call returns.
#[derive(Debug)]
pub struct Lock {
    state: bool,
}

impl Lock {
    /// Whether the flag is currently raised.
    pub closed spec fn is_set(self) -> bool {
        self.state
    }

    /// Constructs a flag with the given initial state.
    pub fn new(state: bool) -> (lock: Lock)
        ensures
            lock.is_set() == state,
    {
        Lock { state }
    }

    /// Acquires the flag: the false -> true transition.
    ///
    /// A caller that holds no evidence the flag is down would spin until a
    /// cooperating call lowers it; that state is excluded here.
    pub fn set_true(&mut self)
        requires
            !old(self).is_set(),
        ensures
            final(self).is_set(),
    {
        self.state = true;
    }

    /// Releases the flag: the true -> false transition, the mirror of
    /// [`Lock::set_true`].
    pub fn set_false(&mut self)
        requires
            old(self).is_set(),
        ensures
            !final(self).is_set(),
    {
        self.state = false;
    }

    /// Attempts a single true -> false transition and reports whether that
    /// attempt obtained the flag.
    ///
    /// Whatever the outcome, the flag is down afterwards: either this call
    /// consumed it, or it was already down and the attempt failed. The
    /// result is the state the flag was found in, so a pop retry loop must
    /// proceed only on `true` — the value was genuinely published — and
    /// retry on `false`.
    pub fn is_true(&mut self) -> (obtained: bool)
        ensures
            obtained == old(self).is_set(),
            !final(self).is_set(),
    {
        let obtained = self.state;
        self.state = false;
        obtained
    }

    /// Waits until the flag is raised, then consumes it: the blocking form
    /// of [`Lock::is_true`]. The state on which the wait would never end is
    /// excluded.
    pub fn wait_for_true(&mut self)
        requires
            old(self).is_set(),
        ensures
            !final(self).is_set(),
    {
        self.state = false;
    }
}

} // verus!
