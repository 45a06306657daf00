use vstd::prelude::*;

use crate::lock::Lock;
use crate::model::{pop_rest, pop_result};

verus! {

/// Number of payload slots a stack owns, fixed at construction.
pub const CAPACITY: usize = 100000;

/// A fixed-capacity LIFO stack coordinated by per-slot permission flags and
/// a single reservation counter.
///
/// `reserved` counts the claimed slots and is the sole total-order point:
/// a push claims slot `reserved` and advances the counter, a pop retreats
/// it by one after consuming the top slot's read-permit. Slot `i` holds a
/// committed value exactly when `i < reserved`; its flags then read
/// (write-permit down, read-permit up), and the reverse for a free slot.
pub struct Stack<T> {
    data: Vec<T>,
    reserved: usize,
    safe_to_read: Vec<Lock>,
    safe_to_write: Vec<Lock>,
}

impl<T> View for Stack<T> {
    type V = Seq<T>;

    /// The abstract contents: the committed values, bottom first.
    closed spec fn view(&self) -> Seq<T> {
        self.data@.take(self.reserved as int)
    }
}

impl<T: Copy + Default> Stack<T> {
    /// Whether `slot` currently offers a committed value for consumption:
    /// its read-permit is up.
    pub closed spec fn readable(self, slot: int) -> bool {
        self.safe_to_read@[slot].is_set()
    }

    /// The handshake invariant: every claimed slot is readable and not
    /// writable, every free slot is writable and not readable, and the
    /// counter stays within the storage.
    pub closed spec fn well_formed(self) -> bool {
        &&& self.data.len() == CAPACITY
        &&& self.safe_to_read.len() == CAPACITY
        &&& self.safe_to_write.len() == CAPACITY
        &&& self.reserved <= CAPACITY
        &&& forall|i: int|
            #![trigger self.safe_to_read@[i]]
            #![trigger self.safe_to_write@[i]]
            0 <= i < self.reserved ==> (self.safe_to_read@[i].is_set()
                && !self.safe_to_write@[i].is_set())
        &&& forall|i: int|
            #![trigger self.safe_to_read@[i]]
            #![trigger self.safe_to_write@[i]]
            self.reserved <= i < CAPACITY ==> (!self.safe_to_read@[i].is_set()
                && self.safe_to_write@[i].is_set())
    }

    /// Constructs an empty stack: every slot default-initialized, writable
    /// and not readable, and no slot claimed.
    pub fn new() -> (stack: Stack<T>)
        ensures
            stack.well_formed(),
            stack@ == Seq::<T>::empty(),
    {
        let mut data: Vec<T> = Vec::with_capacity(CAPACITY);
        let mut safe_to_read: Vec<Lock> = Vec::with_capacity(CAPACITY);
        let mut safe_to_write: Vec<Lock> = Vec::with_capacity(CAPACITY);
        for n in 0..CAPACITY
            invariant
                data.len() == n,
                safe_to_read.len() == n,
                safe_to_write.len() == n,
                forall|i: int|
                    #![trigger safe_to_read@[i]]
                    #![trigger safe_to_write@[i]]
                    0 <= i < n ==> (!safe_to_read@[i].is_set() && safe_to_write@[i].is_set()),
        {
            data.push(T::default());
            safe_to_read.push(Lock::new(false));
            safe_to_write.push(Lock::new(true));
        }
        let stack = Stack { data, reserved: 0, safe_to_read, safe_to_write };
        proof {
            assert(stack@ =~= Seq::<T>::empty());
        }
        stack
    }

    /// Pushes `value` as the new top.
    ///
    /// The claim step takes the current counter value as this call's slot
    /// and advances the counter; the slot's write-permit is then consumed,
    /// the value written, and the slot published by raising its read-permit.
    /// A net excess of pushes over pops beyond the capacity is out of scope
    /// and excluded here, not detected.
    pub fn push(&mut self, value: T)
        requires
            old(self).well_formed(),
            old(self)@.len() < CAPACITY,
        ensures
            final(self).well_formed(),
            final(self)@ == old(self)@.push(value),
            final(self).readable(old(self)@.len() as int),
    {
        // Reserve a slot: the only serialization point among pushes.
        let position = self.reserved;
        self.reserved = position + 1;
        // Wait until any previous occupant of the slot has been popped.
        self.safe_to_write[position].wait_for_true();
        // Write the value; the consumed write-permit makes this exclusive.
        self.data.set(position, value);
        // Publish: the slot is now ready for consumption.
        self.safe_to_read[position].set_true();
        proof {
            assert(self@ =~= old(self)@.push(value));
        }
    }

    /// Removes and returns the current top, or reports that the stack is
    /// empty: the result is the last committed value exactly when one
    /// exists, and "no value" exactly when the stack holds nothing.
    ///
    /// The retry loop tolerates losing a race: consuming the top slot's
    /// read-permit and retreating the counter are separate steps, and a
    /// contender that consumed the permit but lost the counter race must
    /// restore the permit and start over.
    #[verifier::loop_isolation(false)]
    pub fn pop(&mut self) -> (popped: Option<T>)
        requires
            old(self).well_formed(),
        ensures
            final(self).well_formed(),
            popped == pop_result(old(self)@),
            final(self)@ == pop_rest(old(self)@),
            popped is None <==> old(self)@.len() == 0,
            old(self)@.len() > 0 ==> !final(self).readable(old(self)@.len() - 1),
    {
        loop
            invariant
                *self == *old(self),
            decreases 0nat,
        {
            let current_position = self.reserved;
            if current_position == 0 {
                return None;
            }
            let read_position = current_position - 1;
            if !self.safe_to_read[read_position].is_true() {
                // The top slot's value is not yet published: retry. With
                // one call running at a time every claimed slot is
                // published, so this arm cannot be taken.
                proof {
                    assert(old(self).safe_to_read@[read_position as int].is_set());
                    assert(false);
                }
                continue;
            }
            // The read-permit is consumed; race the other pops for the
            // counter.
            if self.reserved == current_position {
                self.reserved = read_position;
                // The race is won: this call owns the slot's payload.
                let value = self.get_and_clean(read_position);
                self.safe_to_write[read_position].set_true();
                proof {
                    assert(old(self)@.last() == old(self).data@[read_position as int]);
                    assert(self@ =~= old(self)@.drop_last());
                }
                return Some(value);
            } else {
                // The race is lost: the permit was consumed prematurely and
                // must be restored for the winner. With one call running at
                // a time the counter cannot have moved, so this arm cannot
                // be taken.
                proof {
                    assert(false);
                }
                self.safe_to_read[read_position].set_true();
            }
        }
    }

    /// A slot offers a value exactly when it is claimed: under the
    /// handshake invariant the slots with their read-permit up are
    /// precisely those below the reservation counter.
    pub proof fn lemma_claimed_iff_readable(self, slot: int)
        requires
            self.well_formed(),
            0 <= slot < CAPACITY,
        ensures
            self.readable(slot) <==> slot < self@.len(),
    {
    }

    /// No false-empty: while some slot holds a fully published,
    /// unretrieved value — its read-permit is up — the stack's contents
    /// are non-empty, so by [`Stack::pop`]'s contract a pop returns a
    /// value rather than reporting empty.
    pub proof fn lemma_no_false_empty(self, slot: int)
        requires
            self.well_formed(),
            0 <= slot < CAPACITY,
            self.readable(slot),
        ensures
            self@.len() > 0,
    {
        self.lemma_claimed_iff_readable(slot);
    }

    /// No double-pop: a pop that drained the top slot — any transition
    /// meeting [`Stack::pop`]'s contract on a non-empty stack — leaves
    /// that slot's read-permit down, so a second pop cannot consume the
    /// same claimed slot: by [`Lock::is_true`]'s contract the attempt
    /// fails until a push claims and republishes the slot.
    pub proof fn lemma_no_double_pop(pre: Stack<T>, post: Stack<T>)
        requires
            pre.well_formed(),
            post.well_formed(),
            pre@.len() > 0,
            post@ == pop_rest(pre@),
        ensures
            !post.readable(pre@.len() - 1),
    {
        post.lemma_claimed_iff_readable(pre@.len() - 1);
    }

    /// Reads the payload of a claimed slot. The stale value stays behind:
    /// it is unreachable until a future push reacquires the write-permit.
    fn get_and_clean(&self, index: usize) -> (value: T)
        requires
            index < self.data.len(),
        ensures
            value == self.data@[index as int],
    {
        self.data[index]
    }
}

} // verus!
