//! Owner table behind the opaque handles that cross the boundary.
//!
//! A created object lives in a slot of its store and is named by the handle
//! `slot index + 1`, so `0` never names an object. A released slot is
//! retired, never reused: a handle that was released once can never reach a
//! later object, whatever the caller does with it afterwards.

use vstd::prelude::*;

verus! {

/// A table of owned objects, each reachable through the non-zero handle that
/// its creation returned, until that handle is released.
pub struct HandleStore<T> {
    slots: Vec<Option<T>>,
}

impl<T> HandleStore<T> {
    /// True when `h` names an object that was created and not yet released.
    pub closed spec fn live(self, h: u64) -> bool {
        &&& 1 <= h
        &&& h <= self.slots@.len()
        &&& self.slots@[h as int - 1] is Some
    }

    /// The object that `h` names.
    pub closed spec fn item(self, h: u64) -> T
        recommends
            self.live(h),
    {
        self.slots@[h as int - 1]->0
    }

    /// How many handles this store has ever issued. Handles are the
    /// integers `1 ..= issued()`, in order of creation.
    pub closed spec fn issued(self) -> int {
        self.slots@.len() as int
    }

    /// The reserved handle `0` never names an object, in any store.
    pub proof fn lemma_null_never_live(self)
        ensures
            !self.live(0),
    {
    }

    /// Only issued handles are ever live.
    pub proof fn lemma_live_is_issued(self, h: u64)
        requires
            self.live(h),
        ensures
            1 <= h as int <= self.issued(),
    {
    }

    /// An empty store: no handle is live.
    pub fn new() -> (s: Self)
        ensures
            forall|h: u64| !s.live(h),
    {
        HandleStore { slots: Vec::new() }
    }

    /// Takes ownership of `value` and returns the fresh handle that names it.
    /// Every other handle keeps its state and its object.
    pub fn create(&mut self, value: T) -> (h: u64)
        ensures
            h != 0,
            h as int == old(self).issued() + 1,
            final(self).issued() == old(self).issued() + 1,
            !old(self).live(h),
            final(self).live(h),
            final(self).item(h) == value,
            forall|h2: u64| h2 != h ==> final(self).live(h2) == old(self).live(h2),
            forall|h2: u64|
                h2 != h && old(self).live(h2) ==> final(self).item(h2) == old(self).item(h2),
    {
        self.slots.push(Some(value));
        self.slots.len() as u64
    }

    /// Borrows the object that `h` names, or nothing when `h` is dead.
    pub fn get(&self, h: u64) -> (r: Option<&T>)
        ensures
            self.live(h) ==> (r matches Some(v) && *v == self.item(h)),
            !self.live(h) ==> r is None,
    {
        if 1 <= h && h <= self.slots.len() as u64 {
            let idx: usize = (h - 1) as usize;
            match &self.slots[idx] {
                Some(v) => Some(v),
                None => None,
            }
        } else {
            None
        }
    }

    /// Destroys the object that `h` names, reporting whether there was one.
    /// After the call `h` is dead either way, and it stays dead forever: its
    /// slot is retired, so no later creation can be reached through it.
    pub fn release(&mut self, h: u64) -> (released: bool)
        ensures
            released == old(self).live(h),
            final(self).issued() == old(self).issued(),
            !final(self).live(h),
            !old(self).live(h) ==> *final(self) == *old(self),
            forall|h2: u64| h2 != h ==> final(self).live(h2) == old(self).live(h2),
            forall|h2: u64|
                h2 != h && old(self).live(h2) ==> final(self).item(h2) == old(self).item(h2),
    {
        if 1 <= h && h <= self.slots.len() as u64 {
            let idx: usize = (h - 1) as usize;
            if self.slots[idx].is_some() {
                self.slots[idx] = None;
                return true;
            }
        }
        false
    }
}

/// A dead handle stays dead through any later creation: `create` issues
/// only the next fresh handle, past every handle the store ever issued, so
/// a handle that was released once can never name a later object.
///
/// `before` is any store in which `h` is a dead issued handle; `h2` and
/// `after` are what one `create` on that store returns and leaves behind.
pub proof fn lemma_released_handle_stays_dead<T>(
    before: HandleStore<T>,
    after: HandleStore<T>,
    h: u64,
    h2: u64,
)
    requires
        h as int <= before.issued(),
        !before.live(h),
        h2 as int == before.issued() + 1,
        forall|x: u64| x != h2 ==> after.live(x) == before.live(x),
    ensures
        h2 != h,
        !after.live(h),
{
    assert(after.live(h) == before.live(h));
}

} // verus!
