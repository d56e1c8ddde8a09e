//! A store of reference-counted objects.
//!
//! This is the model of the native object heap: every opaque handle the
//! wrappers hold is an index into one of these stores, paired with a
//! reference count.  An object is live while its count is positive; a
//! release that drops the count to zero deallocates it.  The create rule
//! (`create`) hands the caller a fresh object it owns; the get rule
//! requires a `retain` before a borrowed handle may be wrapped.

use vstd::prelude::*;

verus! {

/// One reference-counted cell.  A count of zero means the object has been
/// deallocated and its handle is dangling.
pub struct Slot<T> {
    pub rc: u32,
    pub val: T,
}

/// A store of reference-counted objects, addressed by handle.
pub struct Slots<T> {
    pub entries: Vec<Slot<T>>,
}

impl<T> Slots<T> {
    /// How many handles have ever been issued (live or dead).
    pub open spec fn len(self) -> nat {
        self.entries@.len()
    }

    pub open spec fn in_bounds(self, h: int) -> bool {
        0 <= h < self.entries@.len()
    }

    /// A handle is live while at least one reference to it is held.
    pub open spec fn live(self, h: int) -> bool {
        self.in_bounds(h) && self.entries@[h].rc > 0
    }

    pub open spec fn rc_of(self, h: int) -> u32 {
        self.entries@[h].rc
    }

    pub open spec fn value_of(self, h: int) -> T {
        self.entries@[h].val
    }

    pub fn empty() -> (s: Slots<T>)
        ensures
            s.len() == 0,
    {
        Slots { entries: Vec::new() }
    }

    /// The create rule: a freshly allocated object is owned by the caller
    /// alone, so it starts with a reference count of one.
    pub fn create(&mut self, v: T) -> (h: usize)
        ensures
            h as int == old(self).len(),
            final(self).entries@ == old(self).entries@.push((Slot { rc: 1u32, val: v })),
            final(self).len() == old(self).len() + 1,
            final(self).live(h as int),
            final(self).rc_of(h as int) == 1u32,
            final(self).value_of(h as int) == v,
            forall|j: int|
                0 <= j < old(self).len() ==> final(self).entries@[j] == old(self).entries@[j],
    {
        let h = self.entries.len();
        self.entries.push(Slot { rc: 1, val: v });
        h
    }

    /// The get rule: a borrowed handle must gain a reference of its own
    /// before it is wrapped, or the wrapper and the original owner would
    /// both release the one reference.
    pub fn retain(&mut self, h: usize)
        requires
            old(self).live(h as int),
            old(self).rc_of(h as int) < u32::MAX,
        ensures
            final(self).entries@ == old(self).entries@.update(
                h as int,
                (Slot {
                    rc: (old(self).rc_of(h as int) + 1) as u32,
                    val: old(self).value_of(h as int),
                }),
            ),
            final(self).len() == old(self).len(),
            final(self).live(h as int),
            final(self).rc_of(h as int) == old(self).rc_of(h as int) + 1,
            final(self).value_of(h as int) == old(self).value_of(h as int),
            forall|j: int|
                0 <= j < old(self).len() && j != h as int ==> final(self).entries@[j] == old(
                    self,
                ).entries@[j],
    {
        let slot = &mut self.entries[h];
        slot.rc = slot.rc + 1;
    }

    /// Give up one reference.  The object stays live exactly while other
    /// references remain; releasing the last one deallocates it.
    pub fn release(&mut self, h: usize)
        requires
            old(self).live(h as int),
        ensures
            final(self).entries@ == old(self).entries@.update(
                h as int,
                (Slot {
                    rc: (old(self).rc_of(h as int) - 1) as u32,
                    val: old(self).value_of(h as int),
                }),
            ),
            final(self).len() == old(self).len(),
            final(self).rc_of(h as int) == old(self).rc_of(h as int) - 1,
            final(self).live(h as int) <==> old(self).rc_of(h as int) > 1,
            final(self).value_of(h as int) == old(self).value_of(h as int),
            forall|j: int|
                0 <= j < old(self).len() && j != h as int ==> final(self).entries@[j] == old(
                    self,
                ).entries@[j],
    {
        let slot = &mut self.entries[h];
        slot.rc = slot.rc - 1;
    }

    /// Read the current reference count of a handle.
    pub fn rc(&self, h: usize) -> (n: u32)
        requires
            self.in_bounds(h as int),
        ensures
            n == self.rc_of(h as int),
    {
        self.entries[h].rc
    }

    /// Borrow a live object.
    pub fn borrow(&self, h: usize) -> (v: &T)
        requires
            self.live(h as int),
        ensures
            *v == self.value_of(h as int),
    {
        &self.entries[h].val
    }
}

} // verus!
