//! Bookkeeping of the drop-safety guard that watches a conversion loop.
//!
//! While the loop runs, the values `[0, written)` are already of the
//! destination type, `[taken, len)` are still of the source type, and the
//! value at `written` is in flight when `taken == written + 1`: it has been
//! moved into the conversion function and belongs to neither region.
use vstd::prelude::*;

verus! {

/// One value that the guard destroys when the loop is abandoned.
#[derive(PartialEq, Eq, Structural, Debug, Clone, Copy)]
pub enum Slot {
    /// The converted value at this index.
    Produced(usize),
    /// The untouched source value at this index.
    Pending(usize),
}

/// The destruction order for a loop over `len` values that stopped with
/// `written` values produced and `taken` values moved out: the produced ones
/// in index order, then the untouched tail in index order. A loop that
/// produced every value has disarmed its guard: nothing is destroyed.
pub open spec fn cleanup_spec(written: nat, taken: nat, len: nat) -> Seq<Slot> {
    if written == len {
        Seq::empty()
    } else {
        Seq::new(written, |i: int| Slot::Produced(i as usize)) + Seq::new(
            (len - taken) as nat,
            |i: int| Slot::Pending((taken + i) as usize),
        )
    }
}

/// Progress of a conversion loop over `len` values.
pub struct Progress {
    len: usize,
    taken: usize,
    written: usize,
}

impl Progress {
    pub closed spec fn len(&self) -> nat {
        self.len as nat
    }

    /// How many source values have been moved out.
    pub closed spec fn taken(&self) -> nat {
        self.taken as nat
    }

    /// How many destination values have been written.
    pub closed spec fn written(&self) -> nat {
        self.written as nat
    }

    /// At most one value is in flight, and nothing lies past the end.
    pub open spec fn wf(&self) -> bool {
        &&& self.written() <= self.taken() <= self.len()
        &&& self.taken() <= self.written() + 1
    }

    /// The guard is armed over `len` values, none of them touched yet.
    pub fn new(len: usize) -> (r: Progress)
        ensures
            r.wf(),
            r.len() == len,
            r.taken() == 0,
            r.written() == 0,
    {
        Progress { len, taken: 0, written: 0 }
    }

    /// Records that the next source value was moved out.
    pub fn take(&mut self)
        requires
            old(self).wf(),
            old(self).taken() == old(self).written(),
            old(self).taken() < old(self).len(),
        ensures
            final(self).wf(),
            final(self).len() == old(self).len(),
            final(self).taken() == old(self).taken() + 1,
            final(self).written() == old(self).written(),
    {
        self.taken = self.taken + 1;
    }

    /// Records that the value in flight was written back converted.
    pub fn put(&mut self)
        requires
            old(self).wf(),
            old(self).taken() == old(self).written() + 1,
        ensures
            final(self).wf(),
            final(self).len() == old(self).len(),
            final(self).taken() == old(self).taken(),
            final(self).written() == old(self).written() + 1,
    {
        self.written = self.written + 1;
    }

    /// Whether every value was converted, which disarms the guard.
    pub fn is_finished(&self) -> (r: bool)
        requires
            self.wf(),
        ensures
            r == (self.written() == self.len()),
    {
        self.written == self.len
    }

    /// The values that the guard destroys if the loop is abandoned now, in
    /// the order it destroys them. Once finished there are none.
    pub fn cleanup_order(&self) -> (r: Vec<Slot>)
        requires
            self.wf(),
        ensures
            r@ == cleanup_spec(self.written(), self.taken(), self.len()),
    {
        let mut r: Vec<Slot> = Vec::new();
        if self.written == self.len {
            return r;
        }
        let mut i: usize = 0;
        while i < self.written
            invariant
                self.wf(),
                self.written < self.len,
                i <= self.written,
                r@ == Seq::new(i as nat, |j: int| Slot::Produced(j as usize)),
            decreases self.written - i,
        {
            r.push(Slot::Produced(i));
            i = i + 1;
            assert(r@ =~= Seq::new(i as nat, |j: int| Slot::Produced(j as usize)));
        }
        let mut k: usize = self.taken;
        while k < self.len
            invariant
                self.wf(),
                self.written < self.len,
                self.taken <= k <= self.len,
                r@ == Seq::new(self.written as nat, |j: int| Slot::Produced(j as usize)) + Seq::new(
                    (k - self.taken) as nat,
                    |j: int| Slot::Pending((self.taken + j) as usize),
                ),
            decreases self.len - k,
        {
            r.push(Slot::Pending(k));
            k = k + 1;
            assert(r@ =~= Seq::new(self.written as nat, |j: int| Slot::Produced(j as usize)) + Seq::new(
                (k - self.taken) as nat,
                |j: int| Slot::Pending((self.taken + j) as usize),
            ));
        }
        r
    }
}

/// When the conversion function fails on the value at index `k` of `len`,
/// the guard destroys the `k` produced values in index order, then the
/// untouched values `k + 1 .. len` in index order, and never the value at
/// `k`, which the failed call consumed.
pub proof fn lemma_cleanup_after_failure(len: nat, k: nat)
    requires
        k < len <= usize::MAX,
    ensures
        cleanup_spec(k, k + 1, len).len() == len - 1,
        forall|i: int| 0 <= i < k ==> #[trigger] cleanup_spec(k, k + 1, len)[i] == Slot::Produced(i as usize),
        forall|i: int| k <= i < len - 1 ==> #[trigger] cleanup_spec(k, k + 1, len)[i] == Slot::Pending((i + 1) as usize),
        forall|i: int| 0 <= i < len - 1 ==> #[trigger] cleanup_spec(k, k + 1, len)[i] != Slot::Produced(k as usize)
            && cleanup_spec(k, k + 1, len)[i] != Slot::Pending(k as usize),
{
}

/// A finished loop leaves nothing for the guard to destroy.
pub proof fn lemma_cleanup_when_finished(len: nat)
    ensures
        cleanup_spec(len, len, len) =~= Seq::<Slot>::empty(),
{
}

} // verus!
