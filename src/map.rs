//! The mapping operation itself, on owned buffers.
use vstd::prelude::*;

use crate::guard::Progress;
use crate::layout::{choose_strategy, strategy_spec, Strategy};
use std::vec::IntoIter;
use vstd::std_specs::iter::IteratorSpec;

verus! {

/// A buffer whose values can be converted one by one into values of
/// another type, giving a buffer of the same kind.
pub trait MapInPlace<A, B>: Sized {
    /// The same kind of buffer over `B`, e.g. `Vec<B>` for `Vec<A>`.
    type Output;

    /// The values held, in order.
    spec fn source_values(&self) -> Seq<A>;

    /// The values held by a converted buffer, in order.
    spec fn output_values(out: &Self::Output) -> Seq<B>;

    /// Whether the strides of `A` and `B` allow this kind of buffer to be
    /// converted at all.
    spec fn stride_admitted() -> bool;

    /// Consumes the buffer and applies `f` once to each value, in index
    /// order. The result holds `f`'s outputs, at the indices of their
    /// inputs.
    fn map_in_place<F: FnMut(A) -> B>(self, f: F) -> (r: Self::Output)
        requires
            Self::stride_admitted(),
            forall|i: int|
                0 <= i < self.source_values().len() ==> call_requires(f, (self.source_values()[i],)),
        ensures
            Self::output_values(&r).len() == self.source_values().len(),
            forall|i: int|
                0 <= i < self.source_values().len() ==> call_ensures(
                    f,
                    (self.source_values()[i],),
                    #[trigger] Self::output_values(&r)[i],
                ),
    ;
}

/// Mapping a buffer with `f` and the result with an inverse `g` of `f`
/// gives back the original values, in their order.
pub proof fn lemma_map_round_trip<A, B, F: FnMut(A) -> B, G: FnMut(B) -> A>(
    f: F,
    g: G,
    v: Vec<A>,
    w: Vec<B>,
    u: Vec<A>,
)
    requires
        forall|a: A, b: B|
            #[trigger] call_ensures(f, (a,), b) ==> forall|c: A| #[trigger] call_ensures(g, (b,), c) ==> c == a,
        w@.len() == v@.len(),
        forall|i: int| 0 <= i < v@.len() ==> call_ensures(f, (v@[i],), #[trigger] w@[i]),
        u@.len() == w@.len(),
        forall|i: int| 0 <= i < w@.len() ==> call_ensures(g, (w@[i],), #[trigger] u@[i]),
    ensures
        u@ == v@,
{
    assert forall|i: int| 0 <= i < v@.len() implies u@[i] == v@[i] by {
        assert(call_ensures(f, (v@[i],), w@[i]));
        assert(call_ensures(g, (w@[i],), u@[i]));
    }
    assert(u@ =~= v@);
}

/// Advances `it` by one value, as `Iterator::next` specifies it.
fn next_value<I: Iterator>(it: &mut I) -> (r: Option<I::Item>)
    requires
        (*old(it)).obeys_prophetic_iter_laws(),
    ensures
        (*final(it)).obeys_prophetic_iter_laws(),
        (*old(it)).remaining().len() > 0 ==> (*final(it)).remaining() == (*old(it)).remaining().drop_first()
            && r == Some((*old(it)).remaining()[0]),
        (*old(it)).remaining().len() == 0 ==> r is None,
{
    it.next()
}

/// The state of a conversion loop, and its drop-safety guard.
///
/// Fields are dropped in declaration order. If the conversion function
/// unwinds, the values produced so far are dropped first, in index order,
/// then the untouched source values, in index order; the value in flight was
/// moved into the failed call and is dropped by it, once.
struct Converting<A, B> {
    produced: Vec<B>,
    pending: IntoIter<A>,
    progress: Progress,
}

impl<A, B> MapInPlace<A, B> for Vec<A> {
    type Output = Vec<B>;

    open spec fn source_values(&self) -> Seq<A> {
        self@
    }

    open spec fn output_values(out: &Vec<B>) -> Seq<B> {
        out@
    }

    /// A stride may stay or shrink, never grow.
    open spec fn stride_admitted() -> bool {
        strategy_spec(vstd::layout::size_of::<A>() as int, vstd::layout::size_of::<B>() as int) is Ok
    }

    fn map_in_place<F: FnMut(A) -> B>(self, mut f: F) -> (r: Vec<B>) {
        let ghost src = self@;
        let ghost f0 = f;
        let len = self.len();
        proof {
            assert(<Vec<A> as MapInPlace<A, B>>::source_values(&self) == src);
            assert(forall|i: int| 0 <= i < src.len() ==> call_requires(f, (src[i],)));
        }
        // A zero-sized result has no room in the source allocation; it is
        // appended to an empty buffer instead.
        let produced: Vec<B> = match choose_strategy(std::mem::size_of::<A>(), std::mem::size_of::<B>()) {
            Ok(Strategy::IntoZeroSized) => Vec::new(),
            _ => Vec::with_capacity(len),
        };
        let mut state = Converting {
            produced,
            pending: self.into_iter(),
            progress: Progress::new(len),
        };
        while !state.progress.is_finished()
            invariant
                len == src.len(),
                f == f0,
                forall|i: int| 0 <= i < src.len() ==> call_requires(f, (src[i],)),
                state.progress.wf(),
                state.progress.len() == len,
                state.progress.taken() == state.progress.written(),
                state.progress.written() == state.produced.len(),
                state.pending.obeys_prophetic_iter_laws(),
                state.pending.remaining() == src.skip(state.produced.len() as int),
                forall|i: int|
                    0 <= i < state.produced.len() ==> call_ensures(
                        f,
                        (src[i],),
                        #[trigger] state.produced@[i],
                    ),
            decreases len - state.produced.len(),
        {
            let next = next_value(&mut state.pending);
            let a = next.unwrap();
            state.progress.take();
            let b = f(a);
            state.produced.push(b);
            state.progress.put();
        }
        state.produced
    }
}

} // verus!
