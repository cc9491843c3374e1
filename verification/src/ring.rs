//! A fixed-size history of the most recent samples.
//!
//! The ring holds `capacity` items, oldest first; pushing one drops the
//! oldest. It backs the output analyzer: the scope copies the newest
//! samples out with [`Ring::recent`], and the spectrum reads the newest
//! window with [`Ring::get`]. Indices into the storage wrap at the
//! capacity; callers see only the oldest-first order.

use vstd::prelude::*;

verus! {

/// `capacity` items in a circular buffer with a write position.
pub struct Ring<T> {
    /// Storage; never resized.
    buf: Vec<T>,
    /// Next write position in `buf`; also the oldest item.
    pos: usize,
}

/// The history after pushing `xs` one by one onto `v`.
pub open spec fn pushed_all<T>(v: Seq<T>, xs: Seq<T>) -> Seq<T>
    decreases xs.len(),
{
    if xs.len() == 0 {
        v
    } else {
        pushed_all(v, xs.drop_last()).drop_first().push(xs.last())
    }
}

impl<T: Copy> View for Ring<T> {
    type V = Seq<T>;

    /// Oldest first.
    closed spec fn view(&self) -> Seq<T> {
        self.buf@.subrange(self.pos as int, self.buf@.len() as int) + self.buf@.subrange(
            0,
            self.pos as int,
        )
    }
}

impl<T> Ring<T> {
    /// Storage present and the write position inside it.
    #[verifier::type_invariant]
    spec fn wf(&self) -> bool {
        0 < self.buf@.len() && self.pos < self.buf@.len()
    }
}

impl<T: Copy> Ring<T> {
    /// `capacity` copies of `fill`.
    pub fn new(capacity: usize, fill: T) -> (r: Ring<T>)
        requires
            capacity > 0,
        ensures
            r@ == Seq::new(capacity as nat, |i: int| fill),
    {
        let mut buf: Vec<T> = Vec::new();
        let mut i: usize = 0;
        while i < capacity
            invariant
                i <= capacity,
                buf@ == Seq::new(i as nat, |j: int| fill),
            decreases capacity - i,
        {
            buf.push(fill);
            i = i + 1;
        }
        let r = Ring { buf, pos: 0 };
        assert(r@ =~= Seq::new(capacity as nat, |i: int| fill));
        r
    }

    /// Number of items held.
    pub fn capacity(&self) -> (n: usize)
        ensures
            n == self@.len(),
            n > 0,
    {
        proof {
            use_type_invariant(self);
        }
        self.buf.len()
    }

    /// Append `x` as the newest item and drop the oldest.
    pub fn push(&mut self, x: T)
        ensures
            final(self)@ == old(self)@.drop_first().push(x),
    {
        proof {
            use_type_invariant(&*self);
        }
        let ghost old_view = self@;
        let len = self.buf.len();
        let p = self.pos;
        self.buf[p] = x;
        self.pos = if p + 1 == len { 0 } else { p + 1 };
        let ghost b = self.buf@;
        assert(self@ =~= old_view.drop_first().push(x)) by {
            assert forall|i: int| 0 <= i < len implies #[trigger] self@[i] == old_view.drop_first().push(
                x,
            )[i] by {
                if i < len - 1 {
                    if p + 1 + i < len {
                        assert(old_view[i + 1] == old(self).buf@[p + 1 + i]);
                    } else {
                        assert(old_view[i + 1] == old(self).buf@[p + 1 + i - len]);
                    }
                }
            }
        }
    }

    /// The item `i` places after the oldest (`get(capacity - 1)` is the
    /// newest).
    pub fn get(&self, i: usize) -> (x: T)
        requires
            i < self@.len(),
        ensures
            x == self@[i as int],
    {
        proof {
            use_type_invariant(self);
        }
        let len = self.buf.len();
        let j = if i < len - self.pos { self.pos + i } else { i - (len - self.pos) };
        self.buf[j]
    }

    /// Copy the newest `n = min(out.len(), capacity)` items into
    /// `out[..n]`, oldest first; the rest of `out` is left as it was.
    pub fn recent(&self, out: &mut Vec<T>)
        ensures
            final(out)@.len() == old(out)@.len(),
            forall|i: int|
                0 <= i < old(out)@.len() ==> #[trigger] final(out)@[i] == if i < self@.len() {
                    self@[self@.len() - vstd::math::min(old(out)@.len() as int, self@.len() as int) + i]
                } else {
                    old(out)@[i]
                },
    {
        proof {
            use_type_invariant(self);
        }
        let cap = self.buf.len();
        let n = if out.len() < cap { out.len() } else { cap };
        let ghost o = out@;
        let mut i: usize = 0;
        while i < n
            invariant
                cap == self@.len(),
                n == vstd::math::min(o.len() as int, cap as int),
                i <= n,
                out@.len() == o.len(),
                forall|j: int| 0 <= j < i ==> #[trigger] out@[j] == self@[cap - n + j],
                forall|j: int| i <= j < o.len() ==> #[trigger] out@[j] == o[j],
            decreases n - i,
        {
            let x = self.get(cap - n + i);
            out.set(i, x);
            i = i + 1;
        }
    }
}

/// Pushing `xs` one by one keeps the newest `capacity` items of the old
/// history followed by `xs`: the ring always holds the most recent pushes.
pub proof fn lemma_pushed_all<T>(v: Seq<T>, xs: Seq<T>)
    requires
        v.len() > 0,
    ensures
        pushed_all(v, xs) == (v + xs).subrange(xs.len() as int, (xs.len() + v.len()) as int),
    decreases xs.len(),
{
    if xs.len() > 0 {
        lemma_pushed_all(v, xs.drop_last());
        let w = v + xs;
        let u = v + xs.drop_last();
        assert(pushed_all(v, xs) =~= w.subrange(xs.len() as int, (xs.len() + v.len()) as int)) by {
            assert forall|i: int| 0 <= i < v.len() implies #[trigger] pushed_all(v, xs)[i] == w.subrange(
                xs.len() as int,
                (xs.len() + v.len()) as int,
            )[i] by {
                if i < v.len() - 1 {
                    assert(u[xs.len() + i] == w[xs.len() + i]);
                }
            }
        }
    }
}

} // verus!
