//! A small last-in, first-out stack, used to recycle scratch buffers.

use vstd::prelude::*;

verus! {

/// A stack of values, newest last.
#[derive(Clone, Debug)]
pub struct Stack<T> {
    vec: Vec<T>,
}

impl<T> Stack<T> {
    /// The values, oldest first.
    pub closed spec fn values(&self) -> Seq<T> {
        self.vec@
    }

    /// An empty stack.
    pub fn new() -> (r: Stack<T>)
        ensures
            r.values().len() == 0,
    {
        Stack { vec: Vec::new() }
    }

    /// Pushes a value on top.
    pub fn push(&mut self, v: T)
        ensures
            final(self).values() == old(self).values().push(v),
    {
        self.vec.push(v);
    }

    /// Pops the newest value, if any.
    pub fn pop(&mut self) -> (r: Option<T>)
        ensures
            old(self).values().len() == 0 ==> r is None && final(self).values() == old(self).values(),
            old(self).values().len() > 0 ==> r == Some(old(self).values().last()) && final(self).values()
                == old(self).values().drop_last(),
    {
        self.vec.pop()
    }

    /// Takes every value out, oldest first, leaving the stack empty.
    pub fn take(&mut self) -> (r: Vec<T>)
        ensures
            r@ == old(self).values(),
            final(self).values().len() == 0,
    {
        let mut out: Vec<T> = Vec::new();
        core::mem::swap(&mut out, &mut self.vec);
        out
    }
}

impl<T: Copy> Stack<T> {
    /// A copy of the values, oldest first.
    pub fn to_vec(&self) -> (r: Vec<T>)
        ensures
            r@ == self.values(),
    {
        let mut out: Vec<T> = Vec::new();
        let n = self.vec.len();
        for i in 0..n
            invariant
                n == self.vec@.len(),
                out@ == self.vec@.take(i as int),
        {
            out.push(self.vec[i]);
            proof {
                assert(out@ =~= self.vec@.take(i + 1));
            }
        }
        proof {
            assert(self.vec@.take(n as int) =~= self.vec@);
        }
        out
    }
}

} // verus!
