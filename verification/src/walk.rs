//! Walks through the keys of a container.
//!
//! A walk holds the keys that one pass through the shards met, and hands
//! them out one by one. It owns what it hands out, so it needs neither the
//! container nor a lock on it while it lasts, and what happens to the
//! container after the pass does not reach it.

use vstd::prelude::*;

verus! {

/// The keys of one pass through a container, each handed out once, in the
/// order in which the pass met them.
pub struct KeyWalk<H> {
    /// The keys still to come, the next one last.
    pending: Vec<H>,
}

impl<H> KeyWalk<H> {
    /// The keys still to come, the next one first.
    pub closed spec fn remaining(&self) -> Seq<H> {
        self.pending@.reverse()
    }

    /// A walk that hands out `keys` from the first to the last.
    pub fn new(keys: Vec<H>) -> (walk: KeyWalk<H>)
        ensures
            walk.remaining() == keys@,
    {
        let ghost all = keys@;
        let mut keys = keys;
        let mut pending: Vec<H> = Vec::new();
        while keys.len() > 0
            invariant
                all =~= keys@ + pending@.reverse(),
            decreases keys.len(),
        {
            let ghost before = pending@;
            let ghost rest = keys@;
            match keys.pop() {
                Some(key) => {
                    pending.push(key);
                    assert(pending@.reverse() =~= seq![key] + before.reverse());
                    assert(rest =~= keys@ + seq![key]);
                },
                None => {},
            }
        }
        KeyWalk { pending }
    }

    /// How many keys are still to come.
    pub fn len(&self) -> (n: usize)
        ensures
            n == self.remaining().len(),
    {
        self.pending.len()
    }

    /// The next key, or nothing where the walk is at its end. A walk at its
    /// end stays there.
    pub fn next(&mut self) -> (r: Option<H>)
        ensures
            match r {
                Some(key) => old(self).remaining().len() > 0 && key == old(self).remaining()[0]
                    && final(self).remaining() == old(self).remaining().skip(1),
                None => old(self).remaining().len() == 0 && final(self).remaining() == old(
                    self,
                ).remaining(),
            },
    {
        let r = self.pending.pop();
        proof {
            if r is Some {
                assert(self.pending@.reverse() =~= old(self).pending@.reverse().skip(1));
            } else {
                assert(self.pending@ =~= old(self).pending@);
            }
        }
        r
    }
}

} // verus!
