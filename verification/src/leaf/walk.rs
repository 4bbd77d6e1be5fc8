//! Traversal: what can be walked by a walker of some capability.

use vstd::prelude::*;

verus! {

/// Something that a walker of type `W` can walk. What a walker can do is the
/// set of hooks that its type offers; what can be walked by it says which of
/// them it needs.
pub trait Walkable<W>: Sized {
    /// The walker after it has walked this.
    spec fn walked(&self, walker: W) -> W;

    /// Walks this with `walker`.
    fn walk(&self, walker: &mut W)
        ensures
            *final(walker) == self.walked(*old(walker)),
    ;

    /// Walks this with a walker of its own and gives the walker back.
    fn run(&self, walker: W) -> (done: W)
        ensures
            done == self.walked(walker),
    {
        let mut walker = walker;
        self.walk(&mut walker);
        walker
    }

    /// Walks this with a walker of its own and gives this back.
    fn walks(self, walker: W) -> (this: Self)
        ensures
            this == self,
    {
        let mut walker = walker;
        self.walk(&mut walker);
        self
    }
}

/// Something that a listener of type `L` can listen to.
pub trait Listenable<L>: Sized {
    /// The listener after it has listened to this.
    spec fn listened(&self, listener: L) -> L;

    /// Lets `listener` listen to this.
    fn listen(&self, listener: &mut L)
        ensures
            *final(listener) == self.listened(*old(listener)),
    ;
}

/// The walker after it has walked the members of `items` in order.
pub open spec fn walked_all<W, T: Walkable<W>>(items: Seq<T>, walker: W) -> W
    decreases items.len(),
{
    if items.len() == 0 {
        walker
    } else {
        items.last().walked(walked_all(items.drop_last(), walker))
    }
}

/// A sequence is walked member by member, in order.
impl<W, T: Walkable<W>> Walkable<W> for Vec<T> {
    open spec fn walked(&self, walker: W) -> W {
        walked_all(self@, walker)
    }

    fn walk(&self, walker: &mut W) {
        let mut i: usize = 0;
        while i < self.len()
            invariant
                0 <= i <= self@.len(),
                *walker == walked_all(self@.take(i as int), *old(walker)),
            decreases self@.len() - i,
        {
            proof {
                assert(self@.take(i + 1).drop_last() == self@.take(i as int));
            }
            self[i].walk(walker);
            i += 1;
        }
        proof {
            assert(self@.take(i as int) == self@);
        }
    }
}

/// What is there is walked; what is not there leaves the walker as it is.
impl<W, T: Walkable<W>> Walkable<W> for Option<T> {
    open spec fn walked(&self, walker: W) -> W {
        match self {
            Some(value) => value.walked(walker),
            None => walker,
        }
    }

    fn walk(&self, walker: &mut W) {
        match self {
            Some(value) => value.walk(walker),
            None => {},
        }
    }
}

} // verus!
