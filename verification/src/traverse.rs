//! The queue of paths that a scan has still to visit.

use vstd::prelude::*;
use std::collections::VecDeque;
use crate::filter::texts;

verus! {

/// The start path of a scan could not be resolved. No scan begins.
#[derive(Clone, Copy, Debug, PartialEq, Eq, Structural)]
pub struct PathError;

/// The children among `listing` that could be resolved, in their order.
pub open spec fn resolved(listing: Seq<Option<String>>) -> Seq<Seq<char>>
    decreases listing.len(),
{
    if listing.len() == 0 {
        Seq::empty()
    } else {
        match listing.last() {
            Some(path) => resolved(listing.drop_last()).push(path@),
            None => resolved(listing.drop_last()),
        }
    }
}

/// What listing a directory adds to the queue: its resolved children, or
/// nothing where the directory could not be listed.
pub open spec fn additions(listing: Option<Vec<Option<String>>>) -> Seq<Seq<char>> {
    match listing {
        Some(children) => resolved(children@),
        None => Seq::empty(),
    }
}

/// Paths waiting to be visited, first in, first out, so that a tree is
/// walked breadth-first.
pub struct WorkQueue {
    pending: VecDeque<String>,
}

impl WorkQueue {
    /// The waiting paths, the next one to visit first.
    pub closed spec fn paths(&self) -> Seq<Seq<char>> {
        texts(self.pending@)
    }

    /// Begins a scan at the start path, given in resolved form, or fails
    /// where it could not be resolved.
    pub fn begin(start: Option<String>) -> (queue: Result<WorkQueue, PathError>)
        ensures
            match start {
                Some(path) => queue is Ok && queue.unwrap().paths() == seq![path@],
                None => queue is Err,
            },
    {
        match start {
            Some(path) => {
                let mut pending: VecDeque<String> = VecDeque::new();
                pending.push_back(path);
                let queue = WorkQueue { pending };
                assert(queue.paths() =~= seq![path@]);
                Ok(queue)
            },
            None => Err(PathError),
        }
    }

    /// How many paths are waiting.
    pub fn len(&self) -> (n: usize)
        ensures
            n == self.paths().len(),
    {
        self.pending.len()
    }

    /// Tells whether no path is waiting, which ends the scan.
    pub fn is_empty(&self) -> (r: bool)
        ensures
            r == (self.paths().len() == 0),
    {
        self.pending.len() == 0
    }

    /// Takes the path that has waited longest off the queue.
    pub fn next(&mut self) -> (path: Option<String>)
        ensures
            match path {
                Some(p) => old(self).paths().len() > 0 && p@ == old(self).paths()[0]
                    && final(self).paths() == old(self).paths().drop_first(),
                None => old(self).paths().len() == 0 && final(self).paths() == old(self).paths(),
            },
    {
        let path = self.pending.pop_front();
        proof {
            if path is Some {
                assert(self.paths() =~= old(self).paths().drop_first());
            }
        }
        path
    }

    /// Queues what listing a directory gave, behind everything that waits
    /// already. A child that could not be resolved is passed over, and a
    /// directory that could not be listed adds nothing; neither disturbs what
    /// waits.
    pub fn expand(&mut self, listing: &Option<Vec<Option<String>>>)
        ensures
            final(self).paths() == old(self).paths() + additions(*listing),
    {
        match listing {
            None => {
                assert(self.paths() + Seq::<Seq<char>>::empty() =~= self.paths());
            },
            Some(children) => {
                let mut i: usize = 0;
                proof {
                    assert(children@.take(0) =~= Seq::<Option<String>>::empty());
                    assert(self.paths() + Seq::<Seq<char>>::empty() =~= self.paths());
                }
                while i < children.len()
                    invariant
                        i <= children.len(),
                        self.paths() == old(self).paths() + resolved(children@.take(i as int)),
                    decreases children.len() - i,
                {
                    proof {
                        let grown = children@.take(i + 1);
                        assert(grown.drop_last() =~= children@.take(i as int));
                        assert(grown.last() == children@[i as int]);
                    }
                    let ghost before = self.paths();
                    match &children[i] {
                        Some(path) => {
                            self.pending.push_back(path.clone());
                            assert(self.paths() =~= before.push(path@));
                            assert(before.push(path@) =~= old(self).paths() + resolved(
                                children@.take(i + 1),
                            ));
                        },
                        None => {},
                    }
                    i += 1;
                }
                assert(children@.take(i as int) =~= children@);
            },
        }
    }
}

/// Paths leave the queue in the order in which they entered it: after a
/// directory is expanded, everything that waited before is visited before
/// any of its children.
pub proof fn queue_is_fifo(waiting: Seq<Seq<char>>, added: Seq<Seq<char>>, k: int)
    requires
        0 <= k < waiting.len(),
    ensures
        (waiting + added)[k] == waiting[k],
        forall|j: int| 0 <= j < added.len() ==> (waiting + added)[waiting.len() + j] == added[j],
{
}

/// A directory that cannot be listed leaves the queue as it was, so that
/// everything else that waits is still visited.
pub proof fn failed_listing_keeps_queue(waiting: Seq<Seq<char>>)
    ensures
        waiting + additions(None) == waiting,
{
    assert(waiting + additions(None) =~= waiting);
}

} // verus!
