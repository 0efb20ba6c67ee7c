//! The canonical event handed to the consumer.

use crate::kind::NotifyEventKind;
use vstd::prelude::*;

verus! {

/// A normalized change notification: one leaf of the taxonomy and the
/// affected paths. It cannot be changed once made.
#[derive(Debug, PartialEq, Eq)]
pub struct NotifyEvent<P> {
    kind: NotifyEventKind,
    paths: Vec<P>,
}

/// The mathematical value of a [`NotifyEvent`].
pub struct NotifyEventView<P> {
    pub kind: NotifyEventKind,
    pub paths: Seq<P>,
}

impl<P> View for NotifyEvent<P> {
    type V = NotifyEventView<P>;

    closed spec fn view(&self) -> NotifyEventView<P> {
        NotifyEventView { kind: self.kind, paths: self.paths@ }
    }
}

impl<P> NotifyEvent<P> {
    /// Makes the event of the given leaf and paths.
    pub(crate) fn new(kind: NotifyEventKind, paths: Vec<P>) -> (event: Self)
        ensures
            event@ == (NotifyEventView { kind, paths: paths@ }),
    {
        NotifyEvent { kind, paths }
    }

    /// The leaf of the taxonomy this event falls under.
    pub fn kind(&self) -> (kind: NotifyEventKind)
        ensures
            kind == self@.kind,
    {
        self.kind
    }

    /// The affected paths, in the order the platform gave them.
    pub fn paths(&self) -> (paths: &Vec<P>)
        ensures
            paths@ == self@.paths,
    {
        &self.paths
    }

    /// Gives up the event for its paths.
    pub fn into_paths(self) -> (paths: Vec<P>)
        ensures
            paths@ == self@.paths,
    {
        self.paths
    }
}

} // verus!
