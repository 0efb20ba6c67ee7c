//! The failures a watch session can end with.

use vstd::prelude::*;

verus! {

/// A terminal failure of a watch session.
#[derive(Debug, PartialEq, Eq)]
pub enum WatchError {
    /// The platform's notification facility failed, at registration or while
    /// the loop was running. Carries the platform's message.
    Platform(String),
    /// The consumer's handler failed. Carries the handler's own message,
    /// unchanged.
    HandlerFailure(String),
}

/// The mathematical value of a [`WatchError`].
pub enum WatchErrorView {
    Platform(Seq<char>),
    HandlerFailure(Seq<char>),
}

impl View for WatchError {
    type V = WatchErrorView;

    open spec fn view(&self) -> WatchErrorView {
        match self {
            WatchError::Platform(m) => WatchErrorView::Platform(m@),
            WatchError::HandlerFailure(m) => WatchErrorView::HandlerFailure(m@),
        }
    }
}

impl WatchErrorView {
    /// The message the error carries.
    pub open spec fn message(self) -> Seq<char> {
        match self {
            WatchErrorView::Platform(m) => m,
            WatchErrorView::HandlerFailure(m) => m,
        }
    }
}

impl WatchError {
    /// True for a failure of the platform's notification facility.
    pub fn is_platform(&self) -> (b: bool)
        ensures
            b == (self@ is Platform),
    {
        match self {
            WatchError::Platform(_) => true,
            WatchError::HandlerFailure(_) => false,
        }
    }

    /// The message the error carries, as the platform or the handler gave it.
    pub fn message(&self) -> (m: String)
        ensures
            m@ == self@.message(),
    {
        match self {
            WatchError::Platform(m) => m.clone(),
            WatchError::HandlerFailure(m) => m.clone(),
        }
    }
}

} // verus!
