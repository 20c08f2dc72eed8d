use vstd::prelude::*;

verus! {

/// The reason a handle or layer write operation failed.
#[derive(Clone, Copy, Debug, PartialEq, Eq, Structural)]
pub enum ErrorKind {
    /// The associated layer (and so the shared cell and its update lock) has
    /// been dropped while a handle still referenced it.
    SubscriberGone,
    /// The internal update lock was poisoned by a panic during a previous
    /// update; further writes are refused, reads are unaffected.
    Poisoned,
}

/// Indicates that an error occurred when reloading a layer.
///
/// This means either the associated layer was dropped, or the internal update
/// lock was poisoned by a panic during a previous update.
#[derive(Clone, Copy, Debug, PartialEq, Eq, Structural)]
pub struct Error {
    kind: ErrorKind,
}

impl Error {
    /// The kind of failure this error reports, for use in contracts.
    pub closed spec fn spec_kind(self) -> ErrorKind {
        self.kind
    }

    /// An error reporting a poisoned update lock.
    pub fn poisoned() -> (r: Self)
        ensures
            r.spec_kind() == ErrorKind::Poisoned,
    {
        Self { kind: ErrorKind::Poisoned }
    }

    /// An error reporting that the associated layer has been dropped.
    pub fn subscriber_gone() -> (r: Self)
        ensures
            r.spec_kind() == ErrorKind::SubscriberGone,
    {
        Self { kind: ErrorKind::SubscriberGone }
    }

    /// The kind of failure this error reports.
    pub fn kind(&self) -> (r: ErrorKind)
        ensures
            r == self.spec_kind(),
    {
        self.kind
    }

    /// True exactly when this error reports a poisoned update lock.
    pub fn is_poisoned(&self) -> (r: bool)
        ensures
            r == (self.spec_kind() == ErrorKind::Poisoned),
    {
        matches!(self.kind, ErrorKind::Poisoned)
    }

    /// True exactly when this error reports that the layer has been dropped.
    pub fn is_subscriber_gone(&self) -> (r: bool)
        ensures
            r == (self.spec_kind() == ErrorKind::SubscriberGone),
    {
        matches!(self.kind, ErrorKind::SubscriberGone)
    }

    /// A human-readable description of the error.
    pub fn message(&self) -> (r: &'static str)
        ensures
            self.spec_kind() == ErrorKind::SubscriberGone ==> r@ == "subscriber is gone"@,
            self.spec_kind() == ErrorKind::Poisoned ==> r@ == "reload lock poisoned"@,
    {
        match self.kind {
            ErrorKind::SubscriberGone => "subscriber is gone",
            ErrorKind::Poisoned => "reload lock poisoned",
        }
    }
}

} // verus!
