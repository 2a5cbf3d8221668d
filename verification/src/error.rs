//! How bringing up or using a connection can fail.

use vstd::prelude::*;

verus! {

/// The kinds of failure that a span can be marked with.
#[derive(Clone, Copy, Debug, PartialEq, Eq, Structural)]
pub enum FailureKind {
    /// The driver could not open a connection to the target.
    EstablishmentFailed,
    /// The connection was opened, but the backend did not answer the
    /// metadata query as expected.
    MetadataQueryFailed,
    /// A delegated call on an established connection failed.
    OperationFailed,
}

/// Why no instrumented connection could be brought up. `E` is the error of
/// the driver's connection routine, `Q` that of its queries; either is kept
/// as the driver gave it.
#[derive(Clone, Debug, PartialEq, Eq)]
pub enum ConnectionError<E, Q> {
    /// The driver could not open a connection. No metadata query was made.
    EstablishmentFailed(E),
    /// The connection was opened and then given up, because the metadata
    /// query failed.
    MetadataQueryFailed(Q),
}

impl<E, Q> ConnectionError<E, Q> {
    pub open spec fn kind_of(self) -> FailureKind {
        match self {
            ConnectionError::EstablishmentFailed(_) => FailureKind::EstablishmentFailed,
            ConnectionError::MetadataQueryFailed(_) => FailureKind::MetadataQueryFailed,
        }
    }

    /// The kind under which a span reports this error.
    pub fn kind(&self) -> (kind: FailureKind)
        ensures
            kind == self.kind_of(),
    {
        match self {
            ConnectionError::EstablishmentFailed(_) => FailureKind::EstablishmentFailed,
            ConnectionError::MetadataQueryFailed(_) => FailureKind::MetadataQueryFailed,
        }
    }
}

} // verus!
