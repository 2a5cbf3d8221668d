//! Bringing up a connection, step by step.
//!
//! A connection is brought up in two calls to the driver: one that opens it
//! and one that asks the backend for its metadata. The steps here take what
//! each call returned and decide how to go on. [`Establishing`] is the state
//! before the connection is open, [`Introspecting`] the state in which the
//! metadata query is due; only the second can be reached from the first, and
//! only by a connection that was opened.

use crate::pg::InstrumentedPgConnection;
use crate::error::ConnectionError;
use crate::error::FailureKind;
use crate::metadata::ConnectionMetadata;
use crate::span::Operation;
use crate::span::OutcomeView;
use crate::span::Span;
use crate::span::SpanView;
use vstd::prelude::*;

verus! {

/// The state before the driver has opened the connection. It holds the open
/// span of the whole procedure.
#[derive(Debug)]
pub struct Establishing {
    span: Span,
}

impl View for Establishing {
    type V = SpanView;

    closed spec fn view(&self) -> SpanView {
        self.span@
    }
}

impl Establishing {
    /// Opens the span of bringing up a connection. Of its attributes only
    /// the two constant ones are set, as nothing is known of the backend.
    pub fn begin() -> (state: Establishing)
        ensures
            state@ == SpanView::unset(Operation::Establish),
    {
        Establishing { span: Span::establishing() }
    }

    /// The open span.
    pub fn span(&self) -> (span: &Span)
        ensures
            span@ == self@,
    {
        &self.span
    }

    /// Takes what the driver's connection routine returned.
    ///
    /// An opened connection leads on to the metadata query. An error ends
    /// the procedure: it is handed back as it is, as
    /// `ConnectionError::EstablishmentFailed`, with the span closed as
    /// failed, and no state is given in which a query could be made.
    pub fn connected<C, E, Q>(self, outcome: Result<C, E>) -> (next: Result<
        Introspecting<C>,
        (ConnectionError<E, Q>, Span),
    >) where E: core::fmt::Display
        ensures
            match outcome {
                Ok(connection) => next matches Ok(state) && state@.connection == connection
                    && state@.span == self@,
                Err(error) => next matches Err(failure)
                    && failure.0 == ConnectionError::<E, Q>::EstablishmentFailed(error)
                    && failure.1@.is_failure_of(self@, FailureKind::EstablishmentFailed, error),
            },
    {
        match outcome {
            Ok(connection) => Ok(Introspecting { connection, span: self.span }),
            Err(error) => {
                let span = self.span.fail(FailureKind::EstablishmentFailed, &error);
                Err((ConnectionError::EstablishmentFailed(error), span))
            },
        }
    }
}

/// What an [`Introspecting`] stands for: the opened connection and the open
/// span.
pub struct IntrospectingView<C> {
    pub connection: C,
    pub span: SpanView,
}

/// The state in which the connection is open and the metadata query is due.
/// It owns the connection.
#[derive(Debug)]
pub struct Introspecting<C> {
    connection: C,
    span: Span,
}

impl<C> View for Introspecting<C> {
    type V = IntrospectingView<C>;

    closed spec fn view(&self) -> IntrospectingView<C> {
        IntrospectingView { connection: self.connection, span: self.span@ }
    }
}

impl<C> Introspecting<C> {
    /// The open span.
    pub fn span(&self) -> (span: &Span)
        ensures
            span@ == self@.span,
    {
        &self.span
    }

    /// The opened connection, for the metadata query to be made on.
    pub fn connection(&mut self) -> (connection: &mut C)
        ensures
            *connection == old(self)@.connection,
            final(self)@.connection == *final(connection),
            final(self)@.span == old(self)@.span,
    {
        &mut self.connection
    }

    /// Takes what the metadata query returned.
    ///
    /// An answer completes the procedure: the instrumented connection owns
    /// the opened connection and the answer as its metadata, and the span is
    /// closed as succeeded with the four attributes of the backend set from
    /// the answer. An error ends it: the error is handed back as it is, as
    /// `ConnectionError::MetadataQueryFailed`, the span is closed as failed
    /// with those attributes still unset, and the opened connection is
    /// dropped here, so that the caller is left with none.
    pub fn introspected<E, Q>(self, outcome: Result<ConnectionMetadata, Q>) -> (out: (
        Result<InstrumentedPgConnection<C>, ConnectionError<E, Q>>,
        Span,
    )) where Q: core::fmt::Display
        ensures
            match outcome {
                Ok(metadata) => out.0 matches Ok(established)
                    && established@.connection == self@.connection
                    && established@.metadata == metadata@
                    && out.1@ == self@.span.populated(metadata@).with_outcome(
                    OutcomeView::Succeeded,
                ),
                Err(error) => out.0 == Err::<InstrumentedPgConnection<C>, ConnectionError<E, Q>>(
                    ConnectionError::MetadataQueryFailed(error),
                ) && out.1@.is_failure_of(self@.span, FailureKind::MetadataQueryFailed, error),
            },
    {
        match outcome {
            Ok(metadata) => {
                let span = self.span.populate(&metadata).succeed();
                (Ok(InstrumentedPgConnection::assemble(self.connection, metadata)), span)
            },
            Err(error) => {
                let span = self.span.fail(FailureKind::MetadataQueryFailed, &error);
                (Err(ConnectionError::MetadataQueryFailed(error)), span)
            },
        }
    }
}

} // verus!
