//! The instrumented connection: a connection of the driver together with the
//! metadata of its backend.

use crate::bootstrap::Establishing;
use crate::error::ConnectionError;
use crate::error::FailureKind;
use crate::metadata::ConnectionMetadata;
use crate::metadata::MetadataView;
use crate::span::Operation;
use crate::span::OutcomeView;
use crate::span::Span;
use crate::span::SpanView;
use vstd::prelude::*;

verus! {

/// What an [`InstrumentedPgConnection`] stands for: the connection of the
/// driver as it is now, and the metadata taken when it was brought up.
pub struct ConnectionView<C> {
    pub connection: C,
    pub metadata: MetadataView,
}

/// A connection `C` of the driver that reports its operations as spans.
///
/// It owns the connection and the metadata of the backend. Every operation
/// hands its arguments to the driver's call as they are and returns what the
/// call returned; the metadata never changes. The driver's calls are passed
/// in as functions that take the connection first.
#[derive(Debug)]
pub struct InstrumentedPgConnection<C> {
    inner: C,
    info: ConnectionMetadata,
}

impl<C> View for InstrumentedPgConnection<C> {
    type V = ConnectionView<C>;

    closed spec fn view(&self) -> ConnectionView<C> {
        ConnectionView { connection: self.inner, metadata: self.info@ }
    }
}

impl<C> InstrumentedPgConnection<C> {
    pub(crate) fn assemble(connection: C, metadata: ConnectionMetadata) -> (assembled: Self)
        ensures
            assembled@.connection == connection,
            assembled@.metadata == metadata@,
    {
        InstrumentedPgConnection { inner: connection, info: metadata }
    }

    /// Brings up an instrumented connection to `target`.
    ///
    /// `connect` is the driver's connection routine; it is called once, with
    /// `target` as it is. Where it fails, its error is handed back as
    /// `ConnectionError::EstablishmentFailed` and `introspect` is not
    /// called. Where it succeeds, `introspect` is called once on the opened
    /// connection to ask the backend for its metadata. Where that fails, the
    /// error is handed back as `ConnectionError::MetadataQueryFailed` and
    /// the opened connection is dropped. Where it succeeds, the instrumented
    /// connection owns the opened connection and the answer.
    ///
    /// The span reports the whole of it. It is closed as succeeded with the
    /// attributes of the backend set from the answer, or as failed, with
    /// those attributes unset, under the kind of the error.
    pub fn establish<E, Q, F, G>(target: &str, connect: F, introspect: G) -> (out: (
        Result<InstrumentedPgConnection<C>, ConnectionError<E, Q>>,
        Span,
    )) where
        E: core::fmt::Display,
        Q: core::fmt::Display,
        F: FnOnce(&str) -> Result<C, E>,
        G: FnOnce(&mut C) -> Result<ConnectionMetadata, Q>,

        requires
            connect.requires((target,)),
            forall|opened: C, connection: &mut C|
                connect.ensures((target,), Ok::<C, E>(opened)) && *connection == opened
                    ==> introspect.requires((connection,)),
        ensures
            match out.0 {
                Ok(established) => exists|opened: C, connection: &mut C, metadata: ConnectionMetadata|
                    connect.ensures((target,), Ok::<C, E>(opened))
                        && *connection == opened
                        && *final(connection) == established@.connection
                        && introspect.ensures(
                        (connection,),
                        Ok::<ConnectionMetadata, Q>(metadata),
                    )
                        && established@.metadata == metadata@
                        && out.1@ == SpanView::opened(
                        metadata@,
                        Operation::Establish,
                    ).with_outcome(OutcomeView::Succeeded),
                Err(ConnectionError::EstablishmentFailed(error)) => connect.ensures(
                    (target,),
                    Err::<C, E>(error),
                ) && out.1@.is_failure_of(
                    SpanView::unset(Operation::Establish),
                    FailureKind::EstablishmentFailed,
                    error,
                ),
                Err(ConnectionError::MetadataQueryFailed(error)) => exists|
                    opened: C,
                    connection: &mut C,
                |
                    connect.ensures((target,), Ok::<C, E>(opened))
                        && *connection == opened
                        && introspect.ensures(
                        (connection,),
                        Err::<ConnectionMetadata, Q>(error),
                    )
                        && out.1@.is_failure_of(
                    SpanView::unset(Operation::Establish),
                    FailureKind::MetadataQueryFailed,
                    error,
                ),
            },
    {
        let state = Establishing::begin();
        let connected = connect(target);
        match state.connected(connected) {
            Ok(mut state) => {
                let answer = introspect(state.connection());
                state.introspected(answer)
            },
            Err((error, span)) => (Err(error), span),
        }
    }

    /// The metadata taken when the connection was brought up.
    pub fn metadata(&self) -> (metadata: &ConnectionMetadata)
        ensures
            metadata@ == self@.metadata,
    {
        &self.info
    }

    /// The open span that `operation` is reported by, or `None` where the
    /// operation is passed straight through.
    pub fn span(&self, operation: Operation) -> (span: Option<Span>)
        ensures
            match span {
                Some(opened) => operation.emits_span() && opened@ == SpanView::opened(
                    self@.metadata,
                    operation,
                ),
                None => !operation.emits_span(),
            },
    {
        Span::open(&self.info, operation)
    }

    /// Runs `call` on the connection with `arguments` and reports it as
    /// `operation`.
    ///
    /// The result is the one that `call` returned, and the connection is
    /// left as `call` left it. Where the operation emits a span, the span
    /// carries the metadata and is closed as the result demands; where it
    /// does not, no span is made.
    pub fn traced<'c, A, T, E, F>(&'c mut self, operation: Operation, arguments: A, call: F) -> (out: (
        Result<T, E>,
        Option<Span>,
    )) where E: core::fmt::Display, F: FnOnce(&'c mut C, A) -> Result<T, E>
        requires
            forall|connection: &mut C|
                *connection == old(self)@.connection ==> call.requires((connection, arguments)),
        ensures
            exists|connection: &mut C|
                *connection == old(self)@.connection
                    && *final(connection) == final(self)@.connection
                    && call.ensures((connection, arguments), out.0),
            final(self)@.metadata == old(self)@.metadata,
            match out.1 {
                Some(span) => operation.emits_span() && span@.is_closing_of(
                    SpanView::opened(old(self)@.metadata, operation),
                    out.0,
                    FailureKind::OperationFailed,
                ),
                None => !operation.emits_span(),
            },
    {
        let opened = Span::open(&self.info, operation);
        let result = call(&mut self.inner, arguments);
        let closed = match opened {
            Some(span) => Some(span.close(&result, FailureKind::OperationFailed)),
            None => None,
        };
        (result, closed)
    }

    /// Runs a batch of statements through `run` and reports it.
    pub fn batch_execute<E, F>(&mut self, query: &str, run: F) -> (out: (Result<(), E>, Span)) where
        E: core::fmt::Display,
        F: FnOnce(&mut C, &str) -> Result<(), E>,

        requires
            forall|connection: &mut C|
                *connection == old(self)@.connection ==> run.requires((connection, query)),
        ensures
            exists|connection: &mut C|
                *connection == old(self)@.connection
                    && *final(connection) == final(self)@.connection
                    && run.ensures((connection, query), out.0),
            final(self)@.metadata == old(self)@.metadata,
            out.1@.is_closing_of(
                SpanView::opened(old(self)@.metadata, Operation::BatchExecute),
                out.0,
                FailureKind::OperationFailed,
            ),
    {
        let (result, span) = self.traced(Operation::BatchExecute, query, run);
        (result, span.unwrap())
    }

    /// Runs one statement through `run` and reports it. The count of
    /// affected rows is the one that `run` returned.
    pub fn execute<E, F>(&mut self, query: &str, run: F) -> (out: (Result<usize, E>, Span)) where
        E: core::fmt::Display,
        F: FnOnce(&mut C, &str) -> Result<usize, E>,

        requires
            forall|connection: &mut C|
                *connection == old(self)@.connection ==> run.requires((connection, query)),
        ensures
            exists|connection: &mut C|
                *connection == old(self)@.connection
                    && *final(connection) == final(self)@.connection
                    && run.ensures((connection, query), out.0),
            final(self)@.metadata == old(self)@.metadata,
            out.1@.is_closing_of(
                SpanView::opened(old(self)@.metadata, Operation::Execute),
                out.0,
                FailureKind::OperationFailed,
            ),
    {
        let (result, span) = self.traced(Operation::Execute, query, run);
        (result, span.unwrap())
    }

    /// Runs the statement `source` through `run` and reports it. The
    /// count of affected rows is the one that `run` returned.
    pub fn execute_returning_count<S, E, F>(&mut self, source: &S, run: F) -> (out: (Result<usize, E>, Span)) where
        E: core::fmt::Display,
        F: FnOnce(&mut C, &S) -> Result<usize, E>,

        requires
            forall|connection: &mut C|
                *connection == old(self)@.connection ==> run.requires((connection, source)),
        ensures
            exists|connection: &mut C|
                *connection == old(self)@.connection
                    && *final(connection) == final(self)@.connection
                    && run.ensures((connection, source), out.0),
            final(self)@.metadata == old(self)@.metadata,
            out.1@.is_closing_of(
                SpanView::opened(old(self)@.metadata, Operation::ExecuteReturningCount),
                out.0,
                FailureKind::OperationFailed,
            ),
    {
        let (result, span) = self.traced(Operation::ExecuteReturningCount, source, run);
        (result, span.unwrap())
    }

    /// Loads the rows of the query `source` through `run` and reports it.
    /// The rows `R` are the ones that `run` returned; they may borrow from
    /// the connection.
    pub fn load<'c, S, R, E, F>(&'c mut self, source: S, run: F) -> (out: (Result<R, E>, Span)) where
        E: core::fmt::Display,
        F: FnOnce(&'c mut C, S) -> Result<R, E>,

        requires
            forall|connection: &mut C|
                *connection == old(self)@.connection ==> run.requires((connection, source)),
        ensures
            exists|connection: &mut C|
                *connection == old(self)@.connection
                    && *final(connection) == final(self)@.connection
                    && run.ensures((connection, source), out.0),
            final(self)@.metadata == old(self)@.metadata,
            out.1@.is_closing_of(
                SpanView::opened(old(self)@.metadata, Operation::Load),
                out.0,
                FailureKind::OperationFailed,
            ),
    {
        let (result, span) = self.traced(Operation::Load, source, run);
        (result, span.unwrap())
    }

    /// The connection of the driver, for its transaction manager to read and
    /// change the transaction state that the connection holds. No span is
    /// made.
    pub fn transaction_state(&mut self) -> (connection: &mut C)
        ensures
            *connection == old(self)@.connection,
            final(self)@.connection == *final(connection),
            final(self)@.metadata == old(self)@.metadata,
    {
        &mut self.inner
    }

    /// Checks through `run` that the connection is still alive. The answer
    /// is the one that `run` returned. No span is made.
    pub fn ping<E, F>(&mut self, run: F) -> (out: Result<(), E>) where
        F: FnOnce(&mut C) -> Result<(), E>,

        requires
            forall|connection: &mut C|
                *connection == old(self)@.connection ==> run.requires((connection,)),
        ensures
            exists|connection: &mut C|
                *connection == old(self)@.connection
                    && *final(connection) == final(self)@.connection
                    && run.ensures((connection,), out),
            final(self)@.metadata == old(self)@.metadata,
    {
        run(&mut self.inner)
    }

    /// The connection of the driver, for a transaction builder to be bound
    /// to, and the span that reports the entry. What is run through the
    /// builder afterwards goes to the driver directly and is not reported.
    pub fn build_transaction(&mut self) -> (out: (&mut C, Span))
        ensures
            *out.0 == old(self)@.connection,
            final(self)@.connection == *final(out.0),
            final(self)@.metadata == old(self)@.metadata,
            out.1@ == SpanView::opened(
                old(self)@.metadata,
                Operation::BuildTransaction,
            ).with_outcome(OutcomeView::Succeeded),
    {
        let span = Span::open(&self.info, Operation::BuildTransaction).unwrap().succeed();
        (&mut self.inner, span)
    }
}

} // verus!
