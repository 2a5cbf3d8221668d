//! Spans: what is reported of one operation on a connection.

use crate::error::FailureKind;
use crate::metadata::ConnectionMetadata;
use crate::metadata::MetadataView;
use vstd::prelude::*;
use vstd::string::to_string_from_display_ensures;

verus! {

/// The value of `db.system` on every span.
pub const DB_SYSTEM: &'static str = "postgresql";

/// The value of `otel.kind` on every span.
pub const OTEL_KIND: &'static str = "client";

/// The operations of a connection.
#[derive(Clone, Copy, Debug, PartialEq, Eq, Structural)]
pub enum Operation {
    Establish,
    BatchExecute,
    Execute,
    ExecuteReturningCount,
    Load,
    BuildTransaction,
    TransactionState,
    Ping,
}

impl Operation {
    /// Whether the operation is reported by a span. Reading the transaction
    /// state and pinging are not: they are passed straight through.
    pub open spec fn emits_span(self) -> bool {
        !(self is TransactionState) && !(self is Ping)
    }

    pub fn is_traced(&self) -> (traced: bool)
        ensures
            traced == self.emits_span(),
    {
        match self {
            Operation::TransactionState => false,
            Operation::Ping => false,
            _ => true,
        }
    }

    pub open spec fn name_of(self) -> Seq<char> {
        match self {
            Operation::Establish => "establish"@,
            Operation::BatchExecute => "batch_execute"@,
            Operation::Execute => "execute"@,
            Operation::ExecuteReturningCount => "execute_returning_count"@,
            Operation::Load => "load"@,
            Operation::BuildTransaction => "build_transaction"@,
            Operation::TransactionState => "transaction_state"@,
            Operation::Ping => "ping"@,
        }
    }

    /// The name under which the operation is reported.
    pub fn name(&self) -> (name: &'static str)
        ensures
            name@ == self.name_of(),
    {
        match self {
            Operation::Establish => "establish",
            Operation::BatchExecute => "batch_execute",
            Operation::Execute => "execute",
            Operation::ExecuteReturningCount => "execute_returning_count",
            Operation::Load => "load",
            Operation::BuildTransaction => "build_transaction",
            Operation::TransactionState => "transaction_state",
            Operation::Ping => "ping",
        }
    }
}

/// How the operation that a span reports has ended.
#[derive(Clone, Debug, PartialEq, Eq)]
pub enum Outcome {
    /// The operation is still running.
    Open,
    Succeeded,
    /// The operation failed; `detail` is the text of the error it gave.
    Failed { kind: FailureKind, detail: String },
}

/// What an [`Outcome`] stands for.
pub enum OutcomeView {
    Open,
    Succeeded,
    Failed { kind: FailureKind, detail: Seq<char> },
}

impl View for Outcome {
    type V = OutcomeView;

    open spec fn view(&self) -> OutcomeView {
        match self {
            Outcome::Open => OutcomeView::Open,
            Outcome::Succeeded => OutcomeView::Succeeded,
            Outcome::Failed { kind, detail } => OutcomeView::Failed { kind: *kind, detail: detail@ },
        }
    }
}

/// What a [`Span`] stands for: the operation, the six attributes and the
/// outcome. An attribute that has no value yet is `None`.
pub struct SpanView {
    pub operation: Operation,
    pub db_name: Option<Seq<char>>,
    pub db_system: Seq<char>,
    pub db_version: Option<Seq<char>>,
    pub otel_kind: Seq<char>,
    pub net_peer_ip: Option<Seq<char>>,
    pub net_peer_port: Option<int>,
    pub outcome: OutcomeView,
}

impl SpanView {
    /// The open span of `operation` before the backend is known: the two
    /// constant attributes are set, the other four are not.
    pub open spec fn unset(operation: Operation) -> SpanView {
        SpanView {
            operation,
            db_name: None,
            db_system: DB_SYSTEM@,
            db_version: None,
            otel_kind: OTEL_KIND@,
            net_peer_ip: None,
            net_peer_port: None,
            outcome: OutcomeView::Open,
        }
    }

    /// This span with the four attributes of the backend taken from
    /// `metadata`.
    pub open spec fn populated(self, metadata: MetadataView) -> SpanView {
        SpanView {
            db_name: Some(metadata.database_name),
            db_version: Some(metadata.backend_version),
            net_peer_ip: Some(metadata.server_address.text()),
            net_peer_port: Some(metadata.server_port),
            ..self
        }
    }

    /// The open span of `operation` on a connection with `metadata`.
    pub open spec fn opened(metadata: MetadataView, operation: Operation) -> SpanView {
        SpanView::unset(operation).populated(metadata)
    }

    pub open spec fn with_outcome(self, outcome: OutcomeView) -> SpanView {
        SpanView { outcome, ..self }
    }

    /// The six attributes in the order of the schema, each under its key.
    pub open spec fn attributes(self) -> Seq<(Seq<char>, FieldView)> {
        seq![
            ("db.name"@, FieldView::of_text(self.db_name)),
            ("db.system"@, FieldView::Text(self.db_system)),
            ("db.version"@, FieldView::of_text(self.db_version)),
            ("otel.kind"@, FieldView::Text(self.otel_kind)),
            ("net.peer.ip"@, FieldView::of_text(self.net_peer_ip)),
            ("net.peer.port"@, FieldView::of_integer(self.net_peer_port)),
        ]
    }

    /// Whether `self` is `opened` closed as failed with the text of `error`.
    pub open spec fn is_failure_of<E: core::fmt::Display>(
        self,
        opened: SpanView,
        kind: FailureKind,
        error: E,
    ) -> bool {
        exists|detail: String| #[trigger]
            to_string_from_display_ensures::<E>(&error, detail) && self == opened.with_outcome(
                OutcomeView::Failed { kind, detail: detail@ },
            )
    }

    /// Whether `self` is `opened` closed as `result` demands: as succeeded
    /// for `Ok`, as failed with the text of the error for `Err`.
    pub open spec fn is_closing_of<T, E: core::fmt::Display>(
        self,
        opened: SpanView,
        result: Result<T, E>,
        kind: FailureKind,
    ) -> bool {
        match result {
            Ok(_) => self == opened.with_outcome(OutcomeView::Succeeded),
            Err(error) => self.is_failure_of(opened, kind, error),
        }
    }
}

/// The value of one attribute of a span.
#[derive(Clone, Debug, PartialEq, Eq)]
pub enum FieldValue {
    /// The attribute has no value yet.
    Unset,
    Text(String),
    Integer(i32),
}

/// What a [`FieldValue`] stands for.
pub enum FieldView {
    Unset,
    Text(Seq<char>),
    Integer(int),
}

impl FieldView {
    pub open spec fn of_text(text: Option<Seq<char>>) -> FieldView {
        match text {
            Some(t) => FieldView::Text(t),
            None => FieldView::Unset,
        }
    }

    pub open spec fn of_integer(integer: Option<int>) -> FieldView {
        match integer {
            Some(i) => FieldView::Integer(i),
            None => FieldView::Unset,
        }
    }
}

impl View for FieldValue {
    type V = FieldView;

    open spec fn view(&self) -> FieldView {
        match self {
            FieldValue::Unset => FieldView::Unset,
            FieldValue::Text(text) => FieldView::Text(text@),
            FieldValue::Integer(integer) => FieldView::Integer(*integer as int),
        }
    }
}

/// One attribute of a span: its key in the schema and its value.
#[derive(Clone, Debug, PartialEq, Eq)]
pub struct Attribute {
    pub key: &'static str,
    pub value: FieldValue,
}

impl View for Attribute {
    type V = (Seq<char>, FieldView);

    open spec fn view(&self) -> (Seq<char>, FieldView) {
        (self.key@, self.value@)
    }
}

/// The report of one operation: its name, the attributes that tell which
/// backend it ran against, and how it ended.
#[derive(Clone, Debug, PartialEq, Eq)]
pub struct Span {
    operation: Operation,
    db_name: Option<String>,
    db_version: Option<String>,
    net_peer_ip: Option<String>,
    net_peer_port: Option<i32>,
    outcome: Outcome,
}

pub open spec fn text_view(text: Option<String>) -> Option<Seq<char>> {
    match text {
        Some(t) => Some(t@),
        None => None,
    }
}

pub open spec fn text_of(text: Option<&str>) -> Option<Seq<char>> {
    match text {
        Some(t) => Some(t@),
        None => None,
    }
}

impl View for Span {
    type V = SpanView;

    closed spec fn view(&self) -> SpanView {
        SpanView {
            operation: self.operation,
            db_name: text_view(self.db_name),
            db_system: DB_SYSTEM@,
            db_version: text_view(self.db_version),
            otel_kind: OTEL_KIND@,
            net_peer_ip: text_view(self.net_peer_ip),
            net_peer_port: match self.net_peer_port {
                Some(port) => Some(port as int),
                None => None,
            },
            outcome: self.outcome@,
        }
    }
}

impl Span {
    /// Opens the span of bringing up a connection. Nothing is known of the
    /// backend yet, so only the two constant attributes are set.
    pub fn establishing() -> (span: Span)
        ensures
            span@ == SpanView::unset(Operation::Establish),
    {
        Span {
            operation: Operation::Establish,
            db_name: None,
            db_version: None,
            net_peer_ip: None,
            net_peer_port: None,
            outcome: Outcome::Open,
        }
    }

    /// Opens the span of `operation` on a connection with `metadata`, or
    /// gives `None` where the operation is one that no span reports.
    pub fn open(metadata: &ConnectionMetadata, operation: Operation) -> (span: Option<Span>)
        ensures
            match span {
                Some(opened) => operation.emits_span() && opened@ == SpanView::opened(
                    metadata@,
                    operation,
                ),
                None => !operation.emits_span(),
            },
    {
        if operation.is_traced() {
            Some(
                Span {
                    operation,
                    db_name: Some(metadata.database_name().to_owned()),
                    db_version: Some(metadata.backend_version().to_owned()),
                    net_peer_ip: Some(metadata.server_address().text()),
                    net_peer_port: Some(metadata.server_port()),
                    outcome: Outcome::Open,
                },
            )
        } else {
            None
        }
    }

    /// Sets the four attributes of the backend from `metadata`. The
    /// operation and the outcome stay.
    pub fn populate(self, metadata: &ConnectionMetadata) -> (span: Span)
        ensures
            span@ == self@.populated(metadata@),
    {
        Span {
            operation: self.operation,
            db_name: Some(metadata.database_name().to_owned()),
            db_version: Some(metadata.backend_version().to_owned()),
            net_peer_ip: Some(metadata.server_address().text()),
            net_peer_port: Some(metadata.server_port()),
            outcome: self.outcome,
        }
    }

    /// Closes the span as succeeded.
    pub fn succeed(self) -> (span: Span)
        ensures
            span@ == self@.with_outcome(OutcomeView::Succeeded),
    {
        Span {
            operation: self.operation,
            db_name: self.db_name,
            db_version: self.db_version,
            net_peer_ip: self.net_peer_ip,
            net_peer_port: self.net_peer_port,
            outcome: Outcome::Succeeded,
        }
    }

    /// Closes the span as failed with the text of `error`.
    pub fn fail<E: core::fmt::Display>(self, kind: FailureKind, error: &E) -> (span: Span)
        ensures
            span@.is_failure_of(self@, kind, *error),
    {
        let detail = error.to_string();
        Span {
            operation: self.operation,
            db_name: self.db_name,
            db_version: self.db_version,
            net_peer_ip: self.net_peer_ip,
            net_peer_port: self.net_peer_port,
            outcome: Outcome::Failed { kind, detail },
        }
    }

    /// Closes the span with the outcome of the call it reports. The result
    /// itself is only looked at.
    pub fn close<T, E: core::fmt::Display>(self, result: &Result<T, E>, kind: FailureKind) -> (span:
        Span)
        ensures
            span@.is_closing_of(self@, *result, kind),
    {
        match result {
            Ok(_) => self.succeed(),
            Err(error) => self.fail(kind, error),
        }
    }
    pub fn operation(&self) -> (operation: Operation)
        ensures
            operation == self@.operation,
    {
        self.operation
    }

    /// The name of the span: that of the operation it reports.
    pub fn name(&self) -> (name: &'static str)
        ensures
            name@ == self@.operation.name_of(),
    {
        self.operation.name()
    }

    /// The attribute `db.name`.
    pub fn db_name(&self) -> (name: Option<&str>)
        ensures
            text_of(name) == self@.db_name,
    {
        match &self.db_name {
            Some(name) => Some(name.as_str()),
            None => None,
        }
    }

    /// The attribute `db.system`.
    pub fn db_system(&self) -> (system: &'static str)
        ensures
            system@ == self@.db_system,
            system@ == DB_SYSTEM@,
    {
        DB_SYSTEM
    }

    /// The attribute `db.version`.
    pub fn db_version(&self) -> (version: Option<&str>)
        ensures
            text_of(version) == self@.db_version,
    {
        match &self.db_version {
            Some(version) => Some(version.as_str()),
            None => None,
        }
    }

    /// The attribute `otel.kind`.
    pub fn otel_kind(&self) -> (kind: &'static str)
        ensures
            kind@ == self@.otel_kind,
            kind@ == OTEL_KIND@,
    {
        OTEL_KIND
    }

    /// The attribute `net.peer.ip`.
    pub fn net_peer_ip(&self) -> (ip: Option<&str>)
        ensures
            text_of(ip) == self@.net_peer_ip,
    {
        match &self.net_peer_ip {
            Some(ip) => Some(ip.as_str()),
            None => None,
        }
    }

    /// The attribute `net.peer.port`.
    pub fn net_peer_port(&self) -> (port: Option<i32>)
        ensures
            match port {
                Some(p) => self@.net_peer_port == Some(p as int),
                None => self@.net_peer_port is None,
            },
    {
        self.net_peer_port
    }

    pub fn outcome(&self) -> (outcome: &Outcome)
        ensures
            outcome@ == self@.outcome,
    {
        &self.outcome
    }

    pub fn is_failed(&self) -> (failed: bool)
        ensures
            failed == (self@.outcome is Failed),
    {
        match &self.outcome {
            Outcome::Failed { .. } => true,
            _ => false,
        }
    }

    /// The six attributes in the order of the schema, each under its key.
    pub fn attributes(&self) -> (attributes: Vec<Attribute>)
        ensures
            attributes@.len() == 6,
            forall|i: int| 0 <= i < 6 ==> (#[trigger] attributes@[i])@ == self@.attributes()[i],
    {
        let mut attributes: Vec<Attribute> = Vec::new();
        attributes.push(Attribute { key: "db.name", value: text_field(&self.db_name) });
        attributes.push(
            Attribute { key: "db.system", value: FieldValue::Text(DB_SYSTEM.to_owned()) },
        );
        attributes.push(Attribute { key: "db.version", value: text_field(&self.db_version) });
        attributes.push(
            Attribute { key: "otel.kind", value: FieldValue::Text(OTEL_KIND.to_owned()) },
        );
        attributes.push(Attribute { key: "net.peer.ip", value: text_field(&self.net_peer_ip) });
        attributes.push(
            Attribute {
                key: "net.peer.port",
                value: match self.net_peer_port {
                    Some(port) => FieldValue::Integer(port),
                    None => FieldValue::Unset,
                },
            },
        );
        attributes
    }
}

/// Pinging and reading the transaction state are the operations that no span
/// reports; every other operation is reported by one.
pub proof fn lemma_untraced_operations(operation: Operation)
    ensures
        !operation.emits_span() <==> (operation == Operation::Ping || operation
            == Operation::TransactionState),
{
}

/// A span that reports an operation on a connection carries all six
/// attributes, whatever the operation and however it ended: the two constant
/// ones, and the four of the backend with the values of the connection's
/// metadata. Its outcome tells whether the operation succeeded.
pub proof fn lemma_closed_span_is_complete<T, E: core::fmt::Display>(
    closed: SpanView,
    metadata: MetadataView,
    operation: Operation,
    result: Result<T, E>,
    kind: FailureKind,
)
    requires
        closed.is_closing_of(SpanView::opened(metadata, operation), result, kind),
    ensures
        closed.operation == operation,
        closed.db_name == Some(metadata.database_name),
        closed.db_system == DB_SYSTEM@,
        closed.db_version == Some(metadata.backend_version),
        closed.otel_kind == OTEL_KIND@,
        closed.net_peer_ip == Some(metadata.server_address.text()),
        closed.net_peer_port == Some(metadata.server_port),
        closed.attributes() == SpanView::opened(metadata, operation).attributes(),
        result is Ok <==> closed.outcome is Succeeded,
        result is Err <==> closed.outcome is Failed,
        closed.outcome matches OutcomeView::Failed { kind: reported, .. } ==> reported == kind,
{
}

/// The attributes of a span depend on the metadata alone: any two spans of
/// one connection carry the same attributes, whichever operations they
/// report and however those ended.
pub proof fn lemma_attributes_agree(
    metadata: MetadataView,
    first: Operation,
    first_outcome: OutcomeView,
    second: Operation,
    second_outcome: OutcomeView,
)
    ensures
        SpanView::opened(metadata, first).with_outcome(first_outcome).attributes()
            == SpanView::opened(metadata, second).with_outcome(second_outcome).attributes(),
{
}

/// While a connection is brought up its span has none of the four
/// attributes of the backend; once the backend has answered it has all of
/// them, with the values of the answer.
pub proof fn lemma_establish_span_is_populated(metadata: MetadataView)
    ensures
        SpanView::unset(Operation::Establish).db_name is None,
        SpanView::unset(Operation::Establish).db_version is None,
        SpanView::unset(Operation::Establish).net_peer_ip is None,
        SpanView::unset(Operation::Establish).net_peer_port is None,
        SpanView::unset(Operation::Establish).populated(metadata) == SpanView::opened(
            metadata,
            Operation::Establish,
        ),
        SpanView::opened(metadata, Operation::Establish).db_name == Some(metadata.database_name),
        SpanView::opened(metadata, Operation::Establish).db_version == Some(
            metadata.backend_version,
        ),
        SpanView::opened(metadata, Operation::Establish).net_peer_ip == Some(
            metadata.server_address.text(),
        ),
        SpanView::opened(metadata, Operation::Establish).net_peer_port == Some(
            metadata.server_port,
        ),
{
}

fn text_field(text: &Option<String>) -> (value: FieldValue)
    ensures
        value@ == FieldView::of_text(text_view(*text)),
{
    match text {
        Some(t) => FieldValue::Text(t.clone()),
        None => FieldValue::Unset,
    }
}

} // verus!
