use diesel_tracing::address::IpOctets;
use diesel_tracing::address::ServerAddress;
use diesel_tracing::error::ConnectionError;
use diesel_tracing::error::FailureKind;
use diesel_tracing::metadata::ConnectionMetadata;
use diesel_tracing::span::Attribute;
use diesel_tracing::span::FieldValue;
use diesel_tracing::span::Operation;
use diesel_tracing::span::Outcome;
use diesel_tracing::span::Span;
use diesel_tracing::span::DB_SYSTEM;
use diesel_tracing::span::OTEL_KIND;

fn orders_metadata() -> ConnectionMetadata {
    ConnectionMetadata::new(
        String::from("orders_db"),
        ServerAddress::new(IpOctets::V4([10, 0, 0, 5]), 32).unwrap(),
        5432,
        String::from("14.2"),
    )
}

#[test]
fn metadata_hands_back_what_it_was_made_of() {
    let metadata = orders_metadata();
    assert_eq!(metadata.database_name(), "orders_db");
    assert_eq!(metadata.server_address().text(), "10.0.0.5/32");
    assert_eq!(metadata.server_port(), 5432);
    assert_eq!(metadata.backend_version(), "14.2");
}

#[test]
fn metadata_keeps_an_empty_name_and_a_negative_port() {
    let metadata = ConnectionMetadata::new(
        String::new(),
        ServerAddress::new(IpOctets::V6([0; 16]), 0).unwrap(),
        -1,
        String::new(),
    );
    assert_eq!(metadata.database_name(), "");
    assert_eq!(metadata.server_port(), -1);
    assert_eq!(metadata.backend_version(), "");
    assert_eq!(metadata.server_address().text(), "::/0");
}

#[test]
fn operations_are_named_after_what_they_do() {
    assert_eq!(Operation::Establish.name(), "establish");
    assert_eq!(Operation::BatchExecute.name(), "batch_execute");
    assert_eq!(Operation::Execute.name(), "execute");
    assert_eq!(Operation::ExecuteReturningCount.name(), "execute_returning_count");
    assert_eq!(Operation::Load.name(), "load");
    assert_eq!(Operation::BuildTransaction.name(), "build_transaction");
    assert_eq!(Operation::TransactionState.name(), "transaction_state");
    assert_eq!(Operation::Ping.name(), "ping");
}

#[test]
fn only_ping_and_transaction_state_are_untraced() {
    assert!(Operation::Establish.is_traced());
    assert!(Operation::BatchExecute.is_traced());
    assert!(Operation::Execute.is_traced());
    assert!(Operation::ExecuteReturningCount.is_traced());
    assert!(Operation::Load.is_traced());
    assert!(Operation::BuildTransaction.is_traced());
    assert!(!Operation::TransactionState.is_traced());
    assert!(!Operation::Ping.is_traced());
}

#[test]
fn constants_of_the_schema() {
    assert_eq!(DB_SYSTEM, "postgresql");
    assert_eq!(OTEL_KIND, "client");
}

#[test]
fn establishing_span_has_only_the_constant_attributes() {
    let span = Span::establishing();
    assert_eq!(span.operation(), Operation::Establish);
    assert_eq!(span.name(), "establish");
    assert_eq!(span.db_name(), None);
    assert_eq!(span.db_system(), "postgresql");
    assert_eq!(span.db_version(), None);
    assert_eq!(span.otel_kind(), "client");
    assert_eq!(span.net_peer_ip(), None);
    assert_eq!(span.net_peer_port(), None);
    assert_eq!(span.outcome(), &Outcome::Open);
    assert!(!span.is_failed());
}

#[test]
fn opened_span_carries_the_metadata() {
    let span = Span::open(&orders_metadata(), Operation::Load).unwrap();
    assert_eq!(span.operation(), Operation::Load);
    assert_eq!(span.name(), "load");
    assert_eq!(span.db_name(), Some("orders_db"));
    assert_eq!(span.db_system(), "postgresql");
    assert_eq!(span.db_version(), Some("14.2"));
    assert_eq!(span.otel_kind(), "client");
    assert_eq!(span.net_peer_ip(), Some("10.0.0.5/32"));
    assert_eq!(span.net_peer_port(), Some(5432));
    assert_eq!(span.outcome(), &Outcome::Open);
}

#[test]
fn no_span_is_opened_for_untraced_operations() {
    assert_eq!(Span::open(&orders_metadata(), Operation::Ping), None);
    assert_eq!(Span::open(&orders_metadata(), Operation::TransactionState), None);
}

#[test]
fn populate_sets_the_four_backend_attributes() {
    let span = Span::establishing().populate(&orders_metadata());
    assert_eq!(span.operation(), Operation::Establish);
    assert_eq!(span.db_name(), Some("orders_db"));
    assert_eq!(span.db_version(), Some("14.2"));
    assert_eq!(span.net_peer_ip(), Some("10.0.0.5/32"));
    assert_eq!(span.net_peer_port(), Some(5432));
    assert_eq!(span.outcome(), &Outcome::Open);
    assert_eq!(span, Span::open(&orders_metadata(), Operation::Establish).unwrap());
}

#[test]
fn populate_keeps_the_outcome() {
    let span = Span::establishing().succeed().populate(&orders_metadata());
    assert_eq!(span.outcome(), &Outcome::Succeeded);
}

#[test]
fn succeed_changes_the_outcome_alone() {
    let opened = Span::open(&orders_metadata(), Operation::Execute).unwrap();
    let closed = opened.clone().succeed();
    assert_eq!(closed.outcome(), &Outcome::Succeeded);
    assert!(!closed.is_failed());
    assert_eq!(closed.attributes(), opened.attributes());
    assert_eq!(closed.operation(), Operation::Execute);
}

#[test]
fn fail_records_kind_and_text_of_the_error() {
    let opened = Span::open(&orders_metadata(), Operation::Execute).unwrap();
    let closed = opened.clone().fail(FailureKind::OperationFailed, &diesel::result::Error::NotFound);
    assert_eq!(
        closed.outcome(),
        &Outcome::Failed {
            kind: FailureKind::OperationFailed,
            detail: String::from("Record not found"),
        }
    );
    assert!(closed.is_failed());
    assert_eq!(closed.attributes(), opened.attributes());
}

#[test]
fn close_follows_the_result() {
    let ok: Result<usize, diesel::result::Error> = Ok(3);
    let closed = Span::establishing().close(&ok, FailureKind::OperationFailed);
    assert_eq!(closed.outcome(), &Outcome::Succeeded);
    assert_eq!(ok, Ok(3));

    let failed: Result<usize, String> = Err(String::from("connection reset"));
    let closed = Span::establishing().close(&failed, FailureKind::EstablishmentFailed);
    assert_eq!(
        closed.outcome(),
        &Outcome::Failed {
            kind: FailureKind::EstablishmentFailed,
            detail: String::from("connection reset"),
        }
    );
    assert_eq!(failed, Err(String::from("connection reset")));
}

#[test]
fn attributes_follow_the_schema() {
    let span = Span::open(&orders_metadata(), Operation::BatchExecute).unwrap();
    assert_eq!(
        span.attributes(),
        vec![
            Attribute { key: "db.name", value: FieldValue::Text(String::from("orders_db")) },
            Attribute { key: "db.system", value: FieldValue::Text(String::from("postgresql")) },
            Attribute { key: "db.version", value: FieldValue::Text(String::from("14.2")) },
            Attribute { key: "otel.kind", value: FieldValue::Text(String::from("client")) },
            Attribute { key: "net.peer.ip", value: FieldValue::Text(String::from("10.0.0.5/32")) },
            Attribute { key: "net.peer.port", value: FieldValue::Integer(5432) },
        ]
    );
}

#[test]
fn attributes_of_an_establishing_span_are_unset() {
    assert_eq!(
        Span::establishing().attributes(),
        vec![
            Attribute { key: "db.name", value: FieldValue::Unset },
            Attribute { key: "db.system", value: FieldValue::Text(String::from("postgresql")) },
            Attribute { key: "db.version", value: FieldValue::Unset },
            Attribute { key: "otel.kind", value: FieldValue::Text(String::from("client")) },
            Attribute { key: "net.peer.ip", value: FieldValue::Unset },
            Attribute { key: "net.peer.port", value: FieldValue::Unset },
        ]
    );
}

#[test]
fn attributes_do_not_depend_on_the_operation() {
    let metadata = orders_metadata();
    let load = Span::open(&metadata, Operation::Load).unwrap().succeed();
    let execute = Span::open(&metadata, Operation::Execute)
        .unwrap()
        .fail(FailureKind::OperationFailed, &String::from("boom"));
    assert_eq!(load.attributes(), execute.attributes());
}

#[test]
fn connection_errors_report_their_kind() {
    let refused: ConnectionError<String, String> =
        ConnectionError::EstablishmentFailed(String::from("refused"));
    let denied: ConnectionError<String, String> =
        ConnectionError::MetadataQueryFailed(String::from("denied"));
    assert_eq!(refused.kind(), FailureKind::EstablishmentFailed);
    assert_eq!(denied.kind(), FailureKind::MetadataQueryFailed);
    assert_ne!(refused.kind(), denied.kind());
}
