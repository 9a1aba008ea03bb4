use mqtt_sql_forwarder::forward::forward_one;
use mqtt_sql_forwarder::mapping::DestinationMapping;
use mqtt_sql_forwarder::options::SubscribeOptions;
use mqtt_sql_forwarder::registry::Subscriptions;
use mqtt_sql_forwarder::translate::{BoundValue, InsertStatement, TranslateError};

#[test]
fn three_messages_two_inserts_one_error_in_order() {
    // One registered topic at quality 1, routed to its table.
    let mut registry = Subscriptions::new();
    registry.add("sensors/temp", 1, SubscribeOptions::default());
    assert_eq!(registry.topics, vec!["sensors/temp".to_string()]);

    let mut mapping = DestinationMapping::new();
    mapping.insert("sensors/temp", "temp_readings");

    let payloads: Vec<&[u8]> = vec![br#"{"v":10}"#, br#"{"v":11}"#, b"\xffnot a document"];

    let mut sink: Vec<InsertStatement> = Vec::new();
    let mut error_log: Vec<TranslateError> = Vec::new();
    for payload in payloads {
        match forward_one(&mapping, "sensors/temp", payload) {
            Ok(stmt) => sink.push(stmt),
            Err(e) => error_log.push(e),
        }
    }

    assert_eq!(sink.len(), 2);
    assert_eq!(sink[0].table, "temp_readings");
    assert_eq!(sink[0].columns, vec!["v".to_string()]);
    assert_eq!(sink[0].values, vec![BoundValue::Int(10)]);
    assert_eq!(sink[1].values, vec![BoundValue::Int(11)]);
    assert_eq!(sink[0].sql, "INSERT INTO `temp_readings` (v) VALUES (?)");

    assert_eq!(error_log, vec![TranslateError::MalformedPayload]);
}

#[test]
fn rejection_produces_no_statement() {
    let mapping = DestinationMapping::new();
    let mut sink: Vec<InsertStatement> = Vec::new();
    if let Ok(stmt) = forward_one(&mapping, "readings", br#"{"a": [1,2]}"#) {
        sink.push(stmt);
    }
    assert!(sink.is_empty());
}

#[test]
fn unmapped_topic_inserts_into_itself() {
    let mapping = DestinationMapping::new();
    let stmt = forward_one(&mapping, "plain_topic", br#"{"a": true}"#).unwrap();
    assert_eq!(stmt.table, "plain_topic");
    assert_eq!(stmt.sql, "INSERT INTO `plain_topic` (a) VALUES (?)");
}
