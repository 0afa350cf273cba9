use libmq::transaction::Transaction;

fn sorted(mut names: Vec<&str>) -> Vec<&str> {
    names.sort();
    names
}

fn pair(name: &str, value: &str) -> (String, String) {
    (name.to_string(), value.to_string())
}

#[test]
fn the_default_context_holds_nothing() {
    let transaction = Transaction::default();
    assert!(transaction.keys().is_empty());
    assert_eq!(transaction.get("transaction.source"), None);
    assert!(transaction.extract().is_empty());
}

#[test]
fn with_source_records_the_source() {
    let transaction = Transaction::default().with_source("gateway");
    assert_eq!(transaction.get("transaction.source"), Some("gateway"));
    assert_eq!(transaction.get("transaction.intent"), None);
    assert_eq!(transaction.keys(), vec!["transaction.source"]);
}

#[test]
fn with_intent_records_the_intent() {
    let transaction = Transaction::default().with_intent("dev.thmsn.operation.add");
    assert_eq!(transaction.get("transaction.intent"), Some("dev.thmsn.operation.add"));
    assert_eq!(transaction.get("transaction.source"), None);
}

#[test]
fn source_and_intent_stand_side_by_side() {
    let transaction =
        Transaction::default().with_source("gateway").with_intent("dev.thmsn.operation.add");
    assert_eq!(transaction.get("transaction.source"), Some("gateway"));
    assert_eq!(transaction.get("transaction.intent"), Some("dev.thmsn.operation.add"));
    assert_eq!(sorted(transaction.keys()), vec!["transaction.intent", "transaction.source"]);
}

#[test]
fn setting_a_name_again_replaces_its_value() {
    let transaction = Transaction::default().with_source("first").with_source("second");
    assert_eq!(transaction.get("transaction.source"), Some("second"));
    assert_eq!(transaction.keys().len(), 1);
    assert_eq!(transaction.extract(), vec![pair("transaction.source", "second")]);
}

#[test]
fn set_adds_and_replaces() {
    let mut transaction = Transaction::default();
    transaction.set("traceparent", "00-a-b-01".to_string());
    transaction.set("tracestate", String::new());
    transaction.set("traceparent", "00-c-d-00".to_string());
    assert_eq!(transaction.get("traceparent"), Some("00-c-d-00"));
    assert_eq!(transaction.get("tracestate"), Some(""));
    assert_eq!(transaction.get("Traceparent"), None);
    assert_eq!(sorted(transaction.keys()), vec!["traceparent", "tracestate"]);
}

#[test]
fn inject_sets_each_field_in_order() {
    let mut transaction = Transaction::default().with_source("gateway");
    transaction.inject(vec![
        pair("traceparent", "00-a-b-01"),
        pair("tracestate", "k=v"),
        pair("traceparent", "00-c-d-00"),
        pair("transaction.source", "overridden"),
    ]);
    assert_eq!(transaction.get("traceparent"), Some("00-c-d-00"));
    assert_eq!(transaction.get("tracestate"), Some("k=v"));
    assert_eq!(transaction.get("transaction.source"), Some("overridden"));
    assert_eq!(transaction.keys().len(), 3);
}

#[test]
fn inject_of_nothing_changes_nothing() {
    let mut transaction = Transaction::default().with_intent("i");
    transaction.inject(Vec::new());
    assert_eq!(transaction.extract(), vec![pair("transaction.intent", "i")]);
}

#[test]
fn extract_hands_out_every_entry_once() {
    let mut transaction = Transaction::default().with_source("gateway").with_intent("add");
    transaction.set("traceparent", "00-a-b-01".to_string());
    transaction.set("transaction.source", "edge".to_string());
    let mut fields = transaction.extract();
    fields.sort();
    assert_eq!(
        fields,
        vec![
            pair("traceparent", "00-a-b-01"),
            pair("transaction.intent", "add"),
            pair("transaction.source", "edge"),
        ]
    );
}

#[test]
fn what_was_extracted_injects_back_to_the_same_context() {
    let source = Transaction::default().with_source("gateway").with_intent("add");
    let mut copy = Transaction::default();
    copy.inject(source.extract());
    assert_eq!(copy.get("transaction.source"), Some("gateway"));
    assert_eq!(copy.get("transaction.intent"), Some("add"));
    assert_eq!(copy.keys().len(), 2);
}

#[test]
fn a_copy_holds_what_its_source_holds() {
    let source = Transaction::default().with_source("gateway");
    let copy = source.clone();
    assert_eq!(copy.extract(), source.extract());
    assert_eq!(copy.get("transaction.source"), Some("gateway"));
}
