use edc_connector_client::types::context::{
    default_context_table, policy_context_table, strip_document, wrap_document, WithContext,
    WithContextRef, CONTEXT_KEY, EDC_NAMESPACE, ODRL_NAMESPACE,
};
use edc_connector_client::types::properties::{Properties, PropertyValue};

fn payload() -> Properties {
    let mut p = Properties::new();
    p.set("@id", "asset-1".to_string());
    p.set("count", 3i64);
    p
}

#[test]
fn default_table_holds_the_vocabulary() {
    let t = default_context_table();
    assert_eq!(t.len(), 1);
    assert_eq!(t.get::<String>("@vocab"), Ok(Some(EDC_NAMESPACE.to_string())));
}

#[test]
fn policy_table_adds_the_odrl_prefix() {
    let t = policy_context_table();
    assert_eq!(t.len(), 2);
    assert_eq!(t.get::<String>("@vocab"), Ok(Some(EDC_NAMESPACE.to_string())));
    assert_eq!(t.get::<String>("odrl"), Ok(Some(ODRL_NAMESPACE.to_string())));
}

#[test]
fn wrap_then_strip_gives_back_the_payload() {
    for table in [default_context_table(), policy_context_table()] {
        let p = payload();
        let doc = wrap_document(&table, &p);
        assert_eq!(doc.len(), 3);
        assert_eq!(doc.get_raw(CONTEXT_KEY), Some(&PropertyValue::Object(table.clone())));
        assert_eq!(strip_document(&doc), p);
    }
}

#[test]
fn wrap_replaces_an_existing_table() {
    let mut p = payload();
    p.set(CONTEXT_KEY, "stale".to_string());
    let doc = wrap_document(&default_context_table(), &p);
    assert_eq!(doc.len(), 3);
    assert_eq!(strip_document(&doc), payload());
}

#[test]
fn typed_envelopes_carry_the_payload() {
    let value = 17u64;
    let out = WithContextRef::default_context(&value);
    assert_eq!(*out.inner, 17);
    assert_eq!(out.context, default_context_table());
    let out = WithContextRef::policy_context(&value);
    assert_eq!(out.context, policy_context_table());
    let incoming = WithContext::new(policy_context_table(), "inner".to_string());
    assert_eq!(incoming.into_inner(), "inner".to_string());
}
