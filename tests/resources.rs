use edc_connector_client::types::asset::{Asset, NewAsset};
use edc_connector_client::types::callback_address::CallbackAddress;
use edc_connector_client::types::contract_definition::{ContractDefinition, NewContractDefinition};
use edc_connector_client::types::contract_negotiation::{
    ContractNegotiation, ContractNegotiationKind, ContractNegotiationState, ContractRequest,
    NegotiationState, TerminateNegotiation,
};
use edc_connector_client::types::data_address::DataAddress;
use edc_connector_client::types::properties::{ConversionError, Properties, PropertyValue};
use edc_connector_client::types::query::{Criterion, Protocol, Query, DATASPACE_PROTOCOL};
use edc_connector_client::types::secret::{NewSecret, Secret};
use edc_connector_client::types::transfer_process::{
    SuspendTransfer, TerminateTransfer, TransferProcess, TransferProcessKind, TransferProcessState,
    TransferRequest, TransferState,
};
use edc_connector_client::types::policy::Policy;

fn address() -> DataAddress {
    DataAddress::new("HttpData").with_property("baseUrl", "http://example.com".to_string())
}

#[test]
fn asset_builder_stores_public_and_private_properties() {
    let asset = Asset::builder("asset-1", address())
        .property("name", "my asset".to_string())
        .property("size", 10i64)
        .private_property("owner", "me".to_string())
        .build();
    assert_eq!(asset.id(), "asset-1");
    assert_eq!(asset.property::<String>("name"), Ok(Some("my asset".to_string())));
    assert_eq!(asset.property::<i64>("size"), Ok(Some(10)));
    assert_eq!(asset.property::<String>("size"), Err(ConversionError::WrongShape));
    assert_eq!(asset.property::<String>("owner"), Ok(None));
    assert_eq!(asset.private_properties().get::<String>("owner"), Ok(Some("me".to_string())));
    assert_eq!(asset.raw_property("name"), Some(&PropertyValue::String("my asset".to_string())));
    assert_eq!(asset.properties().len(), 2);
    assert_eq!(asset.data_address().kind(), "HttpData");
    assert_eq!(asset.data_address().property::<String>("baseUrl"), Ok(Some("http://example.com".to_string())));
}

#[test]
fn new_asset_builder_keeps_optional_id() {
    let a = NewAsset::builder(address()).property("k", true).private_property("p", 1u32).build();
    assert!(a.id.is_none());
    assert_eq!(a.properties.get::<bool>("k"), Ok(Some(true)));
    assert_eq!(a.private_properties.get::<u32>("p"), Ok(Some(1)));
    let b = NewAsset::builder(address()).id("given").build();
    assert_eq!(b.id.as_deref(), Some("given"));
}

#[test]
fn secrets_hold_their_value() {
    let s = NewSecret::builder("bar").id("foo").build();
    assert_eq!(s.id.as_deref(), Some("foo"));
    assert_eq!(s.value, "bar");
    let s = Secret::builder("foo", "bar2").build();
    assert_eq!(s.id(), "foo");
    assert_eq!(s.value(), "bar2");
}

#[test]
fn callback_address_builder_sets_auth() {
    let c = CallbackAddress::builder("http://cb", vec!["contract.negotiation".to_string()])
        .transactional(true)
        .auth("key", "code")
        .build();
    assert!(c.transactional);
    assert_eq!(c.uri, "http://cb");
    let auth = c.auth.clone().unwrap();
    assert_eq!(auth.auth_key, "key");
    assert_eq!(auth.auth_code_id, "code");
    let plain = CallbackAddress::builder("http://cb", vec![]).build();
    assert!(plain.auth.is_none());
    assert!(!plain.transactional);
}

#[test]
fn contract_definitions_collect_selectors() {
    let d = ContractDefinition::builder("def", "access", "contract")
        .asset_selector(Criterion::new("id", "=", "asset-1".to_string()))
        .private_property("note", "n".to_string())
        .build();
    assert_eq!(d.id(), "def");
    assert_eq!(d.access_policy_id(), "access");
    assert_eq!(d.contract_policy_id(), "contract");
    assert_eq!(d.assets_selector().len(), 1);
    assert_eq!(d.assets_selector()[0].operand_left, "id");
    assert_eq!(d.private_property::<String>("note"), Ok(Some("n".to_string())));
    let n = NewContractDefinition::builder("a", "c")
        .id("x")
        .asset_selector(Criterion::new("k", "in", vec![1i64, 2]))
        .asset_selector(Criterion::new("j", "=", 3i64))
        .private_property("p", false)
        .build();
    assert_eq!(n.id.as_deref(), Some("x"));
    assert_eq!(n.assets_selector.len(), 2);
    assert_eq!(n.private_properties.get::<bool>("p"), Ok(Some(false)));
}

#[test]
fn contract_requests_use_the_default_protocol() {
    let r = ContractRequest::builder("provider", "http://provider", Policy::builder().build())
        .callback_address(CallbackAddress::builder("http://cb", vec![]).build())
        .build();
    assert_eq!(r.protocol, Protocol::default());
    assert_eq!(r.protocol.0, DATASPACE_PROTOCOL);
    assert_eq!(r.callback_addresses.len(), 1);
    assert_eq!(r.counter_party_id, "provider");
    let t = TerminateNegotiation::new("n1", "done");
    assert_eq!(t.id, "n1");
    assert_eq!(t.reason, "done");
}

#[test]
fn contract_negotiation_getters() {
    let mut private = Properties::new();
    private.set("tag", 1i64);
    let n = ContractNegotiation {
        id: "n1".to_string(),
        private_properties: private,
        state: ContractNegotiationState::Other("PAUSED".to_string()),
        contract_agreement_id: Some("agreement".to_string()),
        counter_party_id: "cp".to_string(),
        counter_party_address: "http://cp".to_string(),
        protocol: DATASPACE_PROTOCOL.to_string(),
        created_at: 1234,
        callback_addresses: vec![],
        kind: ContractNegotiationKind::Consumer,
    };
    assert_eq!(n.id(), "n1");
    assert_eq!(n.state(), &ContractNegotiationState::Other("PAUSED".to_string()));
    assert_eq!(n.private_property::<i64>("tag"), Ok(Some(1)));
    assert_eq!(n.private_properties().len(), 1);
    assert_eq!(n.contract_agreement_id().map(|s| s.as_str()), Some("agreement"));
    assert_eq!(n.counter_party_id(), "cp");
    assert_eq!(n.counter_party_address(), "http://cp");
    assert_eq!(n.kind(), &ContractNegotiationKind::Consumer);
    assert_eq!(n.created_at(), 1234);
    assert!(n.callback_addresses().is_empty());
    assert_eq!(n.protocol(), DATASPACE_PROTOCOL);
    let s = NegotiationState { state: ContractNegotiationState::Finalized };
    assert_eq!(s.state(), &ContractNegotiationState::Finalized);
}

#[test]
fn transfer_requests_and_processes() {
    let r = TransferRequest::builder("http://provider", "contract-1", "HttpData-PULL")
        .destination(address())
        .callback_address(CallbackAddress::builder("http://cb", vec![]).build())
        .protocol(Protocol::new("other"))
        .build();
    assert_eq!(r.contract_id, "contract-1");
    assert_eq!(r.transfer_type, "HttpData-PULL");
    assert_eq!(r.protocol.0, "other");
    assert_eq!(r.data_destination.as_ref().map(|d| d.kind()), Some("HttpData"));
    assert_eq!(r.callback_addresses.len(), 1);

    let p = TransferProcess {
        id: "t1".to_string(),
        private_properties: Properties::new(),
        state: TransferProcessState::Started,
        state_timestamp: 99,
        asset_id: "asset".to_string(),
        contract_id: "contract".to_string(),
        correlation_id: None,
        data_destination: Some(address()),
        callback_addresses: vec![],
        transfer_type: "HttpData-PULL".to_string(),
        kind: TransferProcessKind::Provider,
    };
    assert_eq!(p.id(), "t1");
    assert_eq!(p.state(), &TransferProcessState::Started);
    assert_eq!(p.private_property::<String>("x"), Ok(None));
    assert_eq!(p.private_properties().len(), 0);
    assert_eq!(p.kind(), &TransferProcessKind::Provider);
    assert_eq!(p.asset_id(), "asset");
    assert_eq!(p.contract_id(), "contract");
    assert!(p.correlation_id().is_none());
    assert_eq!(p.data_destination().map(|d| d.kind()), Some("HttpData"));
    assert_eq!(p.transfer_type(), "HttpData-PULL");
    assert_eq!(p.state_timestamp(), 99);
    assert!(p.callback_addresses().is_empty());
    let s = TransferState { state: TransferProcessState::Other("X".to_string()) };
    assert_eq!(s.state(), &TransferProcessState::Other("X".to_string()));
    assert_eq!(TerminateTransfer::new("t1", "r").reason, "r");
    assert_eq!(SuspendTransfer::new("t1", "s").id, "t1");
}

#[test]
fn queries_default_to_the_first_page() {
    let q = Query::default();
    assert_eq!(q.offset, 0);
    assert_eq!(q.limit, 50);
    let q = Query::new().offset(10).limit(5).sort_field("id").filter(Criterion::new("a", "=", 1u64));
    assert_eq!((q.offset, q.limit), (10, 5));
    assert_eq!(q.sort_field.as_deref(), Some("id"));
    assert_eq!(q.filter_expression.len(), 1);
}
