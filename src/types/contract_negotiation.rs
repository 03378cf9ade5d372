//! Contract negotiations between a consumer and a provider connector.
use vstd::prelude::*;

use crate::types::callback_address::CallbackAddress;
use crate::types::policy::Policy;
use crate::types::properties::{ConversionError, FromValue, Properties, reads_as};
use crate::types::query::Protocol;

verus! {

/// A request to start negotiating a contract for `policy` with a counter-party.
#[derive(Debug)]
pub struct ContractRequest {
    pub callback_addresses: Vec<CallbackAddress>,
    pub protocol: Protocol,
    pub counter_party_id: String,
    pub counter_party_address: String,
    pub policy: Policy,
}

/// Builds a `ContractRequest`.
pub struct ContractRequestBuilder {
    pub callback_addresses: Vec<CallbackAddress>,
    pub protocol: Protocol,
    pub counter_party_id: String,
    pub counter_party_address: String,
    pub policy: Policy,
}

impl ContractRequest {
    /// A builder for a request to the counter-party `counter_party_id` at
    /// `counter_party_address` for `policy`, over the default protocol and
    /// with no callback addresses.
    pub fn builder(counter_party_id: &str, counter_party_address: &str, policy: Policy) -> (r:
        ContractRequestBuilder)
        ensures
            r.callback_addresses@.len() == 0,
            r.protocol.0@ == crate::types::query::DATASPACE_PROTOCOL@,
            r.counter_party_id@ == counter_party_id@,
            r.counter_party_address@ == counter_party_address@,
            r.policy == policy,
    {
        ContractRequestBuilder {
            callback_addresses: Vec::new(),
            protocol: Protocol::default(),
            counter_party_id: counter_party_id.to_owned(),
            counter_party_address: counter_party_address.to_owned(),
            policy,
        }
    }
}

impl ContractRequestBuilder {
    /// Adds an address to call back on the negotiation's events.
    pub fn callback_address(self, callback_address: CallbackAddress) -> (r: Self)
        ensures
            r.callback_addresses@ == self.callback_addresses@.push(callback_address),
            r.protocol == self.protocol,
            r.counter_party_id == self.counter_party_id,
            r.counter_party_address == self.counter_party_address,
            r.policy == self.policy,
    {
        let mut b = self;
        b.callback_addresses.push(callback_address);
        b
    }

    pub fn protocol(self, protocol: Protocol) -> (r: Self)
        ensures
            r.protocol == protocol,
            r.callback_addresses == self.callback_addresses,
            r.counter_party_id == self.counter_party_id,
            r.counter_party_address == self.counter_party_address,
            r.policy == self.policy,
    {
        let mut b = self;
        b.protocol = protocol;
        b
    }

    pub fn build(self) -> (r: ContractRequest)
        ensures
            r.callback_addresses == self.callback_addresses,
            r.protocol == self.protocol,
            r.counter_party_id == self.counter_party_id,
            r.counter_party_address == self.counter_party_address,
            r.policy == self.policy,
    {
        ContractRequest {
            callback_addresses: self.callback_addresses,
            protocol: self.protocol,
            counter_party_id: self.counter_party_id,
            counter_party_address: self.counter_party_address,
            policy: self.policy,
        }
    }
}

/// A contract negotiation as the connector reports it.
#[derive(Debug, Clone)]
pub struct ContractNegotiation {
    pub id: String,
    pub private_properties: Properties,
    pub state: ContractNegotiationState,
    pub contract_agreement_id: Option<String>,
    pub counter_party_id: String,
    pub counter_party_address: String,
    pub protocol: String,
    pub created_at: i64,
    pub callback_addresses: Vec<CallbackAddress>,
    pub kind: ContractNegotiationKind,
}

/// The side of a negotiation that the connector is on.
#[derive(Debug, Clone, PartialEq)]
pub enum ContractNegotiationKind {
    Consumer,
    Provider,
}

/// The state of a negotiation; a state this library does not know is kept
/// by its name.
#[derive(Debug, Clone, PartialEq)]
pub enum ContractNegotiationState {
    Initial,
    Requesting,
    Requested,
    Offering,
    Offered,
    Accepting,
    Accepted,
    Agreeing,
    Agreed,
    Verifying,
    Verified,
    Finalizing,
    Finalized,
    Terminating,
    Terminated,
    Other(String),
}

/// The state of a negotiation, alone.
#[derive(Debug)]
pub struct NegotiationState {
    pub state: ContractNegotiationState,
}

/// A request to terminate negotiation `id`, for `reason`.
#[derive(Debug)]
pub struct TerminateNegotiation {
    pub id: String,
    pub reason: String,
}

impl TerminateNegotiation {
    pub fn new(id: &str, reason: &str) -> (r: TerminateNegotiation)
        ensures
            r.id@ == id@,
            r.reason@ == reason@,
    {
        TerminateNegotiation { id: id.to_owned(), reason: reason.to_owned() }
    }
}

impl NegotiationState {
    pub fn state(&self) -> (r: &ContractNegotiationState)
        ensures
            *r == self.state,
    {
        &self.state
    }
}

impl ContractNegotiation {
    pub fn id(&self) -> (r: &str)
        ensures
            r@ == self.id@,
    {
        self.id.as_str()
    }

    pub fn state(&self) -> (r: &ContractNegotiationState)
        ensures
            *r == self.state,
    {
        &self.state
    }

    /// The private property `property`, read as a `T`.
    pub fn private_property<T: FromValue>(&self, property: &str) -> (r: Result<
        Option<T>,
        ConversionError,
    >)
        ensures
            reads_as(self.private_properties.model(), property@, r),
    {
        self.private_properties.get(property)
    }

    pub fn private_properties(&self) -> (r: &Properties)
        ensures
            *r == self.private_properties,
    {
        &self.private_properties
    }

    pub fn contract_agreement_id(&self) -> (r: Option<&String>)
        ensures
            r == match self.contract_agreement_id {
                Some(x) => Some(&x),
                None => None::<&String>,
            },
    {
        self.contract_agreement_id.as_ref()
    }

    pub fn counter_party_id(&self) -> (r: &str)
        ensures
            r@ == self.counter_party_id@,
    {
        self.counter_party_id.as_str()
    }

    pub fn counter_party_address(&self) -> (r: &str)
        ensures
            r@ == self.counter_party_address@,
    {
        self.counter_party_address.as_str()
    }

    pub fn kind(&self) -> (r: &ContractNegotiationKind)
        ensures
            *r == self.kind,
    {
        &self.kind
    }

    pub fn created_at(&self) -> (r: i64)
        ensures
            r == self.created_at,
    {
        self.created_at
    }

    pub fn callback_addresses(&self) -> (r: &[CallbackAddress])
        ensures
            r@ == self.callback_addresses@,
    {
        self.callback_addresses.as_slice()
    }

    pub fn protocol(&self) -> (r: &str)
        ensures
            r@ == self.protocol@,
    {
        self.protocol.as_str()
    }
}

} // verus!
