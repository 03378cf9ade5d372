//! Transfers of data under an agreed contract.
use vstd::prelude::*;

use crate::types::callback_address::CallbackAddress;
use crate::types::data_address::DataAddress;
use crate::types::properties::{ConversionError, FromValue, Properties, reads_as};
use crate::types::query::Protocol;

verus! {

/// A request to start a transfer under contract `contract_id`.
#[derive(Debug)]
pub struct TransferRequest {
    pub data_destination: Option<DataAddress>,
    pub callback_addresses: Vec<CallbackAddress>,
    pub protocol: Protocol,
    pub counter_party_address: String,
    pub contract_id: String,
    pub transfer_type: String,
}

/// Builds a `TransferRequest`.
pub struct TransferRequestBuilder {
    pub data_destination: Option<DataAddress>,
    pub callback_addresses: Vec<CallbackAddress>,
    pub protocol: Protocol,
    pub counter_party_address: String,
    pub contract_id: String,
    pub transfer_type: String,
}

impl TransferRequest {
    /// A builder for a transfer of kind `transfer_type` from the counter-party
    /// at `counter_party_address` under `contract_id`, over the default
    /// protocol, with no destination and no callback addresses.
    pub fn builder(counter_party_address: &str, contract_id: &str, transfer_type: &str) -> (r:
        TransferRequestBuilder)
        ensures
            r.data_destination is None,
            r.callback_addresses@.len() == 0,
            r.protocol.0@ == crate::types::query::DATASPACE_PROTOCOL@,
            r.counter_party_address@ == counter_party_address@,
            r.contract_id@ == contract_id@,
            r.transfer_type@ == transfer_type@,
    {
        TransferRequestBuilder {
            data_destination: None,
            callback_addresses: Vec::new(),
            protocol: Protocol::default(),
            counter_party_address: counter_party_address.to_owned(),
            contract_id: contract_id.to_owned(),
            transfer_type: transfer_type.to_owned(),
        }
    }
}

impl TransferRequestBuilder {
    /// Adds an address to call back on the transfer's events.
    pub fn callback_address(self, callback_address: CallbackAddress) -> (r: Self)
        ensures
            r.callback_addresses@ == self.callback_addresses@.push(callback_address),
            r.data_destination == self.data_destination,
            r.protocol == self.protocol,
            r.counter_party_address == self.counter_party_address,
            r.contract_id == self.contract_id,
            r.transfer_type == self.transfer_type,
    {
        let mut b = self;
        b.callback_addresses.push(callback_address);
        b
    }

    /// Sets where the data goes.
    pub fn destination(self, data_destination: DataAddress) -> (r: Self)
        ensures
            r.data_destination == Some(data_destination),
            r.callback_addresses == self.callback_addresses,
            r.protocol == self.protocol,
            r.counter_party_address == self.counter_party_address,
            r.contract_id == self.contract_id,
            r.transfer_type == self.transfer_type,
    {
        let mut b = self;
        b.data_destination = Some(data_destination);
        b
    }

    pub fn protocol(self, protocol: Protocol) -> (r: Self)
        ensures
            r.protocol == protocol,
            r.data_destination == self.data_destination,
            r.callback_addresses == self.callback_addresses,
            r.counter_party_address == self.counter_party_address,
            r.contract_id == self.contract_id,
            r.transfer_type == self.transfer_type,
    {
        let mut b = self;
        b.protocol = protocol;
        b
    }

    pub fn build(self) -> (r: TransferRequest)
        ensures
            r.data_destination == self.data_destination,
            r.callback_addresses == self.callback_addresses,
            r.protocol == self.protocol,
            r.counter_party_address == self.counter_party_address,
            r.contract_id == self.contract_id,
            r.transfer_type == self.transfer_type,
    {
        TransferRequest {
            data_destination: self.data_destination,
            callback_addresses: self.callback_addresses,
            protocol: self.protocol,
            counter_party_address: self.counter_party_address,
            contract_id: self.contract_id,
            transfer_type: self.transfer_type,
        }
    }
}

/// A transfer process as the connector reports it.
#[derive(Debug, Clone)]
pub struct TransferProcess {
    pub id: String,
    pub private_properties: Properties,
    pub state: TransferProcessState,
    pub state_timestamp: i64,
    pub asset_id: String,
    pub contract_id: String,
    pub correlation_id: Option<String>,
    pub data_destination: Option<DataAddress>,
    pub callback_addresses: Vec<CallbackAddress>,
    pub transfer_type: String,
    pub kind: TransferProcessKind,
}

impl TransferProcess {
    pub fn id(&self) -> (r: &str)
        ensures
            r@ == self.id@,
    {
        self.id.as_str()
    }

    pub fn state(&self) -> (r: &TransferProcessState)
        ensures
            *r == self.state,
    {
        &self.state
    }

    /// The private property `property`, read as a `T`.
    pub fn private_property<T: FromValue>(&self, property: &str) -> (r: Result<
        Option<T>,
        ConversionError,
    >)
        ensures
            reads_as(self.private_properties.model(), property@, r),
    {
        self.private_properties.get(property)
    }

    pub fn private_properties(&self) -> (r: &Properties)
        ensures
            *r == self.private_properties,
    {
        &self.private_properties
    }

    pub fn kind(&self) -> (r: &TransferProcessKind)
        ensures
            *r == self.kind,
    {
        &self.kind
    }

    pub fn asset_id(&self) -> (r: &str)
        ensures
            r@ == self.asset_id@,
    {
        self.asset_id.as_str()
    }

    pub fn contract_id(&self) -> (r: &str)
        ensures
            r@ == self.contract_id@,
    {
        self.contract_id.as_str()
    }

    pub fn correlation_id(&self) -> (r: Option<&String>)
        ensures
            r == match self.correlation_id {
                Some(x) => Some(&x),
                None => None::<&String>,
            },
    {
        self.correlation_id.as_ref()
    }

    pub fn data_destination(&self) -> (r: Option<&DataAddress>)
        ensures
            r == match self.data_destination {
                Some(x) => Some(&x),
                None => None::<&DataAddress>,
            },
    {
        self.data_destination.as_ref()
    }

    pub fn transfer_type(&self) -> (r: &str)
        ensures
            r@ == self.transfer_type@,
    {
        self.transfer_type.as_str()
    }

    pub fn state_timestamp(&self) -> (r: i64)
        ensures
            r == self.state_timestamp,
    {
        self.state_timestamp
    }

    pub fn callback_addresses(&self) -> (r: &[CallbackAddress])
        ensures
            r@ == self.callback_addresses@,
    {
        self.callback_addresses.as_slice()
    }
}

/// The state of a transfer; a state this library does not know is kept by
/// its name.
#[derive(Debug, Clone, PartialEq)]
pub enum TransferProcessState {
    Initial,
    Provisioning,
    ProvisioningRequested,
    Provisioned,
    Requesting,
    Requested,
    Starting,
    Started,
    Suspending,
    Suspended,
    Resuming,
    Resumed,
    Completing,
    Completed,
    Terminating,
    Terminated,
    Deprovisioning,
    DeprovisioningRequested,
    Deprovisioned,
    Other(String),
}

/// The side of a transfer that the connector is on.
#[derive(Debug, Clone, PartialEq)]
pub enum TransferProcessKind {
    Consumer,
    Provider,
}

/// The state of a transfer, alone.
#[derive(Debug)]
pub struct TransferState {
    pub state: TransferProcessState,
}

impl TransferState {
    pub fn state(&self) -> (r: &TransferProcessState)
        ensures
            *r == self.state,
    {
        &self.state
    }
}

/// A request to terminate transfer `id`, for `reason`.
#[derive(Debug)]
pub struct TerminateTransfer {
    pub id: String,
    pub reason: String,
}

impl TerminateTransfer {
    pub fn new(id: &str, reason: &str) -> (r: TerminateTransfer)
        ensures
            r.id@ == id@,
            r.reason@ == reason@,
    {
        TerminateTransfer { id: id.to_owned(), reason: reason.to_owned() }
    }
}

/// A request to suspend transfer `id`, for `reason`.
#[derive(Debug)]
pub struct SuspendTransfer {
    pub id: String,
    pub reason: String,
}

impl SuspendTransfer {
    pub fn new(id: &str, reason: &str) -> (r: SuspendTransfer)
        ensures
            r.id@ == id@,
            r.reason@ == reason@,
    {
        SuspendTransfer { id: id.to_owned(), reason: reason.to_owned() }
    }
}

} // verus!
