//! Contract definitions: which policies govern which assets.
use vstd::prelude::*;

use crate::types::properties::{
    ConversionError, FromValue, Properties, ToValue, reads_as, store,
};
use crate::types::query::Criterion;

verus! {

/// A contract definition as the connector stores it: the assets it selects
/// are offered under the contract policy to those the access policy admits.
#[derive(Debug, Clone)]
pub struct ContractDefinition {
    pub private_properties: Properties,
    pub assets_selector: Vec<Criterion>,
    pub id: String,
    pub access_policy_id: String,
    pub contract_policy_id: String,
}

/// Builds a `ContractDefinition`.
pub struct ContractDefinitionBuilder {
    pub private_properties: Properties,
    pub assets_selector: Vec<Criterion>,
    pub id: String,
    pub access_policy_id: String,
    pub contract_policy_id: String,
}

impl ContractDefinition {
    /// A builder for definition `id` with the two policies, selecting every
    /// asset and with no private properties yet.
    pub fn builder(id: &str, access_policy_id: &str, contract_policy_id: &str) -> (r:
        ContractDefinitionBuilder)
        ensures
            r.id@ == id@,
            r.access_policy_id@ == access_policy_id@,
            r.contract_policy_id@ == contract_policy_id@,
            r.assets_selector@.len() == 0,
            r.private_properties.model().len() == 0,
    {
        ContractDefinitionBuilder {
            private_properties: Properties::new(),
            assets_selector: Vec::new(),
            id: id.to_owned(),
            access_policy_id: access_policy_id.to_owned(),
            contract_policy_id: contract_policy_id.to_owned(),
        }
    }

    pub fn id(&self) -> (r: &str)
        ensures
            r@ == self.id@,
    {
        self.id.as_str()
    }

    pub fn access_policy_id(&self) -> (r: &str)
        ensures
            r@ == self.access_policy_id@,
    {
        self.access_policy_id.as_str()
    }

    pub fn contract_policy_id(&self) -> (r: &str)
        ensures
            r@ == self.contract_policy_id@,
    {
        self.contract_policy_id.as_str()
    }

    pub fn assets_selector(&self) -> (r: &[Criterion])
        ensures
            r@ == self.assets_selector@,
    {
        self.assets_selector.as_slice()
    }

    /// The private property `property`, read as a `T`.
    pub fn private_property<T: FromValue>(&self, property: &str) -> (r: Result<
        Option<T>,
        ConversionError,
    >)
        ensures
            reads_as(self.private_properties.model(), property@, r),
    {
        self.private_properties.get(property)
    }
}

impl ContractDefinitionBuilder {
    /// Stores `value` as the private property `property`.
    pub fn private_property<T: ToValue>(self, property: &str, value: T) -> (r: Self)
        ensures
            r.private_properties.model() == store(
                self.private_properties.model(),
                property@,
                T::to_json(value.deep_view()),
            ),
            r.assets_selector == self.assets_selector,
            r.id == self.id,
            r.access_policy_id == self.access_policy_id,
            r.contract_policy_id == self.contract_policy_id,
    {
        let mut b = self;
        b.private_properties.set(property, value);
        b
    }

    /// Adds a criterion that selected assets must meet.
    pub fn asset_selector(self, selector: Criterion) -> (r: Self)
        ensures
            r.assets_selector@ == self.assets_selector@.push(selector),
            r.private_properties == self.private_properties,
            r.id == self.id,
            r.access_policy_id == self.access_policy_id,
            r.contract_policy_id == self.contract_policy_id,
    {
        let mut b = self;
        b.assets_selector.push(selector);
        b
    }

    pub fn build(self) -> (r: ContractDefinition)
        ensures
            r.private_properties == self.private_properties,
            r.assets_selector == self.assets_selector,
            r.id == self.id,
            r.access_policy_id == self.access_policy_id,
            r.contract_policy_id == self.contract_policy_id,
    {
        ContractDefinition {
            private_properties: self.private_properties,
            assets_selector: self.assets_selector,
            id: self.id,
            access_policy_id: self.access_policy_id,
            contract_policy_id: self.contract_policy_id,
        }
    }
}

/// A contract definition to be created; the connector picks the identifier
/// where none is given.
#[derive(Debug)]
pub struct NewContractDefinition {
    pub private_properties: Properties,
    pub assets_selector: Vec<Criterion>,
    pub id: Option<String>,
    pub access_policy_id: String,
    pub contract_policy_id: String,
}

/// Builds a `NewContractDefinition`.
pub struct NewContractDefinitionBuilder {
    pub private_properties: Properties,
    pub assets_selector: Vec<Criterion>,
    pub id: Option<String>,
    pub access_policy_id: String,
    pub contract_policy_id: String,
}

impl NewContractDefinition {
    /// A builder for a definition with the two policies, selecting every
    /// asset, with no identifier and no private properties yet.
    pub fn builder(access_policy_id: &str, contract_policy_id: &str) -> (r:
        NewContractDefinitionBuilder)
        ensures
            r.id is None,
            r.access_policy_id@ == access_policy_id@,
            r.contract_policy_id@ == contract_policy_id@,
            r.assets_selector@.len() == 0,
            r.private_properties.model().len() == 0,
    {
        NewContractDefinitionBuilder {
            private_properties: Properties::new(),
            assets_selector: Vec::new(),
            id: None,
            access_policy_id: access_policy_id.to_owned(),
            contract_policy_id: contract_policy_id.to_owned(),
        }
    }
}

impl NewContractDefinitionBuilder {
    pub fn id(self, id: &str) -> (r: Self)
        ensures
            r.id is Some && r.id->Some_0@ == id@,
            r.private_properties == self.private_properties,
            r.assets_selector == self.assets_selector,
            r.access_policy_id == self.access_policy_id,
            r.contract_policy_id == self.contract_policy_id,
    {
        let mut b = self;
        b.id = Some(id.to_owned());
        b
    }

    /// Stores `value` as the private property `property`.
    pub fn private_property<T: ToValue>(self, property: &str, value: T) -> (r: Self)
        ensures
            r.private_properties.model() == store(
                self.private_properties.model(),
                property@,
                T::to_json(value.deep_view()),
            ),
            r.assets_selector == self.assets_selector,
            r.id == self.id,
            r.access_policy_id == self.access_policy_id,
            r.contract_policy_id == self.contract_policy_id,
    {
        let mut b = self;
        b.private_properties.set(property, value);
        b
    }

    /// Adds a criterion that selected assets must meet.
    pub fn asset_selector(self, selector: Criterion) -> (r: Self)
        ensures
            r.assets_selector@ == self.assets_selector@.push(selector),
            r.private_properties == self.private_properties,
            r.id == self.id,
            r.access_policy_id == self.access_policy_id,
            r.contract_policy_id == self.contract_policy_id,
    {
        let mut b = self;
        b.assets_selector.push(selector);
        b
    }

    pub fn build(self) -> (r: NewContractDefinition)
        ensures
            r.private_properties == self.private_properties,
            r.assets_selector == self.assets_selector,
            r.id == self.id,
            r.access_policy_id == self.access_policy_id,
            r.contract_policy_id == self.contract_policy_id,
    {
        NewContractDefinition {
            private_properties: self.private_properties,
            assets_selector: self.assets_selector,
            id: self.id,
            access_policy_id: self.access_policy_id,
            contract_policy_id: self.contract_policy_id,
        }
    }
}

} // verus!
