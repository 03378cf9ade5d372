//! Assets: the data that a connector offers, with their extension properties.
use vstd::prelude::*;

use crate::types::data_address::DataAddress;
use crate::types::properties::{
    ConversionError, FromValue, Properties, PropertyValue, ToValue, lookup, reads_as, store,
};

verus! {

/// An asset as the connector stores it.
#[derive(Debug, Clone)]
pub struct Asset {
    pub properties: Properties,
    pub private_properties: Properties,
    pub id: String,
    pub data_address: DataAddress,
}

/// Builds an `Asset`.
pub struct AssetBuilder {
    pub properties: Properties,
    pub private_properties: Properties,
    pub id: String,
    pub data_address: DataAddress,
}

/// An asset to be created; the connector picks the identifier where none is given.
#[derive(Debug)]
pub struct NewAsset {
    pub properties: Properties,
    pub private_properties: Properties,
    pub id: Option<String>,
    pub data_address: DataAddress,
}

/// Builds a `NewAsset`.
pub struct NewAssetBuilder {
    pub properties: Properties,
    pub private_properties: Properties,
    pub id: Option<String>,
    pub data_address: DataAddress,
}

impl Asset {
    /// A builder for asset `id` at `data_address`, with no properties yet.
    pub fn builder(id: &str, data_address: DataAddress) -> (r: AssetBuilder)
        ensures
            r.id@ == id@,
            r.data_address == data_address,
            r.properties.model().len() == 0,
            r.private_properties.model().len() == 0,
    {
        AssetBuilder {
            properties: Properties::new(),
            private_properties: Properties::new(),
            id: id.to_owned(),
            data_address,
        }
    }

    /// The property `property`, read as a `T`.
    pub fn property<T: FromValue>(&self, property: &str) -> (r: Result<Option<T>, ConversionError>)
        ensures
            reads_as(self.properties.model(), property@, r),
    {
        self.properties.get(property)
    }

    /// The property `property` as stored, unconverted.
    pub fn raw_property(&self, property: &str) -> (r: Option<&PropertyValue>)
        ensures
            match lookup(self.properties.model(), property@) {
                None => r is None,
                Some(j) => r is Some && r->Some_0.model() == j,
            },
    {
        self.properties.get_raw(property)
    }

    pub fn id(&self) -> (r: &str)
        ensures
            r@ == self.id@,
    {
        self.id.as_str()
    }

    pub fn properties(&self) -> (r: &Properties)
        ensures
            *r == self.properties,
    {
        &self.properties
    }

    pub fn private_properties(&self) -> (r: &Properties)
        ensures
            *r == self.private_properties,
    {
        &self.private_properties
    }

    pub fn data_address(&self) -> (r: &DataAddress)
        ensures
            *r == self.data_address,
    {
        &self.data_address
    }
}

impl AssetBuilder {
    /// Stores `value` as the property `property`.
    pub fn property<T: ToValue>(self, property: &str, value: T) -> (r: Self)
        ensures
            r.properties.model() == store(
                self.properties.model(),
                property@,
                T::to_json(value.deep_view()),
            ),
            r.private_properties == self.private_properties,
            r.id == self.id,
            r.data_address == self.data_address,
    {
        let mut b = self;
        b.properties.set(property, value);
        b
    }

    /// Stores `value` as the private property `property`.
    pub fn private_property<T: ToValue>(self, property: &str, value: T) -> (r: Self)
        ensures
            r.private_properties.model() == store(
                self.private_properties.model(),
                property@,
                T::to_json(value.deep_view()),
            ),
            r.properties == self.properties,
            r.id == self.id,
            r.data_address == self.data_address,
    {
        let mut b = self;
        b.private_properties.set(property, value);
        b
    }

    pub fn build(self) -> (r: Asset)
        ensures
            r.properties == self.properties,
            r.private_properties == self.private_properties,
            r.id == self.id,
            r.data_address == self.data_address,
    {
        Asset {
            properties: self.properties,
            private_properties: self.private_properties,
            id: self.id,
            data_address: self.data_address,
        }
    }
}

impl NewAsset {
    /// A builder for an asset at `data_address`, with no identifier and no
    /// properties yet.
    pub fn builder(data_address: DataAddress) -> (r: NewAssetBuilder)
        ensures
            r.id is None,
            r.data_address == data_address,
            r.properties.model().len() == 0,
            r.private_properties.model().len() == 0,
    {
        NewAssetBuilder {
            properties: Properties::new(),
            private_properties: Properties::new(),
            id: None,
            data_address,
        }
    }
}

impl NewAssetBuilder {
    pub fn id(self, id: &str) -> (r: Self)
        ensures
            r.id is Some && r.id->Some_0@ == id@,
            r.properties == self.properties,
            r.private_properties == self.private_properties,
            r.data_address == self.data_address,
    {
        let mut b = self;
        b.id = Some(id.to_owned());
        b
    }

    /// Stores `value` as the property `property`.
    pub fn property<T: ToValue>(self, property: &str, value: T) -> (r: Self)
        ensures
            r.properties.model() == store(
                self.properties.model(),
                property@,
                T::to_json(value.deep_view()),
            ),
            r.private_properties == self.private_properties,
            r.id == self.id,
            r.data_address == self.data_address,
    {
        let mut b = self;
        b.properties.set(property, value);
        b
    }

    /// Stores `value` as the private property `property`.
    pub fn private_property<T: ToValue>(self, property: &str, value: T) -> (r: Self)
        ensures
            r.private_properties.model() == store(
                self.private_properties.model(),
                property@,
                T::to_json(value.deep_view()),
            ),
            r.properties == self.properties,
            r.id == self.id,
            r.data_address == self.data_address,
    {
        let mut b = self;
        b.private_properties.set(property, value);
        b
    }

    pub fn build(self) -> (r: NewAsset)
        ensures
            r.properties == self.properties,
            r.private_properties == self.private_properties,
            r.id == self.id,
            r.data_address == self.data_address,
    {
        NewAsset {
            properties: self.properties,
            private_properties: self.private_properties,
            id: self.id,
            data_address: self.data_address,
        }
    }
}

} // verus!
