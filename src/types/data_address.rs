//! Where the data of an asset, or the destination of a transfer, is.
use vstd::prelude::*;

use crate::types::properties::{
    ConversionError, FromValue, Properties, ToValue, reads_as, store,
};

verus! {

/// A data address: its kind (such as an HTTP endpoint) and the properties
/// that locate the data.
#[derive(Debug, Clone)]
pub struct DataAddress {
    pub kind: String,
    pub properties: Properties,
}

impl DataAddress {
    /// An address of kind `kind` with no properties yet.
    pub fn new(kind: &str) -> (r: DataAddress)
        ensures
            r.kind@ == kind@,
            r.properties.model().len() == 0,
    {
        DataAddress { kind: kind.to_owned(), properties: Properties::new() }
    }

    /// Stores `value` as the property `property`.
    pub fn with_property<T: ToValue>(self, property: &str, value: T) -> (r: DataAddress)
        ensures
            r.kind == self.kind,
            r.properties.model() == store(
                self.properties.model(),
                property@,
                T::to_json(value.deep_view()),
            ),
    {
        let mut a = self;
        a.properties.set(property, value);
        a
    }

    pub fn kind(&self) -> (r: &str)
        ensures
            r@ == self.kind@,
    {
        self.kind.as_str()
    }

    /// The property `property`, read as a `T`.
    pub fn property<T: FromValue>(&self, property: &str) -> (r: Result<Option<T>, ConversionError>)
        ensures
            reads_as(self.properties.model(), property@, r),
    {
        self.properties.get(property)
    }
}

} // verus!
