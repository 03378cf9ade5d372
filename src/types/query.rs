//! Queries over the resources of a connector, and the protocol name.
use vstd::prelude::*;

use crate::types::properties::{PropertyValue, ToValue};

verus! {

/// The name of the dataspace protocol spoken between connectors by default.
pub const DATASPACE_PROTOCOL: &'static str = "dataspace-protocol-http";

/// The protocol spoken with a counter-party connector.
#[derive(Debug, Clone, PartialEq)]
pub struct Protocol(pub String);

impl Protocol {
    pub fn new(name: &str) -> (r: Protocol)
        ensures
            r.0@ == name@,
    {
        Protocol(name.to_owned())
    }
}

impl Default for Protocol {
    fn default() -> (r: Protocol)
        ensures
            r.0@ == DATASPACE_PROTOCOL@,
    {
        Protocol(DATASPACE_PROTOCOL.to_owned())
    }
}

/// A condition on a property: `operand_left operator operand_right`.
#[derive(Debug, Clone, PartialEq)]
pub struct Criterion {
    pub operand_left: String,
    pub operator: String,
    pub operand_right: PropertyValue,
}

impl Criterion {
    pub fn new<T: ToValue>(operand_left: &str, operator: &str, operand_right: T) -> (r: Criterion)
        ensures
            r.operand_left@ == operand_left@,
            r.operator@ == operator@,
            r.operand_right.model() == T::to_json(operand_right.deep_view()),
    {
        Criterion {
            operand_left: operand_left.to_owned(),
            operator: operator.to_owned(),
            operand_right: operand_right.into_value(),
        }
    }
}

/// A page of results that meet all of the filter criteria.
#[derive(Debug, Clone, PartialEq)]
pub struct Query {
    pub offset: u32,
    pub limit: u32,
    pub sort_field: Option<String>,
    pub filter_expression: Vec<Criterion>,
}

/// The number of results on a page unless a query says otherwise.
pub const DEFAULT_LIMIT: u32 = 50;

impl Query {
    /// The first page, of the default size, with no filter and no sorting.
    pub fn new() -> (r: Query)
        ensures
            r.offset == 0,
            r.limit == DEFAULT_LIMIT,
            r.sort_field is None,
            r.filter_expression@.len() == 0,
    {
        Query { offset: 0, limit: DEFAULT_LIMIT, sort_field: None, filter_expression: Vec::new() }
    }

    pub fn offset(self, offset: u32) -> (r: Query)
        ensures
            r.offset == offset,
            r.limit == self.limit,
            r.sort_field == self.sort_field,
            r.filter_expression == self.filter_expression,
    {
        let mut q = self;
        q.offset = offset;
        q
    }

    pub fn limit(self, limit: u32) -> (r: Query)
        ensures
            r.limit == limit,
            r.offset == self.offset,
            r.sort_field == self.sort_field,
            r.filter_expression == self.filter_expression,
    {
        let mut q = self;
        q.limit = limit;
        q
    }

    pub fn sort_field(self, field: &str) -> (r: Query)
        ensures
            r.sort_field is Some && r.sort_field->Some_0@ == field@,
            r.offset == self.offset,
            r.limit == self.limit,
            r.filter_expression == self.filter_expression,
    {
        let mut q = self;
        q.sort_field = Some(field.to_owned());
        q
    }

    /// Adds a criterion that results must meet.
    pub fn filter(self, criterion: Criterion) -> (r: Query)
        ensures
            r.filter_expression@ == self.filter_expression@.push(criterion),
            r.offset == self.offset,
            r.limit == self.limit,
            r.sort_field == self.sort_field,
    {
        let mut q = self;
        q.filter_expression.push(criterion);
        q
    }
}

impl Default for Query {
    fn default() -> (r: Query)
        ensures
            r.offset == 0,
            r.limit == DEFAULT_LIMIT,
            r.sort_field is None,
            r.filter_expression@.len() == 0,
    {
        Query::new()
    }
}

} // verus!
