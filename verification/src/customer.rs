//! Customers, referenced by reservations.

use vstd::prelude::*;

verus! {

/// Identifier of a registered customer.
#[derive(Clone, Copy, Debug, PartialEq, Eq, Hash, Structural)]
pub struct CustomerId(pub u64);

impl Default for CustomerId {
    /// The zero id.
    fn default() -> (r: Self)
        ensures
            r == CustomerId(0),
    {
        CustomerId(0)
    }
}

/// A registered customer.
#[derive(Debug, PartialEq, Eq)]
pub struct Customer {
    pub id: u64,
    pub name: String,
}

impl Customer {
    /// A customer with the given id and name.
    pub fn new(id: u64, name: String) -> (r: Customer)
        ensures
            r.id == id,
            r.name == name,
    {
        Customer { id, name }
    }
}

} // verus!
