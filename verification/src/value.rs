//! Amounts of a denomination, as dispensed to each address.

use vstd::prelude::*;

verus! {

/// An amount of one denomination.
#[derive(Debug)]
pub struct Value {
    pub amount: u64,
    pub denom: String,
}

impl Clone for Value {
    fn clone(&self) -> (r: Value)
        ensures
            r == *self,
    {
        Value { amount: self.amount, denom: self.denom.clone() }
    }
}

} // verus!
