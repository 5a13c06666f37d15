//! Records that a program owns.

use vstd::prelude::*;
use crate::address::Address;

verus! {

/// A record of type `T` together with the address at which it is stored.
#[derive(Clone, Copy, Debug, PartialEq, Eq)]
pub struct Account<T> {
    /// The address of the record.
    pub key: Address,
    /// What the record holds.
    pub data: T,
}

} // verus!
