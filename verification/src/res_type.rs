//! The `restype` query parameter of storage requests.

use vstd::prelude::*;

verus! {

/// The kind of resource that a storage request addresses.
#[derive(Debug, Clone, Copy, PartialEq, Eq, Structural)]
pub enum ResType {
    Container,
}

impl ResType {
    /// The spelling of this resource kind as the value of the `restype`
    /// query parameter.
    pub open spec fn spelling(self) -> Seq<char> {
        match self {
            ResType::Container => "container"@,
        }
    }

    /// The value to send for the `restype` query parameter.
    pub fn to_str(&self) -> (name: &str)
        ensures
            name@ == self.spelling(),
    {
        match self {
            ResType::Container => "container",
        }
    }
}

} // verus!
