use vstd::prelude::*;

use crate::address::Address;

verus! {

/// Who may perform a guarded operation.
pub enum Permission {
    /// Every sender.
    Anybody,
    /// Only the listed addresses.
    Specific { addresses: Vec<Address> },
}

impl Permission {
    /// Whether `address` may perform the guarded operation.
    pub open spec fn permits(&self, address: Address) -> bool {
        match self {
            Permission::Anybody => true,
            Permission::Specific { addresses } => addresses@.contains(address),
        }
    }

    /// Whether `address` may perform the guarded operation.
    pub fn is_permitted(&self, address: &Address) -> (r: bool)
        ensures
            r == self.permits(*address),
    {
        match self {
            Permission::Anybody => true,
            Permission::Specific { addresses } => {
                let mut i: usize = 0;
                while i < addresses.len()
                    invariant
                        0 <= i <= addresses.len(),
                        self.permits(*address) == addresses@.contains(*address),
                        forall|j: int| 0 <= j < i ==> addresses@[j] != *address,
                    decreases addresses.len() - i,
                {
                    if addresses[i].same_as(address) {
                        assert(addresses@[i as int] == *address);
                        assert(addresses@.contains(*address));
                        return true;
                    }
                    i = i + 1;
                }
                false
            },
        }
    }
}

} // verus!
