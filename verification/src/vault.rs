use vstd::prelude::*;

use crate::errors::Error;
use crate::types::Principal;

verus! {

/// A minimal administrator registry: a single identity, set exactly once.
/// The auction contract's collaborators read it to learn who may operate the
/// vault.
pub struct ShimejiEscrowVault {
    /// The registered administrator, once `initialize` has run.
    pub registered_admin: Option<Principal>,
}

impl ShimejiEscrowVault {
    /// A fresh vault with no administrator registered.
    pub fn new() -> (vault: ShimejiEscrowVault)
        ensures
            vault.registered_admin is None,
    {
        ShimejiEscrowVault { registered_admin: None }
    }

    /// Registers the administrator exactly once; a second call is rejected
    /// and changes nothing.
    pub fn initialize(&mut self, admin: Principal) -> (r: Result<(), Error>)
        ensures
            old(self).registered_admin is Some ==> r == Err::<(), Error>(Error::AlreadyInitialized)
                && *final(self) == *old(self),
            old(self).registered_admin is None ==> r == Ok::<(), Error>(())
                && final(self).registered_admin == Some(admin),
    {
        if self.registered_admin.is_some() {
            return Err(Error::AlreadyInitialized);
        }
        self.registered_admin = Some(admin);
        Ok(())
    }

    /// The registered administrator, or `NotInitialized` before any
    /// registration.
    pub fn admin(&self) -> (r: Result<Principal, Error>)
        ensures
            self.registered_admin matches Some(a) ==> r == Ok::<Principal, Error>(a),
            self.registered_admin is None ==> r == Err::<Principal, Error>(Error::NotInitialized),
    {
        match &self.registered_admin {
            Some(a) => Ok(*a),
            None => Err(Error::NotInitialized),
        }
    }
}

} // verus!
