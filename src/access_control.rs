use vstd::prelude::*;
use crate::address::Address;
use crate::error::VaultError;

verus! {

/// The admin identity and pause switch that guard one subsystem. Created once;
/// only the admin toggles the pause flag, and nothing resets it implicitly.
#[derive(Clone, Copy, Debug, PartialEq, Eq, Structural)]
pub struct SystemState {
    pub admin: Address,
    pub is_paused: bool,
}

impl SystemState {
    /// A fresh, running subsystem owned by `admin`.
    pub fn initialize(admin: Address) -> (s: SystemState)
        ensures
            s.admin == admin,
            !s.is_paused,
    {
        SystemState { admin, is_paused: false }
    }

    /// Fails with `Unauthorized` unless `caller` is the admin.
    pub fn require_admin(&self, caller: Address) -> (r: Result<(), VaultError>)
        ensures
            r == (if caller == self.admin { Ok(()) } else { Err(VaultError::Unauthorized) }),
    {
        if caller == self.admin {
            Ok(())
        } else {
            Err(VaultError::Unauthorized)
        }
    }

    /// Fails with `SystemPaused` while the subsystem is paused.
    pub fn require_active(&self) -> (r: Result<(), VaultError>)
        ensures
            r == (if self.is_paused { Err(VaultError::SystemPaused) } else { Ok(()) }),
    {
        if self.is_paused {
            Err(VaultError::SystemPaused)
        } else {
            Ok(())
        }
    }

    /// Pauses the subsystem. Only the admin may do so, and only while running.
    pub fn pause_system(&mut self, caller: Address) -> (r: Result<(), VaultError>)
        ensures
            r == (if caller != old(self).admin {
                Err(VaultError::Unauthorized)
            } else if old(self).is_paused {
                Err(VaultError::AlreadyPaused)
            } else {
                Ok(())
            }),
            r is Ok ==> final(self).is_paused,
            r is Err ==> final(self).is_paused == old(self).is_paused,
            final(self).admin == old(self).admin,
    {
        self.require_admin(caller)?;
        if self.is_paused {
            return Err(VaultError::AlreadyPaused);
        }
        self.is_paused = true;
        Ok(())
    }

    /// Resumes the subsystem. Only the admin may do so, and only while paused.
    pub fn unpause_system(&mut self, caller: Address) -> (r: Result<(), VaultError>)
        ensures
            r == (if caller != old(self).admin {
                Err(VaultError::Unauthorized)
            } else if !old(self).is_paused {
                Err(VaultError::NotPaused)
            } else {
                Ok(())
            }),
            r is Ok ==> !final(self).is_paused,
            r is Err ==> final(self).is_paused == old(self).is_paused,
            final(self).admin == old(self).admin,
    {
        self.require_admin(caller)?;
        if !self.is_paused {
            return Err(VaultError::NotPaused);
        }
        self.is_paused = false;
        Ok(())
    }
}

} // verus!
