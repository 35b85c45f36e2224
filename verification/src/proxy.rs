//! The life of one upgradeable proxy: unbound, bound to a placeholder, bound
//! to its implementation.

use vstd::prelude::*;
use crate::address::Address;

verus! {

/// Where a proxy stands.
#[derive(Clone, Copy, Debug, PartialEq, Eq, Structural)]
pub enum ProxyState {
    /// No proxy contract exists yet.
    Unbound,
    /// The proxy forwards to a placeholder that does nothing.
    PlaceholderBound,
    /// The proxy forwards to its implementation; `initialized` tells whether
    /// the initializer has run.
    ImplementationBound { initialized: bool },
}

/// A proxy, the code it forwards to, and the only account that may change
/// that.
#[derive(Clone, Copy, Debug)]
pub struct ProxyBinding {
    pub state: ProxyState,
    pub proxy: Address,
    pub implementation: Address,
    pub admin: Address,
}

/// Why a transition was refused.
#[derive(Clone, Copy, Debug, PartialEq, Eq, Structural)]
pub enum ProxyError {
    /// The proxy must be bound first.
    NotBound,
    /// Only the admin may upgrade.
    NotAdmin,
    /// The proxy forwards to a placeholder, which has no initializer.
    NoImplementation,
    /// The initializer has run.
    AlreadyInitialized,
}

impl ProxyBinding {
    /// Whether the initializer has run.
    pub open spec fn initialized(&self) -> bool {
        self.state == (ProxyState::ImplementationBound { initialized: true })
    }

    /// What an upgrade by `caller` leads to.
    pub open spec fn upgrade_verdict(&self, caller: Address, initialize: bool) -> Result<
        (),
        ProxyError,
    > {
        if self.state is Unbound {
            Err(ProxyError::NotBound)
        } else if caller@ != self.admin@ {
            Err(ProxyError::NotAdmin)
        } else if initialize && self.initialized() {
            Err(ProxyError::AlreadyInitialized)
        } else {
            Ok(())
        }
    }

    /// What a call of the initializer leads to.
    pub open spec fn initialize_verdict(&self) -> Result<(), ProxyError> {
        match self.state {
            ProxyState::Unbound => Err(ProxyError::NotBound),
            ProxyState::PlaceholderBound => Err(ProxyError::NoImplementation),
            ProxyState::ImplementationBound { initialized } => if initialized {
                Err(ProxyError::AlreadyInitialized)
            } else {
                Ok(())
            },
        }
    }

    /// A new proxy at `proxy` that forwards to `placeholder` and obeys
    /// `admin`.
    pub fn bind_placeholder(proxy: Address, placeholder: Address, admin: Address) -> (result:
        ProxyBinding)
        ensures
            result.state is PlaceholderBound,
            result.proxy == proxy,
            result.implementation == placeholder,
            result.admin == admin,
    {
        ProxyBinding { state: ProxyState::PlaceholderBound, proxy, implementation: placeholder, admin }
    }

    /// A new proxy at `proxy` that forwards to `implementation` from the
    /// start and whose creation ran the initializer.
    pub fn bind_initialized(proxy: Address, implementation: Address, admin: Address) -> (result:
        ProxyBinding)
        ensures
            result.initialized(),
            result.proxy == proxy,
            result.implementation == implementation,
            result.admin == admin,
    {
        ProxyBinding {
            state: ProxyState::ImplementationBound { initialized: true },
            proxy,
            implementation,
            admin,
        }
    }

    /// Points the proxy at `implementation` on behalf of `caller`; with
    /// `initialize`, the same call runs the initializer. Refused, with the
    /// binding unchanged, unless the proxy is bound, the caller is its admin,
    /// and the initializer has not run where it is asked for.
    pub fn upgrade(&mut self, implementation: Address, caller: Address, initialize: bool) -> (result:
        Result<(), ProxyError>)
        ensures
            result == old(self).upgrade_verdict(caller, initialize),
            final(self).proxy == old(self).proxy,
            final(self).admin == old(self).admin,
            result is Err ==> *final(self) == *old(self),
            result is Ok ==> final(self).implementation == implementation && final(self).state == (
            ProxyState::ImplementationBound {
                initialized: initialize || old(self).initialized(),
            }),
    {
        let was_initialized = match self.state {
            ProxyState::Unbound => {
                return Err(ProxyError::NotBound);
            },
            ProxyState::PlaceholderBound => false,
            ProxyState::ImplementationBound { initialized } => initialized,
        };
        if caller != self.admin {
            return Err(ProxyError::NotAdmin);
        }
        if initialize && was_initialized {
            return Err(ProxyError::AlreadyInitialized);
        }
        self.implementation = implementation;
        self.state = ProxyState::ImplementationBound { initialized: initialize || was_initialized };
        Ok(())
    }

    /// Runs the initializer through the proxy. Refused, with the binding
    /// unchanged, unless the proxy forwards to an implementation whose
    /// initializer has not run.
    pub fn initialize(&mut self) -> (result: Result<(), ProxyError>)
        ensures
            result == old(self).initialize_verdict(),
            final(self).proxy == old(self).proxy,
            final(self).admin == old(self).admin,
            final(self).implementation == old(self).implementation,
            result is Err ==> *final(self) == *old(self),
            result is Ok ==> final(self).initialized(),
    {
        match self.state {
            ProxyState::Unbound => Err(ProxyError::NotBound),
            ProxyState::PlaceholderBound => Err(ProxyError::NoImplementation),
            ProxyState::ImplementationBound { initialized } => {
                if initialized {
                    Err(ProxyError::AlreadyInitialized)
                } else {
                    self.state = ProxyState::ImplementationBound { initialized: true };
                    Ok(())
                }
            },
        }
    }
}

/// The initializer runs at most once: on a proxy whose initializer has run,
/// neither a call of the initializer nor an upgrade that asks for it is
/// accepted.
pub proof fn initializer_runs_at_most_once(binding: ProxyBinding, caller: Address)
    requires
        binding.initialized(),
    ensures
        binding.initialize_verdict() is Err,
        binding.upgrade_verdict(caller, true) is Err,
{
}

} // verus!
