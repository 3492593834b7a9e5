//! Registering a signer.

use vstd::prelude::*;
use crate::bytes::bytes_equal;
use crate::error::GameError;
use crate::state::signer_registry::{SignerRegistry, SignerRole, MAX_SIGNERS};

verus! {

/// The role that a code stands for, if any.
pub open spec fn role_of(code: u8) -> Option<SignerRole> {
    if code == 0 {
        Some(SignerRole::Coordinator)
    } else if code == 1 {
        Some(SignerRole::Validator)
    } else if code == 2 {
        Some(SignerRole::Authority)
    } else {
        None
    }
}

/// Whether `caller` may register `pubkey`: the registry is initialized
/// and the caller is its authority, the role code is known, the signer is
/// new and the registry has room.
pub open spec fn register_signer_check(registry: SignerRegistry, caller: [u8; 32], pubkey: [u8; 32], role: u8) -> Result<
    (),
    GameError,
> {
    if !registry.initialized() || registry.authority@ != caller@ {
        Err(GameError::Unauthorized)
    } else if role_of(role) is None {
        Err(GameError::InvalidAction)
    } else if registry.has_signer(pubkey@) {
        Err(GameError::SignerAlreadyExists)
    } else if registry.signers@.len() >= MAX_SIGNERS {
        Err(GameError::SignerRegistryFull)
    } else {
        Ok(())
    }
}

/// Registers `pubkey` with a role. Only the authority of an initialized
/// registry may; a registry is initialized by `SignerRegistry::initialize`,
/// never by this call.
pub fn handler(registry: &mut SignerRegistry, caller: [u8; 32], pubkey: [u8; 32], role: u8) -> (r:
    Result<(), GameError>)
    requires
        old(registry).wf(),
    ensures
        final(registry).wf(),
        match register_signer_check(*old(registry), caller, pubkey, role) {
            Ok(_) => {
                &&& r is Ok
                &&& final(registry).authority == old(registry).authority
                &&& final(registry).signers@ == old(registry).signers@.push(pubkey)
                &&& final(registry).roles@ == old(registry).roles@.push(role_of(role)->0)
            },
            Err(e) => r is Err && r->Err_0 == e && *final(registry) == *old(registry),
        },
{
    if !registry.is_initialized() || !bytes_equal(&registry.authority, &caller) {
        return Err(GameError::Unauthorized);
    }
    let signer_role = match role {
        0 => SignerRole::Coordinator,
        1 => SignerRole::Validator,
        2 => SignerRole::Authority,
        _ => {
            return Err(GameError::InvalidAction);
        },
    };
    registry.add_signer(pubkey, signer_role)
}

} // verus!
