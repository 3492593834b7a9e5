//! The registry of signers and their roles, capped at a hundred.

use vstd::prelude::*;
use crate::bytes::{all_zero, bytes_equal, is_all_zero};
use crate::error::GameError;

verus! {

/// What a registered signer may act as.
#[derive(Clone, Copy, Debug, PartialEq, Eq, Structural)]
pub enum SignerRole {
    Coordinator,
    Validator,
    Authority,
}

/// The most signers that the registry holds.
pub const MAX_SIGNERS: usize = 100;

/// The registry of signers.
#[derive(Debug)]
pub struct SignerRegistry {
    /// The signers, in the order in which they were registered.
    pub signers: Vec<[u8; 32]>,
    /// The role of each signer, in the same order.
    pub roles: Vec<SignerRole>,
    /// The identity that may register signers; all zero while the registry
    /// is not initialized.
    pub authority: [u8; 32],
}

/// The index of the first of `signers` that equals `key`, or the length.
pub open spec fn signer_position(signers: Seq<[u8; 32]>, key: Seq<u8>) -> int
    decreases signers.len(),
{
    if signers.len() == 0 {
        0
    } else if signers[0]@ == key {
        0
    } else {
        1 + signer_position(signers.drop_first(), key)
    }
}

/// What `signer_position` returns: the first index that holds `key`.
pub proof fn lemma_signer_position(signers: Seq<[u8; 32]>, key: Seq<u8>)
    ensures
        0 <= signer_position(signers, key) <= signers.len(),
        forall|j: int| 0 <= j < signer_position(signers, key) ==> (#[trigger] signers[j])@ != key,
        signer_position(signers, key) < signers.len() ==> signers[signer_position(signers, key)]@
            == key,
    decreases signers.len(),
{
    if signers.len() > 0 && signers[0]@ != key {
        let t = signers.drop_first();
        lemma_signer_position(t, key);
        assert forall|j: int| 0 <= j < signer_position(signers, key) implies (#[trigger] signers[j])@
            != key by {
            if j > 0 {
                assert(signers[j] == t[j - 1]);
            }
        }
    }
}

/// An index that holds `key`, with none before it that does, is its
/// position.
pub proof fn lemma_signer_position_is(signers: Seq<[u8; 32]>, key: Seq<u8>, k: int)
    requires
        0 <= k <= signers.len(),
        forall|j: int| 0 <= j < k ==> (#[trigger] signers[j])@ != key,
        k < signers.len() ==> signers[k]@ == key,
    ensures
        signer_position(signers, key) == k,
{
    lemma_signer_position(signers, key);
    let p = signer_position(signers, key);
    if p < k {
        assert(signers[p]@ != key);
    } else if k < p {
        assert(signers[k]@ != key);
    }
}

impl SignerRegistry {
    /// The byte-size ceiling of a stored registry.
    pub const MAX_SIZE: usize = 8 + 4 + (32 * 100) + 4 + (1 * 100) + 32;

    /// The invariant of the registry: a role per signer, at most a hundred
    /// signers, none twice.
    pub open spec fn wf(&self) -> bool {
        &&& self.signers@.len() == self.roles@.len()
        &&& self.signers@.len() <= MAX_SIGNERS
        &&& forall|i: int, j: int|
            0 <= i < j < self.signers@.len() ==> self.signers@[i]@ != self.signers@[j]@
    }

    /// Whether `key` is registered.
    pub open spec fn has_signer(&self, key: Seq<u8>) -> bool {
        signer_position(self.signers@, key) < self.signers@.len()
    }

    /// Whether an authority is set.
    pub open spec fn initialized(&self) -> bool {
        !all_zero(self.authority@)
    }

    /// An empty registry without an authority.
    pub fn new() -> (r: SignerRegistry)
        ensures
            r.wf(),
            !r.initialized(),
            r.signers@.len() == 0,
    {
        SignerRegistry { signers: Vec::new(), roles: Vec::new(), authority: [0u8; 32] }
    }

    /// Whether an authority is set.
    pub fn is_initialized(&self) -> (r: bool)
        ensures
            r == self.initialized(),
    {
        !is_all_zero(&self.authority)
    }

    /// Sets the authority of a registry that has none and empties it.
    /// Returns whether it did; an initialized registry is left as it is.
    pub fn initialize(&mut self, authority: [u8; 32]) -> (done: bool)
        ensures
            done == !old(self).initialized(),
            done ==> final(self).authority == authority && final(self).signers@.len() == 0
                && final(self).roles@.len() == 0 && final(self).wf(),
            !done ==> *final(self) == *old(self),
    {
        if self.is_initialized() {
            return false;
        }
        self.authority = authority;
        self.signers = Vec::new();
        self.roles = Vec::new();
        true
    }

    /// The index of `key` among the signers, or their number.
    fn position(&self, key: &[u8; 32]) -> (r: usize)
        ensures
            r == signer_position(self.signers@, key@),
            r <= self.signers@.len(),
    {
        let mut i: usize = 0;
        while i < self.signers.len()
            invariant
                i <= self.signers@.len(),
                forall|j: int| 0 <= j < i ==> (#[trigger] self.signers@[j])@ != key@,
            decreases self.signers@.len() - i,
        {
            if bytes_equal(&self.signers[i], key) {
                proof {
                    lemma_signer_position_is(self.signers@, key@, i as int);
                }
                return i;
            }
            i += 1;
        }
        proof {
            lemma_signer_position_is(self.signers@, key@, i as int);
        }
        i
    }

    /// Tests the invariant at run time.
    pub fn is_well_formed(&self) -> (r: bool)
        ensures
            r == self.wf(),
    {
        if self.signers.len() != self.roles.len() || self.signers.len() > MAX_SIGNERS {
            return false;
        }
        let mut j: usize = 0;
        while j < self.signers.len()
            invariant
                j <= self.signers@.len(),
                forall|a: int, b: int| 0 <= a < b < j ==> self.signers@[a]@ != self.signers@[b]@,
            decreases self.signers@.len() - j,
        {
            let p = self.position(&self.signers[j]);
            proof {
                lemma_signer_position(self.signers@, self.signers@[j as int]@);
            }
            if p < j {
                return false;
            }
            j += 1;
        }
        true
    }

    /// Whether `pubkey` is registered.
    pub fn is_authorized(&self, pubkey: &[u8; 32]) -> (r: bool)
        ensures
            r == self.has_signer(pubkey@),
    {
        self.position(pubkey) < self.signers.len()
    }

    /// The role of `pubkey`, if it is registered and has one on record.
    pub fn get_role(&self, pubkey: &[u8; 32]) -> (r: Option<SignerRole>)
        ensures
            ({
                let p = signer_position(self.signers@, pubkey@);
                if p < self.signers@.len() && p < self.roles@.len() {
                    r == Some(self.roles@[p])
                } else {
                    r is None
                }
            }),
    {
        let p = self.position(pubkey);
        if p < self.signers.len() && p < self.roles.len() {
            Some(self.roles[p])
        } else {
            None
        }
    }

    /// Registers a signer with a role. Refused, and nothing changed, when
    /// the signer is registered already or the registry is full.
    pub fn add_signer(&mut self, pubkey: [u8; 32], role: SignerRole) -> (r: Result<(), GameError>)
        requires
            old(self).wf(),
        ensures
            final(self).wf(),
            final(self).authority == old(self).authority,
            old(self).has_signer(pubkey@) ==> r == Err::<(), GameError>(
                GameError::SignerAlreadyExists,
            ) && *final(self) == *old(self),
            !old(self).has_signer(pubkey@) && old(self).signers@.len() >= MAX_SIGNERS ==> r == Err::<
                (),
                GameError,
            >(GameError::SignerRegistryFull) && *final(self) == *old(self),
            !old(self).has_signer(pubkey@) && old(self).signers@.len() < MAX_SIGNERS ==> r is Ok
                && final(self).signers@ == old(self).signers@.push(pubkey) && final(self).roles@
                == old(self).roles@.push(role),
    {
        if self.is_authorized(&pubkey) {
            return Err(GameError::SignerAlreadyExists);
        }
        if self.signers.len() >= MAX_SIGNERS {
            return Err(GameError::SignerRegistryFull);
        }
        proof {
            lemma_signer_position(self.signers@, pubkey@);
        }
        self.signers.push(pubkey);
        self.roles.push(role);
        Ok(())
    }

    /// Removes a signer and its role. Refused with `SignerNotFound`, and
    /// nothing changed, when the signer is not registered.
    pub fn remove_signer(&mut self, pubkey: &[u8; 32]) -> (r: Result<(), GameError>)
        requires
            old(self).wf(),
        ensures
            final(self).wf(),
            final(self).authority == old(self).authority,
            !old(self).has_signer(pubkey@) ==> r == Err::<(), GameError>(GameError::SignerNotFound)
                && *final(self) == *old(self),
            old(self).has_signer(pubkey@) ==> r is Ok && final(self).signers@ == old(
                self,
            ).signers@.remove(signer_position(old(self).signers@, pubkey@)) && final(self).roles@
                == old(self).roles@.remove(signer_position(old(self).signers@, pubkey@))
                && !final(self).has_signer(pubkey@),
    {
        let p = self.position(pubkey);
        if p >= self.signers.len() {
            return Err(GameError::SignerNotFound);
        }
        let ghost before = self.signers@;
        self.signers.remove(p);
        self.roles.remove(p);
        proof {
            let after = self.signers@;
            lemma_signer_position(before, pubkey@);
            assert forall|j: int| 0 <= j < after.len() implies (#[trigger] after[j])@ != pubkey@ by {
                if j < p {
                    assert(after[j] == before[j]);
                } else {
                    assert(after[j] == before[j + 1]);
                    assert(before[p as int]@ != before[j + 1]@);
                }
            }
            lemma_signer_position_is(after, pubkey@, after.len() as int);
            assert forall|i: int, j: int| 0 <= i < j < after.len() implies after[i]@ != after[j]@ by {
                let a = if i < p { i } else { i + 1 };
                let b = if j < p { j } else { j + 1 };
                assert(after[i] == before[a] && after[j] == before[b]);
            }
        }
        Ok(())
    }
}

} // verus!
