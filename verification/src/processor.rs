use vstd::prelude::*;

use crate::authority::{authority_of, derive_authority, upgrade_seed, upgrade_seed_bytes};
use crate::digest::{digest_of, keccak256};
use crate::error::GovernanceError;
use crate::registry::ConsumedRegistry;
use crate::validator::{handle_access_control, validate, DecreeView};

verus! {

/// The caller-supplied execution context of one upgrade attempt: the handles
/// the host resolved before invoking this core.
#[derive(Debug)]
pub struct UpgradeContract {
    /// Identity of the candidate new code; must match the decree.
    pub buffer: Vec<u8>,
    /// Identity of the running program being upgraded.
    pub program_id: Vec<u8>,
    /// The program's metadata handle, passed through to the invocation.
    pub program_data: Vec<u8>,
    /// Recipient of residual resources reclaimed by the upgrade.
    pub spill: Vec<u8>,
    /// The stored derivation proof of the privileged upgrade authority.
    pub authority_bump: u8,
}

impl UpgradeContract {
    /// All identities are in the native 32-byte format.
    pub open spec fn wf(&self) -> bool {
        &&& self.buffer@.len() == 32
        &&& self.program_id@.len() == 32
        &&& self.program_data@.len() == 32
        &&& self.spill@.len() == 32
    }

    /// The privileged authority this context's derivation proof reproduces.
    pub open spec fn authority(&self) -> Option<Seq<u8>> {
        authority_of(upgrade_seed(), self.authority_bump, self.program_id@)
    }
}

/// The fully-determined invocation of the privileged code-replacement
/// primitive that a validated decree authorizes. The host performs it
/// unchanged; nothing here is left for the host to decide.
#[derive(Debug)]
pub struct UpgradeInvocation {
    /// Identity of the program whose executable is replaced.
    pub program: Vec<u8>,
    /// The program's metadata handle.
    pub program_data: Vec<u8>,
    /// Identity of the new executable content.
    pub buffer: Vec<u8>,
    /// The derived privileged authority that signs the call.
    pub authority: Vec<u8>,
    /// The derivation proof the authority signs with.
    pub authority_bump: u8,
    /// Recipient of residual resources.
    pub spill: Vec<u8>,
}

/// The processor's decision on one attempt: the decree it validated, or the
/// exact rejection. A replayed envelope fails on its fingerprint before the
/// validator's business logic runs.
pub open spec fn outcome(consumed: Set<Seq<u8>>, env: Seq<u8>, target: Seq<u8>) -> Result<
    DecreeView,
    GovernanceError,
> {
    if crate::codec::header_wf(env) && consumed.contains(digest_of(env)) {
        Err(GovernanceError::AlreadyConsumed)
    } else {
        validate(env, target)
    }
}

/// The consumption records after one attempt: one new record exactly where
/// the attempt's decree validated, the old set untouched otherwise.
pub open spec fn next_consumed(consumed: Set<Seq<u8>>, env: Seq<u8>, target: Seq<u8>) -> Set<
    Seq<u8>,
> {
    if outcome(consumed, env, target) is Ok {
        consumed.insert(digest_of(env))
    } else {
        consumed
    }
}

/// Whether `inv` is the one invocation the context `accounts` and the decree
/// it validated authorize.
pub open spec fn invocation_for(
    inv: UpgradeInvocation,
    accounts: UpgradeContract,
    decree: DecreeView,
) -> bool {
    &&& inv.program@ == accounts.program_id@
    &&& inv.program_data@ == accounts.program_data@
    &&& inv.buffer@ == accounts.buffer@
    &&& inv.buffer@ == decree.target_code_reference
    &&& Some(inv.authority@) == accounts.authority()
    &&& inv.authority_bump == accounts.authority_bump
    &&& inv.spill@ == accounts.spill@
}

/// Processor for contract-upgrade governance decrees.
///
/// One attempt runs to completion: the envelope is fingerprinted and checked
/// against the consumption records, the decree is validated as an
/// access-control gate, and only then is the record created and the
/// privileged invocation produced. A rejection leaves the records untouched
/// and authorizes nothing; success records the envelope's fingerprint and
/// returns the invocation the host must perform. Should the host's
/// privileged call then fail, the record stands: a consumed envelope is
/// never retried.
pub fn upgrade_contract(
    registry: &mut ConsumedRegistry,
    vaa: &Vec<u8>,
    accounts: &UpgradeContract,
) -> (r: Result<UpgradeInvocation, GovernanceError>)
    requires
        accounts.wf(),
        accounts.authority() is Some,
    ensures
        final(registry)@ == next_consumed(old(registry)@, vaa@, accounts.buffer@),
        r matches Err(e) ==> outcome(old(registry)@, vaa@, accounts.buffer@) == Err::<
            DecreeView,
            GovernanceError,
        >(e),
        r is Ok <==> outcome(old(registry)@, vaa@, accounts.buffer@) is Ok,
        r matches Ok(inv) ==> invocation_for(
            inv,
            *accounts,
            outcome(old(registry)@, vaa@, accounts.buffer@)->Ok_0,
        ),
{
    // Header parse: a fingerprint is only taken of an envelope that loads.
    if vaa.len() < crate::codec::PAYLOAD_START || vaa[0] != crate::codec::ENVELOPE_VERSION {
        return Err(GovernanceError::MalformedEnvelope);
    }
    // Replay guard: a consumed fingerprint fails closed, before validation.
    let fingerprint = keccak256(vaa);
    if registry.contains(&fingerprint) {
        return Err(GovernanceError::AlreadyConsumed);
    }
    // Access control: the decree must validate before any record is staged.
    let decree = match handle_access_control(vaa, &accounts.buffer) {
        Ok(decree) => decree,
        Err(e) => {
            return Err(e);
        },
    };
    // Consume: create the record; validation passed and the fingerprint is
    // fresh, so creation cannot collide.
    let recorded = registry.record(fingerprint);
    assert(recorded is Ok);
    // Invoke: derive the privileged authority from its proof and hand back
    // the one invocation this decree authorizes.
    let seed = upgrade_seed_bytes();
    let authority = match derive_authority(&seed, accounts.authority_bump, &accounts.program_id) {
        Some(key) => key,
        None => unreached(),
    };
    Ok(
        UpgradeInvocation {
            program: clone_bytes(&accounts.program_id),
            program_data: clone_bytes(&accounts.program_data),
            buffer: decree.target_code_reference,
            authority,
            authority_bump: accounts.authority_bump,
            spill: clone_bytes(&accounts.spill),
        },
    )
}

/// Processes one upgrade attempt from a context whose derivation proof has
/// not been checked: where the proof reproduces no authority the attempt is
/// refused outright as `None`, with no record created; otherwise the result
/// is exactly that of [`upgrade_contract`].
pub fn process_upgrade(
    registry: &mut ConsumedRegistry,
    vaa: &Vec<u8>,
    accounts: &UpgradeContract,
) -> (r: Option<Result<UpgradeInvocation, GovernanceError>>)
    requires
        accounts.wf(),
    ensures
        r is None <==> accounts.authority() is None,
        r is None ==> final(registry)@ == old(registry)@,
        r matches Some(res) ==> final(registry)@ == next_consumed(
            old(registry)@,
            vaa@,
            accounts.buffer@,
        ),
        r matches Some(res) ==> (res matches Err(e) ==> outcome(
            old(registry)@,
            vaa@,
            accounts.buffer@,
        ) == Err::<DecreeView, GovernanceError>(e)),
        r matches Some(res) ==> (res is Ok <==> outcome(
            old(registry)@,
            vaa@,
            accounts.buffer@,
        ) is Ok),
        r matches Some(res) ==> (res matches Ok(inv) ==> invocation_for(
            inv,
            *accounts,
            outcome(old(registry)@, vaa@, accounts.buffer@)->Ok_0,
        )),
{
    let seed = upgrade_seed_bytes();
    match derive_authority(&seed, accounts.authority_bump, &accounts.program_id) {
        Some(_) => Some(upgrade_contract(registry, vaa, accounts)),
        None => None,
    }
}

/// A copy of the bytes of `v`.
fn clone_bytes(v: &Vec<u8>) -> (r: Vec<u8>)
    ensures
        r@ == v@,
{
    crate::bytes::read_bytes(v, 0, v.len())
}

} // verus!
