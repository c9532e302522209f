use vstd::prelude::*;

use crate::bytes::{bytes_eq, read_be_u16, read_bytes, region_matches};
use crate::codec::{
    action_of, code_ref_of, emitter_of, governance_emitter_bytes, governance_module_bytes,
    header_wf, is_governance, target_chain_of, ACTION_UPGRADE, DEPLOYMENT_CHAIN,
    ENVELOPE_VERSION, GOVERNANCE_CHAIN, PAYLOAD_START, UPGRADE_ENVELOPE_LEN,
};
use crate::error::GovernanceError;

verus! {

/// The mathematical content of a contract-upgrade decree.
pub struct DecreeView {
    /// Identifier of the deployment the decree targets.
    pub target_system_id: int,
    /// Identity of the new executable content the decree authorizes.
    pub target_code_reference: Seq<u8>,
}

/// A contract-upgrade decree extracted from a verified envelope.
#[derive(Debug)]
pub struct UpgradeDecree {
    /// Identifier of the deployment the decree targets.
    pub target_system_id: u16,
    /// Identity of the new executable content the decree authorizes.
    pub target_code_reference: Vec<u8>,
}

impl View for UpgradeDecree {
    type V = DecreeView;

    open spec fn view(&self) -> DecreeView {
        DecreeView {
            target_system_id: self.target_system_id as int,
            target_code_reference: self.target_code_reference@,
        }
    }
}

/// The decree validator's decision on an envelope and a caller-supplied
/// execution target: either the decoded decree or the exact rejection.
pub open spec fn validate(env: Seq<u8>, target: Seq<u8>) -> Result<DecreeView, GovernanceError> {
    if !header_wf(env) {
        Err(GovernanceError::MalformedEnvelope)
    } else if !is_governance(env) {
        Err(GovernanceError::NotAGovernanceMessage)
    } else if action_of(env) != ACTION_UPGRADE {
        Err(GovernanceError::InvalidGovernanceAction)
    } else if env.len() != UPGRADE_ENVELOPE_LEN {
        Err(GovernanceError::MalformedEnvelope)
    } else if target_chain_of(env) != DEPLOYMENT_CHAIN {
        Err(GovernanceError::GovernanceForAnotherChain)
    } else if code_ref_of(env) != target {
        Err(GovernanceError::ImplementationMismatch)
    } else {
        Ok(DecreeView {
            target_system_id: target_chain_of(env),
            target_code_reference: code_ref_of(env),
        })
    }
}

/// The [`validate`]-level reading of an executable validation result.
pub open spec fn result_view(r: Result<UpgradeDecree, GovernanceError>) -> Result<
    DecreeView,
    GovernanceError,
> {
    match r {
        Ok(d) => Ok(d@),
        Err(e) => Err(e),
    }
}

/// Access-control gate of the upgrade processor: decodes the envelope into a
/// contract-upgrade decree and checks it against this deployment's identity
/// and the caller-supplied execution target. It has no side effects; its
/// decision equals [`validate`] on every input.
pub fn handle_access_control(vaa: &Vec<u8>, target: &Vec<u8>) -> (r: Result<
    UpgradeDecree,
    GovernanceError,
>)
    ensures
        result_view(r) == validate(vaa@, target@),
{
    // Header: length and version.
    if vaa.len() < PAYLOAD_START || vaa[0] != ENVELOPE_VERSION {
        return Err(GovernanceError::MalformedEnvelope);
    }
    // Governance family: payload long enough for a governance header, the
    // fixed governance emitter, and this deployment's module header.
    if vaa.len() < PAYLOAD_START + 35 {
        return Err(GovernanceError::NotAGovernanceMessage);
    }
    let emitter_chain = read_be_u16(vaa, 1);
    let emitter = read_bytes(vaa, 3, 32);
    let expected_emitter = governance_emitter_bytes();
    let expected_module = governance_module_bytes();
    if emitter_chain != GOVERNANCE_CHAIN || !bytes_eq(&emitter, &expected_emitter)
        || !region_matches(vaa, PAYLOAD_START, &expected_module) {
        assert(!is_governance(vaa@));
        return Err(GovernanceError::NotAGovernanceMessage);
    }
    assert(emitter@ == emitter_of(vaa@));
    assert(is_governance(vaa@));
    // Action discriminator: only a contract upgrade may pass.
    if vaa[PAYLOAD_START + 32] != ACTION_UPGRADE {
        return Err(GovernanceError::InvalidGovernanceAction);
    }
    // Shape of the upgrade body: exactly one 32-byte code reference.
    if vaa.len() != UPGRADE_ENVELOPE_LEN {
        return Err(GovernanceError::MalformedEnvelope);
    }
    // Targeting: the decree must name this deployment.
    let target_chain = read_be_u16(vaa, PAYLOAD_START + 33);
    if target_chain != DEPLOYMENT_CHAIN {
        return Err(GovernanceError::GovernanceForAnotherChain);
    }
    // Match: the decree's code reference must equal the caller's target.
    let code_ref = read_bytes(vaa, PAYLOAD_START + 35, 32);
    assert(code_ref@ == code_ref_of(vaa@));
    if !bytes_eq(&code_ref, target) {
        return Err(GovernanceError::ImplementationMismatch);
    }
    Ok(UpgradeDecree { target_system_id: target_chain, target_code_reference: code_ref })
}

} // verus!
