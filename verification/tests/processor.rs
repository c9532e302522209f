use governance_upgrade::{
    handle_access_control, process_upgrade, upgrade_contract, ConsumedRegistry, GovernanceError,
    UpgradeContract,
};

use solana_program::pubkey::Pubkey;

const MODULE: &[u8; 17] = b"CircleIntegration";

/// A governance envelope: version 1, emitter chain 1, the fixed governance
/// emitter, an 8-byte sequence, then module, action, target chain and body.
fn envelope(
    emitter_chain: u16,
    emitter: [u8; 32],
    module: [u8; 32],
    action: u8,
    target_chain: u16,
    body: &[u8],
) -> Vec<u8> {
    let mut v = vec![1u8];
    v.extend_from_slice(&emitter_chain.to_be_bytes());
    v.extend_from_slice(&emitter);
    v.extend_from_slice(&7u64.to_be_bytes());
    v.extend_from_slice(&module);
    v.push(action);
    v.extend_from_slice(&target_chain.to_be_bytes());
    v.extend_from_slice(body);
    v
}

fn governance_emitter() -> [u8; 32] {
    let mut e = [0u8; 32];
    e[31] = 4;
    e
}

fn governance_module() -> [u8; 32] {
    let mut m = [0u8; 32];
    m[15..].copy_from_slice(MODULE);
    m
}

fn upgrade_envelope(target_chain: u16, code: [u8; 32]) -> Vec<u8> {
    envelope(1, governance_emitter(), governance_module(), 3, target_chain, &code)
}

/// A program id together with a bump whose derivation under b"upgrade"
/// succeeds, found the way the platform finds program addresses.
fn working_authority() -> ([u8; 32], u8, [u8; 32]) {
    let program_id = Pubkey::new_from_array([9u8; 32]);
    let (authority, bump) = Pubkey::find_program_address(&[b"upgrade"], &program_id);
    (program_id.to_bytes(), bump, authority.to_bytes())
}

fn accounts_for(buffer: [u8; 32]) -> (UpgradeContract, [u8; 32]) {
    let (program_id, bump, authority) = working_authority();
    (
        UpgradeContract {
            buffer: buffer.to_vec(),
            program_id: program_id.to_vec(),
            program_data: [2u8; 32].to_vec(),
            spill: [3u8; 32].to_vec(),
            authority_bump: bump,
        },
        authority,
    )
}

#[test]
fn accepts_valid_decree_and_records_it() {
    let code = [0xAA; 32];
    let vaa = upgrade_envelope(1, code);
    let (accounts, authority) = accounts_for(code);
    let mut registry = ConsumedRegistry::new();

    let result = process_upgrade(&mut registry, &vaa, &accounts)
        .expect("derivation proof is valid")
        .expect("valid decree must be accepted");

    assert_eq!(result.program, accounts.program_id);
    assert_eq!(result.program_data, accounts.program_data);
    assert_eq!(result.buffer, code.to_vec());
    assert_eq!(result.spill, accounts.spill);
    assert_eq!(result.authority_bump, accounts.authority_bump);
    // The invocation signs with the authority the platform derives.
    assert_eq!(result.authority, authority.to_vec());
    // Exactly the envelope's content digest was recorded.
    let fingerprint = solana_program::keccak::hash(&vaa).to_bytes().to_vec();
    assert!(registry.contains(&fingerprint));
}

#[test]
fn replayed_envelope_fails_closed() {
    let code = [0xAA; 32];
    let vaa = upgrade_envelope(1, code);
    let (accounts, _) = accounts_for(code);
    let mut registry = ConsumedRegistry::new();

    assert!(upgrade_contract(&mut registry, &vaa, &accounts).is_ok());
    let replay = upgrade_contract(&mut registry, &vaa, &accounts);
    assert_eq!(replay.unwrap_err(), GovernanceError::AlreadyConsumed);
    // A replay with a different caller target fails the same way: the replay
    // guard runs before the validator's business logic.
    let (other_accounts, _) = accounts_for([0xCC; 32]);
    let replay = upgrade_contract(&mut registry, &vaa, &other_accounts);
    assert_eq!(replay.unwrap_err(), GovernanceError::AlreadyConsumed);
}

#[test]
fn decree_for_another_chain_is_rejected_without_record() {
    let code = [0xBB; 32];
    let vaa = upgrade_envelope(2, code);
    let (accounts, _) = accounts_for(code);
    let mut registry = ConsumedRegistry::new();

    let result = upgrade_contract(&mut registry, &vaa, &accounts);
    assert_eq!(result.unwrap_err(), GovernanceError::GovernanceForAnotherChain);
    let fingerprint = solana_program::keccak::hash(&vaa).to_bytes().to_vec();
    assert!(!registry.contains(&fingerprint));
    // Not consumed: the same decree against its own chain would still fail
    // the same way, not with the replay error.
    let again = upgrade_contract(&mut registry, &vaa, &accounts);
    assert_eq!(again.unwrap_err(), GovernanceError::GovernanceForAnotherChain);
}

#[test]
fn mismatched_target_is_rejected_without_record() {
    let vaa = upgrade_envelope(1, [0xAA; 32]);
    let (accounts, _) = accounts_for([0xCC; 32]);
    let mut registry = ConsumedRegistry::new();

    let result = upgrade_contract(&mut registry, &vaa, &accounts);
    assert_eq!(result.unwrap_err(), GovernanceError::ImplementationMismatch);
    let fingerprint = solana_program::keccak::hash(&vaa).to_bytes().to_vec();
    assert!(!registry.contains(&fingerprint));
}

#[test]
fn non_upgrade_action_is_rejected_before_any_record() {
    let mut registry = ConsumedRegistry::new();
    let (accounts, _) = accounts_for([0xAA; 32]);
    let vaa = envelope(1, governance_emitter(), governance_module(), 2, 1, &[0xAA; 32]);

    let result = upgrade_contract(&mut registry, &vaa, &accounts);
    assert_eq!(result.unwrap_err(), GovernanceError::InvalidGovernanceAction);
    let fingerprint = solana_program::keccak::hash(&vaa).to_bytes().to_vec();
    assert!(!registry.contains(&fingerprint));
}

#[test]
fn foreign_envelopes_are_not_governance() {
    let (accounts, _) = accounts_for([0xAA; 32]);
    let mut registry = ConsumedRegistry::new();

    // Wrong emitter chain.
    let vaa = envelope(5, governance_emitter(), governance_module(), 3, 1, &[0xAA; 32]);
    let r = upgrade_contract(&mut registry, &vaa, &accounts);
    assert_eq!(r.unwrap_err(), GovernanceError::NotAGovernanceMessage);

    // Wrong emitter address.
    let vaa = envelope(1, [7u8; 32], governance_module(), 3, 1, &[0xAA; 32]);
    let r = upgrade_contract(&mut registry, &vaa, &accounts);
    assert_eq!(r.unwrap_err(), GovernanceError::NotAGovernanceMessage);

    // Wrong module header.
    let vaa = envelope(1, governance_emitter(), [1u8; 32], 3, 1, &[0xAA; 32]);
    let r = upgrade_contract(&mut registry, &vaa, &accounts);
    assert_eq!(r.unwrap_err(), GovernanceError::NotAGovernanceMessage);
}

#[test]
fn malformed_envelopes_are_rejected() {
    let (accounts, _) = accounts_for([0xAA; 32]);
    let mut registry = ConsumedRegistry::new();

    // Too short to hold a header.
    let r = upgrade_contract(&mut registry, &vec![1u8, 0, 1], &accounts);
    assert_eq!(r.unwrap_err(), GovernanceError::MalformedEnvelope);

    // Unsupported version byte.
    let mut vaa = upgrade_envelope(1, [0xAA; 32]);
    vaa[0] = 2;
    let r = upgrade_contract(&mut registry, &vaa, &accounts);
    assert_eq!(r.unwrap_err(), GovernanceError::MalformedEnvelope);

    // Parses as governance and as an upgrade, but the body is truncated.
    let vaa = envelope(1, governance_emitter(), governance_module(), 3, 1, &[0xAA; 31]);
    let r = upgrade_contract(&mut registry, &vaa, &accounts);
    assert_eq!(r.unwrap_err(), GovernanceError::MalformedEnvelope);

    // Payload too short to carry a governance header at all.
    let mut vaa = vec![1u8];
    vaa.extend_from_slice(&1u16.to_be_bytes());
    vaa.extend_from_slice(&governance_emitter());
    vaa.extend_from_slice(&7u64.to_be_bytes());
    vaa.extend_from_slice(&[0u8; 10]);
    let r = upgrade_contract(&mut registry, &vaa, &accounts);
    assert_eq!(r.unwrap_err(), GovernanceError::NotAGovernanceMessage);
}

#[test]
fn access_control_decodes_the_decree() {
    let code = [0xAB; 32];
    let vaa = upgrade_envelope(1, code);
    let decree = handle_access_control(&vaa, &code.to_vec()).expect("valid decree");
    assert_eq!(decree.target_system_id, 1);
    assert_eq!(decree.target_code_reference, code.to_vec());

    let r = handle_access_control(&vaa, &[0xCD; 32].to_vec());
    assert_eq!(r.unwrap_err(), GovernanceError::ImplementationMismatch);
}

#[test]
fn distinct_envelopes_with_equal_decrees_are_independent() {
    // Two envelopes that differ only in their sequence bytes encode the same
    // logical decree but have distinct fingerprints: each is consumable once.
    let code = [0xAA; 32];
    let vaa_a = upgrade_envelope(1, code);
    let mut vaa_b = vaa_a.clone();
    vaa_b[40] = 99;
    let (accounts, _) = accounts_for(code);
    let mut registry = ConsumedRegistry::new();

    assert!(upgrade_contract(&mut registry, &vaa_a, &accounts).is_ok());
    assert!(upgrade_contract(&mut registry, &vaa_b, &accounts).is_ok());
    let r = upgrade_contract(&mut registry, &vaa_a, &accounts);
    assert_eq!(r.unwrap_err(), GovernanceError::AlreadyConsumed);
    let r = upgrade_contract(&mut registry, &vaa_b, &accounts);
    assert_eq!(r.unwrap_err(), GovernanceError::AlreadyConsumed);
}

#[test]
fn invalid_derivation_proof_is_refused_outright() {
    let code = [0xAA; 32];
    let vaa = upgrade_envelope(1, code);
    let program_id = Pubkey::new_from_array([9u8; 32]);
    let (_, good_bump) = Pubkey::find_program_address(&[b"upgrade"], &program_id);

    // A bump whose derivation fails at the platform level.
    let mut bad_bump = None;
    for bump in (0..=255u8).rev() {
        if Pubkey::create_program_address(&[b"upgrade", &[bump]], &program_id).is_err() {
            bad_bump = Some(bump);
            break;
        }
    }
    let bad_bump = bad_bump.expect("some bump fails derivation");
    assert_ne!(bad_bump, good_bump);

    let accounts = UpgradeContract {
        buffer: code.to_vec(),
        program_id: program_id.to_bytes().to_vec(),
        program_data: [2u8; 32].to_vec(),
        spill: [3u8; 32].to_vec(),
        authority_bump: bad_bump,
    };
    let mut registry = ConsumedRegistry::new();
    assert!(process_upgrade(&mut registry, &vaa, &accounts).is_none());
    // Nothing was consumed: the same envelope is still processable.
    let (good_accounts, _) = accounts_for(code);
    assert!(upgrade_contract(&mut registry, &vaa, &good_accounts).is_ok());
}
