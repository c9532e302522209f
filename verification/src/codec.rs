use vstd::prelude::*;

use crate::bytes::be_u16_at;

verus! {

/// Version byte every governance envelope must carry.
pub const ENVELOPE_VERSION: u8 = 1;

/// Identifier of the chain the governance emitter lives on.
pub const GOVERNANCE_CHAIN: u16 = 1;

/// Identifier of this deployment; a decree must name it to be actionable here.
pub const DEPLOYMENT_CHAIN: u16 = 1;

/// Action discriminator of a contract-upgrade decree.
pub const ACTION_UPGRADE: u8 = 3;

/// Offset of the governance payload inside the envelope: one version byte,
/// two emitter-chain bytes, a 32-byte emitter address and an 8-byte sequence.
pub const PAYLOAD_START: usize = 43;

/// Total length of an envelope whose payload is a contract-upgrade decree:
/// the 43-byte header, a 32-byte module, one action byte, two target-chain
/// bytes and a 32-byte code reference.
pub const UPGRADE_ENVELOPE_LEN: usize = 110;

/// The fixed emitter address decrees must come from: 31 zero bytes then 4.
pub open spec fn governance_emitter() -> Seq<u8> {
    Seq::new(32, |i: int| if i == 31 { 4u8 } else { 0u8 })
}

/// The 32-byte module header of this deployment's governance family:
/// the ASCII bytes of "CircleIntegration", left-padded with zeros.
pub open spec fn governance_module() -> Seq<u8> {
    seq![
        0u8, 0, 0, 0, 0, 0, 0, 0, 0, 0, 0, 0, 0, 0, 0, 67, 105, 114, 99, 108, 101, 73, 110, 116,
        101, 103, 114, 97, 116, 105, 111, 110,
    ]
}

/// The bytes of [`governance_emitter`], for runtime comparison.
pub fn governance_emitter_bytes() -> (r: Vec<u8>)
    ensures
        r@ == governance_emitter(),
{
    let mut v: Vec<u8> = Vec::new();
    let mut i: usize = 0;
    while i < 31
        invariant
            i <= 31,
            v@.len() == i,
            forall|j: int| 0 <= j < i ==> v@[j] == 0u8,
        decreases 31 - i,
    {
        v.push(0u8);
        i += 1;
    }
    v.push(4u8);
    assert(v@ =~= governance_emitter());
    v
}

/// The bytes of [`governance_module`], for runtime comparison.
pub fn governance_module_bytes() -> (r: Vec<u8>)
    ensures
        r@ == governance_module(),
{
    let mut v: Vec<u8> = Vec::new();
    let mut i: usize = 0;
    while i < 15
        invariant
            i <= 15,
            v@.len() == i,
            forall|j: int| 0 <= j < i ==> v@[j] == 0u8,
        decreases 15 - i,
    {
        v.push(0u8);
        i += 1;
    }
    v.push(67u8);
    v.push(105u8);
    v.push(114u8);
    v.push(99u8);
    v.push(108u8);
    v.push(101u8);
    v.push(73u8);
    v.push(110u8);
    v.push(116u8);
    v.push(101u8);
    v.push(103u8);
    v.push(114u8);
    v.push(97u8);
    v.push(116u8);
    v.push(105u8);
    v.push(111u8);
    v.push(110u8);
    assert(v@ =~= governance_module());
    v
}

/// Whether the envelope header parses: long enough to hold version, emitter
/// and sequence, and carrying the supported version byte.
pub open spec fn header_wf(env: Seq<u8>) -> bool {
    env.len() >= PAYLOAD_START && env[0] == ENVELOPE_VERSION
}

/// The chain the envelope's emitter lives on.
pub open spec fn emitter_chain_of(env: Seq<u8>) -> int
    recommends
        header_wf(env),
{
    be_u16_at(env, 1)
}

/// The envelope's 32-byte emitter address.
pub open spec fn emitter_of(env: Seq<u8>) -> Seq<u8>
    recommends
        header_wf(env),
{
    env.subrange(3, 35)
}

/// The 32-byte module header of the governance payload.
pub open spec fn module_of(env: Seq<u8>) -> Seq<u8>
    recommends
        env.len() >= PAYLOAD_START + 32,
{
    env.subrange(PAYLOAD_START as int, PAYLOAD_START + 32)
}

/// The governance action discriminator of the payload.
pub open spec fn action_of(env: Seq<u8>) -> u8
    recommends
        env.len() >= PAYLOAD_START + 33,
{
    env[PAYLOAD_START + 32]
}

/// The deployment the decree targets.
pub open spec fn target_chain_of(env: Seq<u8>) -> int
    recommends
        env.len() >= PAYLOAD_START + 35,
{
    be_u16_at(env, PAYLOAD_START + 33)
}

/// The 32-byte code reference the upgrade decree authorizes.
pub open spec fn code_ref_of(env: Seq<u8>) -> Seq<u8>
    recommends
        env.len() >= UPGRADE_ENVELOPE_LEN,
{
    env.subrange(PAYLOAD_START + 35, UPGRADE_ENVELOPE_LEN as int)
}

/// Whether the envelope belongs to the recognized governance family: its
/// payload is long enough to carry a governance header, its emitter is the
/// fixed governance emitter, and its module header is this deployment's.
pub open spec fn is_governance(env: Seq<u8>) -> bool {
    &&& env.len() >= PAYLOAD_START + 35
    &&& emitter_chain_of(env) == GOVERNANCE_CHAIN
    &&& emitter_of(env) == governance_emitter()
    &&& module_of(env) == governance_module()
}

} // verus!
