use vstd::prelude::*;

verus! {

/// The seed label under which the privileged upgrade authority is derived.
pub open spec fn upgrade_seed() -> Seq<u8> {
    seq![117u8, 112, 103, 114, 97, 100, 101]
}

/// The bytes of [`upgrade_seed`]: the ASCII label "upgrade".
pub fn upgrade_seed_bytes() -> (r: Vec<u8>)
    ensures
        r@ == upgrade_seed(),
{
    let mut v: Vec<u8> = Vec::new();
    v.push(117u8);
    v.push(112u8);
    v.push(103u8);
    v.push(114u8);
    v.push(97u8);
    v.push(100u8);
    v.push(101u8);
    assert(v@ =~= upgrade_seed());
    v
}

/// The program address derived from a seed label, a bump byte and a program
/// identity, or nothing where no valid address exists for that bump. The
/// derivation is a pure function of its arguments; its value is stated
/// nowhere, so every contract over it goes through this name.
pub uninterp spec fn authority_of(label: Seq<u8>, bump: u8, program_id: Seq<u8>) -> Option<
    Seq<u8>,
>;

/// Relies on solana_program::pubkey::Pubkey::create_program_address: the
/// program-derived address for the given seeds, a pure function of the seeds
/// and the program identity, 32 bytes long when it exists; `Err` exactly
/// where the derivation yields no valid address for this bump.
#[verifier::external_body]
pub(crate) fn derive_authority(label: &Vec<u8>, bump: u8, program_id: &Vec<u8>) -> (r: Option<Vec<u8>>)
    requires
        label@.len() <= 32,
        program_id@.len() == 32,
    ensures
        r matches Some(k) ==> authority_of(label@, bump, program_id@) == Some(k@) && k@.len()
            == 32,
        r is None ==> authority_of(label@, bump, program_id@) is None,
{
    let pid = solana_program::pubkey::Pubkey::from(
        <[u8; 32]>::try_from(program_id.as_slice()).unwrap(),
    );
    match solana_program::pubkey::Pubkey::create_program_address(
        &[label.as_slice(), &[bump]],
        &pid,
    ) {
        Ok(key) => Some(key.to_bytes().to_vec()),
        Err(_) => None,
    }
}

} // verus!
