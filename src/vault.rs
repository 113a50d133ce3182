use vstd::prelude::*;
use crate::pubkey::Pubkey;

verus! {

/// The address that the ledger derives from `seeds` under the program
/// `program_id`, or `None` when the derived bytes are not a valid program
/// address.
pub uninterp spec fn program_address(seeds: Seq<Seq<u8>>, program_id: Seq<u8>) -> Option<Seq<u8>>;

/// The seeds of a registrar's vault authority: the registrar's key, then the
/// nonce.
pub open spec fn signer_seeds_spec(registrar: Pubkey, nonce: u8) -> Seq<Seq<u8>> {
    seq![registrar.bytes(), seq![nonce]]
}

pub fn signer_seeds(registrar: &Pubkey, nonce: u8) -> (r: Vec<Vec<u8>>)
    ensures
        r.deep_view() == signer_seeds_spec(*registrar, nonce),
        r@.len() == 2,
        r@[0]@.len() == 32,
        r@[1]@.len() == 1,
{
    let mut key: Vec<u8> = Vec::new();
    let mut i: usize = 0;
    while i < 32
        invariant
            0 <= i <= 32,
            registrar.0@.len() == 32,
            key@ == registrar.0@.subrange(0, i as int),
        decreases 32 - i,
    {
        key.push(registrar.0[i]);
        i = i + 1;
    }
    assert(key@ =~= registrar.bytes());
    let n = vec![nonce];
    assert(key.deep_view() =~= registrar.bytes());
    assert(n.deep_view() =~= seq![nonce]);
    let r = vec![key, n];
    assert(r.deep_view() =~= signer_seeds_spec(*registrar, nonce));
    r
}

/// Relies on solana_program's `Pubkey::create_program_address`: for at most
/// 16 seeds of at most 32 bytes each, it hashes the seeds and the program id
/// and gives the hash as an address, or an error when the hash is a point of
/// the ed25519 curve. Either outcome depends on its arguments alone.
#[verifier::external_body]
fn create_program_address(seeds: &Vec<Vec<u8>>, program_id: &Pubkey) -> (r: Option<Pubkey>)
    requires
        seeds@.len() <= 16,
        forall|i: int| 0 <= i < seeds@.len() ==> (#[trigger] seeds@[i])@.len() <= 32,
    ensures
        match r {
            Some(k) => program_address(seeds.deep_view(), program_id.bytes()) == Some(k.bytes()),
            None => program_address(seeds.deep_view(), program_id.bytes()) is None,
        },
{
    let slices: Vec<&[u8]> = seeds.iter().map(|s| s.as_slice()).collect();
    let program = solana_program::pubkey::Pubkey::new_from_array(program_id.0);
    match solana_program::pubkey::Pubkey::create_program_address(&slices, &program) {
        Ok(k) => Some(Pubkey(k.to_bytes())),
        Err(_) => None,
    }
}

/// The authority of a registrar's vaults, derived from the registrar's key
/// and the nonce under the registry program; `None` when the nonce gives no
/// valid address.
pub fn vault_authority(registrar: &Pubkey, nonce: u8, program_id: &Pubkey) -> (r: Option<Pubkey>)
    ensures
        match r {
            Some(k) => program_address(signer_seeds_spec(*registrar, nonce), program_id.bytes())
                == Some(k.bytes()),
            None => program_address(signer_seeds_spec(*registrar, nonce), program_id.bytes()) is None,
        },
{
    let seeds = signer_seeds(registrar, nonce);
    assert forall|i: int| 0 <= i < seeds@.len() implies (#[trigger] seeds@[i])@.len() <= 32 by {
        assert(i == 0 || i == 1);
    }
    create_program_address(&seeds, program_id)
}

} // verus!
