//! Deterministic addressing of ledger entries.

use anchor_lang::prelude::Pubkey;
use vstd::prelude::*;

verus! {

/// A 32-byte account identifier (an owner, an asset, a program or an address).
pub type Key = [u8; 32];

/// The address derived from a list of seeds under a program id, with its bump
/// seed, or `None` when no such address exists.
pub uninterp spec fn program_address(seeds: Seq<Seq<u8>>, program_id: Seq<u8>) -> Option<(Seq<u8>, u8)>;

/// The domain tag that prefixes the seeds of every deposit entry.
pub open spec fn deposit_tag() -> Seq<u8> {
    seq![100u8, 101u8, 112u8, 111u8, 115u8, 105u8, 116u8]
}

/// The seeds of the entry of `owner` for `asset`.
pub open spec fn deposit_seeds(owner: Seq<u8>, asset: Seq<u8>) -> Seq<Seq<u8>> {
    seq![deposit_tag(), owner, asset]
}

/// The address and bump of the entry of `owner` for `asset` under `program_id`.
pub open spec fn deposit_address(owner: Seq<u8>, asset: Seq<u8>, program_id: Seq<u8>) -> Option<(Seq<u8>, u8)> {
    program_address(deposit_seeds(owner, asset), program_id)
}

/// The domain tag as bytes: "deposit".
pub fn deposit_tag_bytes() -> (r: Vec<u8>)
    ensures
        r@ == deposit_tag(),
{
    let r: Vec<u8> = vec![100u8, 101u8, 112u8, 111u8, 115u8, 105u8, 116u8];
    assert(r@ =~= deposit_tag());
    r
}

/// Whether two keys hold the same bytes.
pub fn keys_equal(a: &Key, b: &Key) -> (r: bool)
    ensures
        r == (a@ == b@),
{
    let mut i: usize = 0;
    while i < 32
        invariant
            0 <= i <= 32,
            a@.len() == 32,
            b@.len() == 32,
            forall|j: int| 0 <= j < i ==> a@[j] == b@[j],
        decreases 32 - i,
    {
        if a[i] != b[i] {
            return false;
        }
        i = i + 1;
    }
    assert(a@ =~= b@);
    true
}

/// Relies on `Pubkey::try_find_program_address` of solana-pubkey (reached
/// through anchor-lang): the address and bump it finds for three seeds under a
/// program id, or `None`; the result depends on those values alone.
#[verifier::external_body]
fn try_find_program_address(seed0: &[u8], seed1: &[u8], seed2: &[u8], program_id: &Key) -> (r: Option<(Key, u8)>)
    ensures
        match r {
            Some(p) => program_address(seq![seed0@, seed1@, seed2@], program_id@) == Some((p.0@, p.1)),
            None => program_address(seq![seed0@, seed1@, seed2@], program_id@) is None,
        },
{
    let id = Pubkey::new_from_array(*program_id);
    match Pubkey::try_find_program_address(&[seed0, seed1, seed2], &id) {
        Some((k, bump)) => Some((k.to_bytes(), bump)),
        None => None,
    }
}

/// Derives the address and bump of the entry of `owner` for `asset`.
pub fn find_deposit_address(owner: &Key, asset: &Key, program_id: &Key) -> (r: Option<(Key, u8)>)
    ensures
        match r {
            Some(p) => deposit_address(owner@, asset@, program_id@) == Some((p.0@, p.1)),
            None => deposit_address(owner@, asset@, program_id@) is None,
        },
{
    let tag = deposit_tag_bytes();
    let r = try_find_program_address(tag.as_slice(), owner.as_slice(), asset.as_slice(), program_id);
    proof {
        assert(seq![tag@, owner@, asset@] =~= deposit_seeds(owner@, asset@));
    }
    r
}

} // verus!
