//! The custody authority: keyless addresses derived from seeds and a nonce,
//! re-derived on every outbound transfer and compared with the account's
//! spending authority.
use vstd::prelude::*;

use anchor_lang::solana_program::pubkey::{Pubkey, PubkeyError};
use crate::state::{addresses_equal, Address, ErrorCode};

verus! {

#[verifier::external_type_specification]
#[verifier::external_body]
pub struct ExPubkeyError(PubkeyError);

/// The most seeds an address may be derived from.
pub const MAX_SEEDS: usize = 16;

/// The longest seed an address may be derived from.
pub const MAX_SEED_LEN: usize = 32;

/// The program address derived from `seeds` under `program_id`, or `None`
/// where the digest falls on the curve and so could have a private key.
pub uninterp spec fn program_address_of(seeds: Seq<Seq<u8>>, program_id: Seq<u8>) -> Option<Seq<u8>>;

/// The first bump from `bump` down to 1 for which `seeds` followed by the
/// bump give a program address, with that address.
pub open spec fn first_bump_from(seeds: Seq<Seq<u8>>, program_id: Seq<u8>, bump: u8) -> Option<(Seq<u8>, u8)>
    decreases bump,
{
    if bump == 0 {
        None
    } else {
        match program_address_of(seeds.push(seq![bump]), program_id) {
            Some(a) => Some((a, bump)),
            None => first_bump_from(seeds, program_id, (bump - 1) as u8),
        }
    }
}

/// The canonical program address of `seeds`: the first bump, counted down from
/// 255, for which `seeds` followed by the bump give a program address.
pub open spec fn canonical_address_of(seeds: Seq<Seq<u8>>, program_id: Seq<u8>) -> Option<(Seq<u8>, u8)> {
    first_bump_from(seeds, program_id, 255)
}

pub open spec fn seeds_view(seeds: Seq<Vec<u8>>) -> Seq<Seq<u8>> {
    seeds.map_values(|s: Vec<u8>| s@)
}

/// At most `max_seeds` seeds, none longer than the seed limit.
pub open spec fn seeds_within_limits(seeds: Seq<Seq<u8>>, max_seeds: int) -> bool {
    &&& seeds.len() <= max_seeds
    &&& forall|i: int| 0 <= i < seeds.len() ==> seeds[i].len() <= MAX_SEED_LEN
}

/// Relies on `Pubkey::create_program_address`: too many or too long seeds are
/// refused, and otherwise the result is the digest of the seeds and the program
/// id, refused where it lies on the curve.
#[verifier::external_body]
fn create_program_address(seeds: &Vec<Vec<u8>>, program_id: &Address) -> (r: Result<Address, PubkeyError>)
    ensures
        !seeds_within_limits(seeds_view(seeds@), MAX_SEEDS as int) ==> r is Err,
        seeds_within_limits(seeds_view(seeds@), MAX_SEEDS as int) ==> match r {
            Ok(a) => program_address_of(seeds_view(seeds@), program_id@) == Some(a@),
            Err(_) => program_address_of(seeds_view(seeds@), program_id@) is None,
        },
{
    let slices: Vec<&[u8]> = seeds.iter().map(|s| s.as_slice()).collect();
    Pubkey::create_program_address(&slices, &Pubkey::new_from_array(*program_id)).map(|k| k.to_bytes())
}

/// Relies on `Pubkey::try_find_program_address`: with room for the bump among
/// the seeds, it calls `create_program_address` on the seeds followed by each
/// bump from 255 down to 1 and returns the first address given; without that
/// room there is none.
#[verifier::external_body]
fn find_program_address(seeds: &Vec<Vec<u8>>, program_id: &Address) -> (r: Option<(Address, u8)>)
    ensures
        !seeds_within_limits(seeds_view(seeds@), MAX_SEEDS - 1) ==> r is None,
        seeds_within_limits(seeds_view(seeds@), MAX_SEEDS - 1) ==> match r {
            Some((a, b)) => canonical_address_of(seeds_view(seeds@), program_id@) == Some((a@, b)),
            None => canonical_address_of(seeds_view(seeds@), program_id@) is None,
        },
{
    Pubkey::try_find_program_address(
        &seeds.iter().map(|s| s.as_slice()).collect::<Vec<&[u8]>>(),
        &Pubkey::new_from_array(*program_id),
    ).map(|(k, b)| (k.to_bytes(), b))
}

/// Seed prefix of a board's custody address: `b"bounty_board"`.
pub open spec fn board_prefix() -> Seq<u8> {
    seq![98u8, 111u8, 117u8, 110u8, 116u8, 121u8, 95u8, 98u8, 111u8, 97u8, 114u8, 100u8]
}

/// Seed prefix of a bounty's address: `b"bounty"`.
pub open spec fn bounty_prefix() -> Seq<u8> {
    seq![98u8, 111u8, 117u8, 110u8, 116u8, 121u8]
}

/// Little-endian bytes of `n`, `k` of them.
pub open spec fn le_bytes(n: nat, k: nat) -> Seq<u8>
    decreases k,
{
    if k == 0 {
        Seq::empty()
    } else {
        seq![(n % 256) as u8] + le_bytes(n / 256, (k - 1) as nat)
    }
}

proof fn lemma_le_bytes_len(n: nat, k: nat)
    ensures
        le_bytes(n, k).len() == k,
    decreases k,
{
    if k > 0 {
        lemma_le_bytes_len(n / 256, (k - 1) as nat);
    }
}

/// Seeds of the custody address of the board of value unit `mint`.
pub open spec fn board_seeds(mint: Seq<u8>, bump: u8) -> Seq<Seq<u8>> {
    seq![board_prefix(), mint, seq![bump]]
}

/// Seeds of the address of the bounty numbered `index` on board `board_key`.
pub open spec fn bounty_seeds(board_key: Seq<u8>, index: u64) -> Seq<Seq<u8>> {
    seq![bounty_prefix(), board_key, le_bytes(index as nat, 8)]
}

fn address_bytes(a: &Address) -> (r: Vec<u8>)
    ensures
        r@ == a@,
{
    let mut r: Vec<u8> = Vec::new();
    let mut i: usize = 0;
    while i < 32
        invariant
            0 <= i <= 32,
            a@.len() == 32,
            r@ == a@.subrange(0, i as int),
        decreases 32 - i,
    {
        r.push(a[i]);
        i = i + 1;
    }
    proof {
        assert(r@ =~= a@);
    }
    r
}

/// The eight little-endian bytes of `n`.
pub fn u64_le_bytes(n: u64) -> (r: Vec<u8>)
    ensures
        r@ == le_bytes(n as nat, 8),
{
    let mut r: Vec<u8> = Vec::new();
    let mut v: u64 = n;
    let mut i: usize = 0;
    while i < 8
        invariant
            0 <= i <= 8,
            r@ + le_bytes(v as nat, (8 - i) as nat) == le_bytes(n as nat, 8),
        decreases 8 - i,
    {
        proof {
            let rest = le_bytes((v / 256) as nat, (8 - i - 1) as nat);
            assert(le_bytes(v as nat, (8 - i) as nat) == seq![(v % 256) as u8] + rest);
            assert(r@.push((v % 256) as u8) + rest =~= r@ + (seq![(v % 256) as u8] + rest));
        }
        r.push((v % 256) as u8);
        v = v / 256;
        i = i + 1;
    }
    proof {
        assert(r@ + le_bytes(v as nat, 0) =~= r@);
    }
    r
}

fn seed_list(a: Vec<u8>, b: Vec<u8>, c: Vec<u8>) -> (r: Vec<Vec<u8>>)
    ensures
        seeds_view(r@) == seq![a@, b@, c@],
{
    let r = vec![a, b, c];
    proof {
        assert(seeds_view(r@) =~= seq![a@, b@, c@]);
    }
    r
}

/// The seeds that sign for the custody address of the board of value unit
/// `mint` under nonce `bump`.
pub fn custody_seeds(mint: &Address, bump: u8) -> (r: Vec<Vec<u8>>)
    ensures
        seeds_view(r@) == board_seeds(mint@, bump),
{
    let prefix: Vec<u8> = vec![98u8, 111u8, 117u8, 110u8, 116u8, 121u8, 95u8, 98u8, 111u8, 97u8, 114u8, 100u8];
    let bump_seed: Vec<u8> = vec![bump];
    proof {
        assert(prefix@ =~= board_prefix());
        assert(bump_seed@ =~= seq![bump]);
    }
    let seeds = seed_list(prefix, address_bytes(mint), bump_seed);
    proof {
        assert(seeds_view(seeds@) =~= board_seeds(mint@, bump));
    }
    seeds
}

/// Derives the custody address of the board of value unit `mint` under nonce
/// `bump`; fails closed with `InvalidAccountConfig` where there is none.
pub fn custody_address(program_id: &Address, mint: &Address, bump: u8) -> (r: Result<Address, ErrorCode>)
    ensures
        match r {
            Ok(a) => program_address_of(board_seeds(mint@, bump), program_id@) == Some(a@),
            Err(e) => e == ErrorCode::InvalidAccountConfig
                && program_address_of(board_seeds(mint@, bump), program_id@) is None,
        },
{
    let seeds = custody_seeds(mint, bump);
    proof {
        assert(seeds_within_limits(seeds_view(seeds@), MAX_SEEDS as int));
    }
    match create_program_address(&seeds, program_id) {
        Ok(a) => Ok(a),
        Err(_) => Err(ErrorCode::InvalidAccountConfig),
    }
}

/// Finds the address and canonical bump of the bounty numbered `index` on
/// board `board_key`.
pub fn bounty_address(program_id: &Address, board_key: &Address, index: u64) -> (r: Option<(Address, u8)>)
    ensures
        match r {
            Some((a, b)) => canonical_address_of(bounty_seeds(board_key@, index), program_id@) == Some((a@, b)),
            None => canonical_address_of(bounty_seeds(board_key@, index), program_id@) is None,
        },
{
    let prefix: Vec<u8> = vec![98u8, 111u8, 117u8, 110u8, 116u8, 121u8];
    proof {
        assert(prefix@ =~= bounty_prefix());
        lemma_le_bytes_len(index as nat, 8);
    }
    let seeds = seed_list(prefix, address_bytes(board_key), u64_le_bytes(index));
    proof {
        assert(seeds_view(seeds@) =~= bounty_seeds(board_key@, index));
        assert(seeds_within_limits(seeds_view(seeds@), MAX_SEEDS - 1));
    }
    find_program_address(&seeds, program_id)
}

/// Whether `presented` is the custody address derived as `derived`: a missing
/// derivation or a mismatch fails closed.
pub fn check_custody(derived: &Result<Address, ErrorCode>, presented: &Address) -> (r: bool)
    ensures
        r == (match derived {
            Ok(a) => a@ == presented@,
            Err(_) => false,
        }),
{
    match derived {
        Ok(a) => addresses_equal(a, presented),
        Err(_) => false,
    }
}

} // verus!
