//! Program-derived addresses: the addresses of the accounts that hold an offer.
//!
//! A derived address is the hash of a list of seeds and of the program's own
//! address. It is valid only where that hash is no point of the signature
//! curve, so that no private key exists for it; a last seed of one byte, the
//! bump, is counted down from 255 until the hash is valid.

use vstd::prelude::*;
use anchor_lang::prelude::Pubkey;
use crate::address::Address;

verus! {

/// The largest number of seeds in one derivation.
pub const MAX_SEEDS: usize = 16;

/// The largest number of bytes in one seed.
pub const MAX_SEED_LEN: usize = 32;

/// The seed that marks the record of an offer: the word "escrow".
pub const ESCROW_SEED: [u8; 6] = [0x65, 0x73, 0x63, 0x72, 0x6f, 0x77];

/// The seed that marks the token custody of an offer: the word
/// "escrow_token".
pub const ESCROW_TOKEN_SEED: [u8; 12] = [
    0x65, 0x73, 0x63, 0x72, 0x6f, 0x77, 0x5f, 0x74, 0x6f, 0x6b, 0x65, 0x6e,
];

/// The seeds as a sequence of byte sequences.
pub open spec fn seeds_view(seeds: Seq<Vec<u8>>) -> Seq<Seq<u8>> {
    seeds.map_values(|seed: Vec<u8>| seed@)
}

/// No more than `MAX_SEEDS` seeds, none longer than `MAX_SEED_LEN` bytes.
pub open spec fn seeds_within_limits(seeds: Seq<Seq<u8>>) -> bool {
    &&& seeds.len() <= MAX_SEEDS
    &&& forall|i: int| 0 <= i < seeds.len() ==> (#[trigger] seeds[i]).len() <= MAX_SEED_LEN
}

/// The bytes that `Pubkey::create_program_address` derives from seeds within
/// the limits and a program's address; `None` where the hash is a point of the
/// curve and the seeds are therefore invalid.
pub uninterp spec fn program_address(seeds: Seq<Seq<u8>>, program_id: Seq<u8>) -> Option<Seq<u8>>;

/// The address with the given bytes.
pub closed spec fn address_of(bytes: Seq<u8>) -> Address {
    choose|address: Address| address.bytes@ == bytes
}

/// `address_of` gives an address back from its bytes.
pub proof fn lemma_address_of(address: Address)
    ensures
        address_of(address.bytes@) == address,
{
    let other = address_of(address.bytes@);
    assert(other.bytes@ == address.bytes@);
    assert(other.bytes =~= address.bytes);
}

/// The address derived from `seeds` for the program. `None` where the seeds
/// exceed the limits or are invalid.
pub open spec fn derived_address(seeds: Seq<Seq<u8>>, program_id: Address) -> Option<Address> {
    if seeds_within_limits(seeds) {
        match program_address(seeds, program_id.bytes@) {
            Some(bytes) => Some(address_of(bytes)),
            None => None,
        }
    } else {
        None
    }
}

/// The first valid derivation among the bumps `bump`, `bump - 1`, .., 1.
pub open spec fn bump_search(seeds: Seq<Seq<u8>>, program_id: Address, bump: nat) -> Option<
    (Address, u8),
>
    decreases bump,
{
    if bump == 0 {
        None
    } else {
        match derived_address(seeds.push(seq![bump as u8]), program_id) {
            Some(address) => Some((address, bump as u8)),
            None => bump_search(seeds, program_id, (bump - 1) as nat),
        }
    }
}

/// The derived address for `seeds` with the highest valid bump, and that bump.
/// `None` where the seeds with a bump exceed the limits or no bump from 255
/// down to 1 is valid.
pub open spec fn found_program_address(seeds: Seq<Seq<u8>>, program_id: Address) -> Option<
    (Address, u8),
> {
    bump_search(seeds, program_id, 255)
}

/// Seeds that leave no room for a bump derive nothing, whatever the bump.
proof fn lemma_no_room_no_address(seeds: Seq<Seq<u8>>, program_id: Address, start: nat)
    requires
        !seeds_within_limits(seeds.push(seq![0u8])),
    ensures
        bump_search(seeds, program_id, start) is None,
    decreases start,
{
    if start > 0 {
        let low = seeds.push(seq![0u8]);
        let high = seeds.push(seq![start as u8]);
        if seeds_within_limits(high) {
            assert forall|k: int| 0 <= k < low.len() implies (#[trigger] low[k]).len()
                <= MAX_SEED_LEN by {
                if k < seeds.len() {
                    assert(low[k] == high[k]);
                }
            }
        }
        lemma_no_room_no_address(seeds, program_id, (start - 1) as nat);
    }
}

/// Calls `Pubkey::create_program_address` of the Solana SDK. Trusted: for
/// seeds within the limits the call gives the bytes that `program_address`
/// names, and fails exactly where `program_address` is `None`.
#[verifier::external_body]
fn create_program_address_raw(seeds: &Vec<Vec<u8>>, program_id: &Address) -> (created: Option<
    Address,
>)
    requires
        seeds_within_limits(seeds_view(seeds@)),
    ensures
        match created {
            Some(address) => program_address(seeds_view(seeds@), program_id.bytes@) == Some(
                address.bytes@,
            ),
            None => program_address(seeds_view(seeds@), program_id.bytes@) is None,
        },
{
    let parts: Vec<&[u8]> = seeds.iter().map(|seed| seed.as_slice()).collect();
    match Pubkey::create_program_address(&parts, &Pubkey::new_from_array(program_id.bytes)) {
        Ok(key) => Some(Address { bytes: key.to_bytes() }),
        Err(_) => None,
    }
}

/// The address derived from `seeds`, which are within the limits.
fn derive_within_limits(seeds: &Vec<Vec<u8>>, program_id: &Address) -> (created: Option<Address>)
    requires
        seeds_within_limits(seeds_view(seeds@)),
    ensures
        created == derived_address(seeds_view(seeds@), *program_id),
{
    let created = create_program_address_raw(seeds, program_id);
    proof {
        if let Some(address) = created {
            lemma_address_of(address);
        }
    }
    created
}

/// Whether the seeds are within the limits.
fn within_limits(seeds: &Vec<Vec<u8>>) -> (fits: bool)
    ensures
        fits == seeds_within_limits(seeds_view(seeds@)),
{
    if seeds.len() > MAX_SEEDS {
        return false;
    }
    let mut i: usize = 0;
    while i < seeds.len()
        invariant
            i <= seeds.len(),
            forall|k: int| 0 <= k < i ==> (#[trigger] seeds@[k]).len() <= MAX_SEED_LEN,
        decreases seeds.len() - i,
    {
        if seeds[i].len() > MAX_SEED_LEN {
            proof {
                assert(seeds_view(seeds@)[i as int].len() > MAX_SEED_LEN);
            }
            return false;
        }
        i += 1;
    }
    proof {
        let view = seeds_view(seeds@);
        assert forall|k: int| 0 <= k < view.len() implies (#[trigger] view[k]).len()
            <= MAX_SEED_LEN by {
            assert(view[k] == seeds@[k]@);
        }
    }
    true
}

/// Derives the address of the program for `seeds` as they stand, without a
/// search for a bump, as `Pubkey::create_program_address` does. `None` where
/// the seeds exceed the limits or are invalid.
pub fn create_program_address(seeds: &Vec<Vec<u8>>, program_id: &Address) -> (created: Option<
    Address,
>)
    ensures
        created == derived_address(seeds_view(seeds@), *program_id),
{
    if !within_limits(seeds) {
        return None;
    }
    derive_within_limits(seeds, program_id)
}

/// A copy of the bytes of an array.
pub fn bytes_of<const N: usize>(bytes: &[u8; N]) -> (out: Vec<u8>)
    ensures
        out@ == bytes@,
{
    let mut out: Vec<u8> = Vec::new();
    let mut i: usize = 0;
    while i < N
        invariant
            i <= N,
            out@ == bytes@.take(i as int),
        decreases N - i,
    {
        out.push(bytes[i]);
        i += 1;
    }
    out
}

/// A copy of a byte vector.
fn copy_seed(seed: &Vec<u8>) -> (out: Vec<u8>)
    ensures
        out@ == seed@,
{
    let mut out: Vec<u8> = Vec::new();
    let mut i: usize = 0;
    while i < seed.len()
        invariant
            i <= seed.len(),
            out@ == seed@.take(i as int),
        decreases seed.len() - i,
    {
        out.push(seed[i]);
        i += 1;
    }
    out
}

/// The seeds followed by the bump as a seed of one byte.
fn with_bump(seeds: &Vec<Vec<u8>>, bump: u8) -> (out: Vec<Vec<u8>>)
    ensures
        seeds_view(out@) == seeds_view(seeds@).push(seq![bump]),
{
    let mut out: Vec<Vec<u8>> = Vec::new();
    let mut i: usize = 0;
    while i < seeds.len()
        invariant
            i <= seeds.len(),
            out@.len() == i,
            forall|k: int| 0 <= k < i ==> (#[trigger] out@[k])@ == seeds@[k]@,
        decreases seeds.len() - i,
    {
        let seed = copy_seed(&seeds[i]);
        out.push(seed);
        i += 1;
    }
    let mut last: Vec<u8> = Vec::new();
    last.push(bump);
    out.push(last);
    proof {
        assert(last@ =~= seq![bump]);
        assert(seeds_view(out@) =~= seeds_view(seeds@).push(seq![bump]));
    }
    out
}

/// Whether the seeds, with room left for a bump, are within the limits.
fn room_for_bump(seeds: &Vec<Vec<u8>>) -> (fits: bool)
    ensures
        fits == seeds_within_limits(seeds_view(seeds@).push(seq![0u8])),
{
    let fits = seeds.len() < MAX_SEEDS && within_limits(seeds);
    proof {
        let view = seeds_view(seeds@);
        let more = view.push(seq![0u8]);
        if fits {
            assert forall|k: int| 0 <= k < more.len() implies (#[trigger] more[k]).len()
                <= MAX_SEED_LEN by {
                if k < view.len() {
                    assert(more[k] == view[k]);
                }
            }
        } else if seeds_within_limits(more) {
            assert forall|k: int| 0 <= k < view.len() implies (#[trigger] view[k]).len()
                <= MAX_SEED_LEN by {
                assert(view[k] == more[k]);
            }
        }
    }
    fits
}

/// Searches the bumps from 255 down to 1 for the first with which `seeds`
/// derive a valid address of the program, as `Pubkey::try_find_program_address`
/// does. `None` where the seeds leave no room for a bump or no bump is valid.
/// The result depends on the seeds and the program alone.
pub fn find_program_address(seeds: &Vec<Vec<u8>>, program_id: &Address) -> (found: Option<
    (Address, u8),
>)
    ensures
        found == found_program_address(seeds_view(seeds@), *program_id),
{
    if !room_for_bump(seeds) {
        proof {
            lemma_no_room_no_address(seeds_view(seeds@), *program_id, 255);
        }
        return None;
    }
    let ghost view = seeds_view(seeds@);
    let mut bump: u8 = 255;
    while bump > 0
        invariant
            view == seeds_view(seeds@),
            seeds_within_limits(view.push(seq![0u8])),
            bump_search(view, *program_id, bump as nat) == bump_search(view, *program_id, 255),
        decreases bump,
    {
        let candidate = with_bump(seeds, bump);
        proof {
            let low = view.push(seq![0u8]);
            let high = view.push(seq![bump]);
            assert forall|k: int| 0 <= k < high.len() implies (#[trigger] high[k]).len()
                <= MAX_SEED_LEN by {
                if k < view.len() {
                    assert(high[k] == low[k]);
                }
            }
        }
        match derive_within_limits(&candidate, program_id) {
            Some(address) => {
                return Some((address, bump));
            },
            None => {},
        }
        bump -= 1;
    }
    None
}

/// The seeds of the record of `maker`'s offer, before the bump.
pub open spec fn escrow_seeds(maker: Address) -> Seq<Seq<u8>> {
    seq![ESCROW_SEED@, maker.bytes@]
}

/// The seeds of the token custody of the offer recorded at `escrow`, before
/// the bump.
pub open spec fn escrow_token_seeds(escrow: Address) -> Seq<Seq<u8>> {
    seq![ESCROW_TOKEN_SEED@, escrow.bytes@]
}

/// The address of the record of `maker`'s offer, and its bump.
pub open spec fn escrow_address(program_id: Address, maker: Address) -> Option<(Address, u8)> {
    found_program_address(escrow_seeds(maker), program_id)
}

/// The address of the token custody of the offer recorded at `escrow`, and
/// its bump.
pub open spec fn escrow_token_address(program_id: Address, escrow: Address) -> Option<
    (Address, u8),
> {
    found_program_address(escrow_token_seeds(escrow), program_id)
}

/// A marker and an address, as two seeds.
fn tagged_seeds<const N: usize>(tag: &[u8; N], key: &Address) -> (seeds: Vec<Vec<u8>>)
    ensures
        seeds_view(seeds@) == seq![tag@, key.bytes@],
{
    let mut seeds: Vec<Vec<u8>> = Vec::new();
    let first = bytes_of(tag);
    let second = bytes_of(&key.bytes);
    seeds.push(first);
    seeds.push(second);
    proof {
        assert(seeds_view(seeds@) =~= seq![tag@, key.bytes@]);
    }
    seeds
}

/// Derives the address at which the record of `maker`'s offer lives, and the
/// bump that proves the derivation. The same maker and program always give
/// the same address and bump.
pub fn find_escrow_address(program_id: &Address, maker: &Address) -> (found: Option<(Address, u8)>)
    ensures
        found == escrow_address(*program_id, *maker),
{
    let seeds = tagged_seeds(&ESCROW_SEED, maker);
    find_program_address(&seeds, program_id)
}

/// Derives the address of the token custody that belongs to the record at
/// `escrow`, and its bump. The same record address and program always give
/// the same address and bump.
pub fn find_escrow_token_address(program_id: &Address, escrow: &Address) -> (found: Option<
    (Address, u8),
>)
    ensures
        found == escrow_token_address(*program_id, *escrow),
{
    let seeds = tagged_seeds(&ESCROW_TOKEN_SEED, escrow);
    find_program_address(&seeds, program_id)
}

/// What `find_program_address` finds is derived from the seeds and the found
/// bump: presenting that bump again proves the derivation.
pub proof fn lemma_found_is_derived(seeds: Seq<Seq<u8>>, program_id: Address)
    requires
        found_program_address(seeds, program_id) is Some,
    ensures
        ({
            let (address, bump) = found_program_address(seeds, program_id)->Some_0;
            derived_address(seeds.push(seq![bump]), program_id) == Some(address)
        }),
{
    lemma_bump_search_is_derived(seeds, program_id, 255);
}

proof fn lemma_bump_search_is_derived(seeds: Seq<Seq<u8>>, program_id: Address, start: nat)
    requires
        start <= 255,
        bump_search(seeds, program_id, start) is Some,
    ensures
        ({
            let (address, bump) = bump_search(seeds, program_id, start)->Some_0;
            derived_address(seeds.push(seq![bump]), program_id) == Some(address)
        }),
    decreases start,
{
    if start > 0 && derived_address(seeds.push(seq![start as u8]), program_id) is None {
        lemma_bump_search_is_derived(seeds, program_id, (start - 1) as nat);
    }
}

} // verus!
