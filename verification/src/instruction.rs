//! The requests that the swap program makes of a value-transfer service.

use vstd::prelude::*;
use crate::address::Address;
use crate::pda::{
    create_program_address, derived_address, escrow_seeds, escrow_token_seeds, seeds_view,
    bytes_of, ESCROW_SEED, ESCROW_TOKEN_SEED,
};
use crate::state::Escrow;

verus! {

/// On whose authority a request is made. A signature is the authority of a
/// key holder. The other two are the program's own: they name the seeds and
/// the bump from which an address derives, and are valid for that address
/// alone.
#[derive(Clone, Copy, Debug, PartialEq, Eq)]
pub enum Authority {
    /// The holder of `signer` signed the operation.
    Signature { signer: Address },
    /// The record of `maker`'s offer, derived with `bump`.
    Escrow { maker: Address, bump: u8 },
    /// The token custody of the record at `escrow`, derived with `bump`.
    EscrowToken { escrow: Address, bump: u8 },
}

/// One request to the value-transfer service.
#[derive(Clone, Copy, Debug, PartialEq, Eq)]
pub enum Instruction {
    /// Create the record of an offer at the unused address `escrow`.
    CreateEscrow { escrow: Address, authority: Authority, record: Escrow },
    /// Create an empty token holding of `mint` under `owner` at the unused
    /// address `account`.
    CreateTokenAccount { account: Address, authority: Authority, mint: Address, owner: Address },
    /// Move `lamports` of native currency from the wallet `from` to `to`.
    Transfer { from: Address, to: Address, lamports: u64, authority: Authority },
    /// Move `amount` tokens from the holding `from` to the holding `to`.
    TokenTransfer { from: Address, to: Address, amount: u64, authority: Authority },
    /// Close the emptied token holding `account`; its native balance goes to
    /// `destination`.
    CloseTokenAccount { account: Address, destination: Address, authority: Authority },
    /// Close the record at `escrow`; its native balance, the deposit
    /// included, goes to `destination`.
    CloseEscrow { escrow: Address, destination: Address, authority: Authority },
}

impl Authority {
    /// The one address for which the authority is valid, if any.
    pub open spec fn address(self, program_id: Address) -> Option<Address> {
        match self {
            Authority::Signature { signer } => Some(signer),
            Authority::Escrow { maker, bump } => derived_address(
                escrow_seeds(maker).push(seq![bump]),
                program_id,
            ),
            Authority::EscrowToken { escrow, bump } => derived_address(
                escrow_token_seeds(escrow).push(seq![bump]),
                program_id,
            ),
        }
    }

    /// Whether the authority is valid for `address`.
    pub open spec fn covers(self, program_id: Address, address: Address) -> bool {
        self.address(program_id) == Some(address)
    }

    /// Whether the authority is valid for `address`.
    pub fn permits(&self, program_id: &Address, address: &Address) -> (valid: bool)
        ensures
            valid == self.covers(*program_id, *address),
    {
        match self.resolve(program_id) {
            Some(resolved) => resolved == *address,
            None => false,
        }
    }

    /// The one address for which the authority is valid, if any. For the
    /// program's own authorities this derives the address anew from the seeds
    /// and the bump.
    pub fn resolve(&self, program_id: &Address) -> (resolved: Option<Address>)
        ensures
            resolved == self.address(*program_id),
    {
        match self {
            Authority::Signature { signer } => Some(*signer),
            Authority::Escrow { maker, bump } => derive_with_bump(
                &ESCROW_SEED,
                maker,
                *bump,
                program_id,
            ),
            Authority::EscrowToken { escrow, bump } => derive_with_bump(
                &ESCROW_TOKEN_SEED,
                escrow,
                *bump,
                program_id,
            ),
        }
    }
}

/// The address derived from a marker, an address and a bump.
fn derive_with_bump<const N: usize>(
    tag: &[u8; N],
    key: &Address,
    bump: u8,
    program_id: &Address,
) -> (derived: Option<Address>)
    ensures
        derived == derived_address(seq![tag@, key.bytes@].push(seq![bump]), *program_id),
{
    let mut seeds: Vec<Vec<u8>> = Vec::new();
    let first = bytes_of(tag);
    let second = bytes_of(&key.bytes);
    let mut third: Vec<u8> = Vec::new();
    third.push(bump);
    seeds.push(first);
    seeds.push(second);
    seeds.push(third);
    proof {
        assert(third@ =~= seq![bump]);
        assert(seeds_view(seeds@) =~= seq![tag@, key.bytes@].push(seq![bump]));
    }
    create_program_address(&seeds, program_id)
}

} // verus!
