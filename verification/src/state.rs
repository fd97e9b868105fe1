//! What an offer is made of, and what the accounts of a ledger hold.

use vstd::prelude::*;
use crate::address::Address;

verus! {

/// An asset: an amount of the native currency, or an amount of the token of
/// one mint. Amounts count the smallest unit.
#[derive(Clone, Copy, Debug, PartialEq, Eq)]
pub enum Asset {
    Sol { amount: u64 },
    Token { mint: Address, amount: u64 },
}

/// The record of one open offer. It lives at the address derived from its
/// maker, and that account also holds a native deposit.
#[derive(Clone, Copy, Debug, PartialEq, Eq)]
pub struct Escrow {
    /// Who made the offer. Only the maker can cancel it.
    pub maker: Address,
    /// What is held in custody.
    pub offered_asset: Asset,
    /// What the maker expects in return. Descriptive only.
    pub wanted_asset: Asset,
    /// The bump with which the record's address derives from the maker.
    pub bump: u8,
}

/// A token holding: an amount of one mint's token, under one owner's authority.
#[derive(Clone, Copy, Debug, PartialEq, Eq)]
pub struct TokenAccount {
    pub mint: Address,
    pub owner: Address,
    pub amount: u64,
}

/// What an account stores besides its native balance.
#[derive(Clone, Copy, Debug, PartialEq, Eq)]
pub enum AccountData {
    /// Nothing: a plain wallet, or an address never used.
    Empty,
    /// The record of an open offer.
    Escrow(Escrow),
    /// A token holding.
    Token(TokenAccount),
}

/// The state of one account.
#[derive(Clone, Copy, Debug, PartialEq, Eq)]
pub struct Account {
    /// The native balance.
    pub lamports: u64,
    pub data: AccountData,
}

/// An account as it is shown to an operation: its address and its state.
#[derive(Clone, Copy, Debug, PartialEq, Eq)]
pub struct AccountInfo {
    pub key: Address,
    pub account: Account,
}

/// Why an operation was rejected. A rejected operation changes nothing.
#[derive(Clone, Copy, Debug, PartialEq, Eq)]
pub enum ErrorCode {
    /// A token account that the operation needs is absent, or is not the
    /// holding that is asked for.
    MissingTokenAccount,
    /// The maker already has an open offer, or an address of the new offer is
    /// taken.
    EscrowAlreadyExists,
    /// There is no open offer to cancel.
    EscrowMissing,
    /// The caller is not the recorded maker, or an address or authority is not
    /// derived as claimed.
    Unauthorized,
    /// The balance to be debited is smaller than the amount.
    InsufficientFunds,
    /// The balance to be credited cannot hold the amount.
    BalanceOverflow,
    /// A token account to be closed still holds tokens.
    CustodyNotEmpty,
    /// No bump derives a valid address.
    NoProgramAddress,
}

impl Account {
    /// Whether the account holds anything: a balance or data.
    pub open spec fn in_use(self) -> bool {
        self.lamports != 0 || !(self.data is Empty)
    }

    /// The state of an address never used.
    pub open spec fn vacant() -> Account {
        Account { lamports: 0, data: AccountData::Empty }
    }

    /// Whether the account holds anything: a balance or data.
    pub fn is_in_use(&self) -> (used: bool)
        ensures
            used == self.in_use(),
    {
        match self.data {
            AccountData::Empty => self.lamports != 0,
            _ => true,
        }
    }
}

impl ErrorCode {
    /// The reason in words.
    pub open spec fn message_text(self) -> Seq<char> {
        match self {
            ErrorCode::MissingTokenAccount => "Account is missing"@,
            ErrorCode::EscrowAlreadyExists => "Escrow already exists"@,
            ErrorCode::EscrowMissing => "Escrow is missing"@,
            ErrorCode::Unauthorized => "Not authorized"@,
            ErrorCode::InsufficientFunds => "Insufficient funds"@,
            ErrorCode::BalanceOverflow => "Balance overflow"@,
            ErrorCode::CustodyNotEmpty => "Custody is not empty"@,
            ErrorCode::NoProgramAddress => "No program address"@,
        }
    }

    /// The reason in words.
    pub fn message(&self) -> (text: &'static str)
        ensures
            text@ == self.message_text(),
    {
        match self {
            ErrorCode::MissingTokenAccount => "Account is missing",
            ErrorCode::EscrowAlreadyExists => "Escrow already exists",
            ErrorCode::EscrowMissing => "Escrow is missing",
            ErrorCode::Unauthorized => "Not authorized",
            ErrorCode::InsufficientFunds => "Insufficient funds",
            ErrorCode::BalanceOverflow => "Balance overflow",
            ErrorCode::CustodyNotEmpty => "Custody is not empty",
            ErrorCode::NoProgramAddress => "No program address",
        }
    }
}

} // verus!
