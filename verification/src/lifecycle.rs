//! The life of an offer on a ledger: it is opened with a deposit, and it is
//! cancelled, which returns the deposit and frees the maker's address for a
//! new offer.
//!
//! Each operation reads the accounts it needs from the ledger, lets the swap
//! program decide, and has the ledger carry out the program's requests, all
//! of them or none.

use vstd::prelude::*;
use crate::address::Address;
use crate::instruction::Instruction;
use crate::ledger::{follows, run, Ledger, State};
use crate::pda::{
    escrow_address, escrow_token_address, find_escrow_address, find_escrow_token_address,
};
use crate::state::{AccountInfo, Asset, ErrorCode, Escrow};
use crate::swap::{
    cancel_swap, cancel_swap_plan, create_swap_from_sol, create_swap_from_sol_plan,
    create_swap_from_token, create_swap_from_token_plan, new_record, CancelSwap, Context,
    CreateSwapFromSol, CreateSwapFromToken,
};

verus! {

/// The account of `key` as an operation is shown it.
pub open spec fn info(state: State, key: Address) -> AccountInfo {
    AccountInfo { key, account: state[key] }
}

/// The state after the requests that the swap program answers with, or the
/// reason for which the program or the ledger rejects.
pub open spec fn carry_out(
    state: State,
    program_id: Address,
    plan: Result<Seq<Instruction>, ErrorCode>,
) -> Result<State, ErrorCode> {
    match plan {
        Ok(instructions) => run(state, program_id, instructions),
        Err(error) => Err(error),
    }
}

/// The state after `maker` opens an offer with a native deposit.
pub open spec fn initiate_with_native_offer(
    state: State,
    program_id: Address,
    maker: Address,
    offered_amount: u64,
    wanted_asset: Asset,
) -> Result<State, ErrorCode> {
    match escrow_address(program_id, maker) {
        None => Err(ErrorCode::NoProgramAddress),
        Some((escrow, _)) => carry_out(
            state,
            program_id,
            create_swap_from_sol_plan(
                Context { program_id, accounts: CreateSwapFromSol { maker, escrow: info(state, escrow) } },
                escrow_address(program_id, maker),
                offered_amount,
                wanted_asset,
            ),
        ),
    }
}

/// The address shown as the custody of the record at `escrow`: the derived
/// one. Where none derives, the record's own address is shown, and the
/// program rejects without looking at it.
pub open spec fn custody_key(program_id: Address, escrow: Address) -> Address {
    match escrow_token_address(program_id, escrow) {
        Some((custody, _)) => custody,
        None => escrow,
    }
}

/// The state after `maker` opens an offer with a deposit of `mint`'s token,
/// taken from the holding at `maker_token_account`.
pub open spec fn initiate_with_token_offer(
    state: State,
    program_id: Address,
    maker: Address,
    maker_token_account: Address,
    mint: Address,
    offered_amount: u64,
    wanted_asset: Asset,
) -> Result<State, ErrorCode> {
    match escrow_address(program_id, maker) {
        None => Err(ErrorCode::NoProgramAddress),
        Some((escrow, _)) => carry_out(
            state,
            program_id,
            create_swap_from_token_plan(
                Context {
                    program_id,
                    accounts: CreateSwapFromToken {
                        maker,
                        escrow: info(state, escrow),
                        escrow_token_account: info(state, custody_key(program_id, escrow)),
                        maker_token_account: info(state, maker_token_account),
                        mint,
                    },
                },
                escrow_address(program_id, maker),
                escrow_token_address(program_id, escrow),
                offered_amount,
                wanted_asset,
            ),
        ),
    }
}

/// The accounts that a cancellation of `maker`'s offer by `caller` is shown.
pub open spec fn cancel_accounts(
    state: State,
    program_id: Address,
    caller: Address,
    escrow: Address,
    maker_token_account: Option<Address>,
) -> CancelSwap {
    CancelSwap {
        maker: caller,
        escrow: info(state, escrow),
        maker_token_account: match maker_token_account {
            Some(key) => Some(info(state, key)),
            None => None,
        },
        escrow_token_account: match escrow_token_address(program_id, escrow) {
            Some((custody, _)) => Some(info(state, custody)),
            None => None,
        },
    }
}

/// The state after `caller` cancels the offer of `maker`; a token deposit
/// returns to the holding at `maker_token_account`.
pub open spec fn cancel(
    state: State,
    program_id: Address,
    caller: Address,
    maker: Address,
    maker_token_account: Option<Address>,
) -> Result<State, ErrorCode> {
    match escrow_address(program_id, maker) {
        None => Err(ErrorCode::NoProgramAddress),
        Some((escrow, _)) => carry_out(
            state,
            program_id,
            cancel_swap_plan(
                Context {
                    program_id,
                    accounts: cancel_accounts(state, program_id, caller, escrow, maker_token_account),
                },
                escrow_address(program_id, caller),
                escrow_token_address(program_id, escrow),
            ),
        ),
    }
}

/// The record of an offer of `offered_asset` that `maker` has opened.
pub open spec fn opened_record(
    program_id: Address,
    maker: Address,
    offered_asset: Asset,
    wanted_asset: Asset,
) -> Escrow
    recommends
        escrow_address(program_id, maker) is Some,
{
    new_record(maker, offered_asset, wanted_asset, escrow_address(program_id, maker)->Some_0.1)
}

impl Ledger {
    /// Opens an offer of `maker` with a deposit of `offered_amount` of native
    /// currency, and returns its record.
    ///
    /// The maker must have no open offer and must hold the amount in a plain
    /// wallet. The record is created at the address derived from the maker,
    /// and the deposit moves from the maker to that same account. Where the
    /// operation is rejected the ledger is unchanged.
    pub fn initiate_with_native_offer(
        &mut self,
        maker: Address,
        offered_amount: u64,
        wanted_asset: Asset,
    ) -> (result: Result<Escrow, ErrorCode>)
        ensures
            final(self).id() == old(self).id(),
            match result {
                Ok(record) => {
                    &&& initiate_with_native_offer(
                        old(self)@,
                        old(self).id(),
                        maker,
                        offered_amount,
                        wanted_asset,
                    ) == Ok::<State, ErrorCode>(final(self)@)
                    &&& record == opened_record(
                        old(self).id(),
                        maker,
                        Asset::Sol { amount: offered_amount },
                        wanted_asset,
                    )
                },
                Err(error) => {
                    &&& initiate_with_native_offer(
                        old(self)@,
                        old(self).id(),
                        maker,
                        offered_amount,
                        wanted_asset,
                    ) == Err::<State, ErrorCode>(error)
                    &&& final(self)@ == old(self)@
                },
            },
    {
        let program_id = self.program_id();
        let (escrow, bump) = match find_escrow_address(&program_id, &maker) {
            Some(found) => found,
            None => {
                return Err(ErrorCode::NoProgramAddress);
            },
        };
        let accounts = CreateSwapFromSol { maker, escrow: self.account_info(&escrow) };
        let plan = match create_swap_from_sol(
            Context { program_id, accounts },
            offered_amount,
            wanted_asset,
        ) {
            Ok(plan) => plan,
            Err(error) => {
                return Err(error);
            },
        };
        match self.execute(&plan) {
            Ok(()) => Ok(
                Escrow {
                    maker,
                    offered_asset: Asset::Sol { amount: offered_amount },
                    wanted_asset,
                    bump,
                },
            ),
            Err(error) => Err(error),
        }
    }

    /// Opens an offer of `maker` with a deposit of `offered_amount` tokens of
    /// `mint`, taken from the holding at `maker_token_account`, and returns
    /// its record.
    ///
    /// The maker must have no open offer, and the holding must be one of
    /// `mint`'s token under the maker, with at least the amount. The record
    /// is created at the address derived from the maker, the custody holding
    /// at the address derived from the record's, under the record's
    /// authority; the deposit moves into custody. Where the operation is
    /// rejected the ledger is unchanged.
    pub fn initiate_with_token_offer(
        &mut self,
        maker: Address,
        maker_token_account: Address,
        mint: Address,
        offered_amount: u64,
        wanted_asset: Asset,
    ) -> (result: Result<Escrow, ErrorCode>)
        ensures
            final(self).id() == old(self).id(),
            match result {
                Ok(record) => {
                    &&& initiate_with_token_offer(
                        old(self)@,
                        old(self).id(),
                        maker,
                        maker_token_account,
                        mint,
                        offered_amount,
                        wanted_asset,
                    ) == Ok::<State, ErrorCode>(final(self)@)
                    &&& record == opened_record(
                        old(self).id(),
                        maker,
                        Asset::Token { mint, amount: offered_amount },
                        wanted_asset,
                    )
                },
                Err(error) => {
                    &&& initiate_with_token_offer(
                        old(self)@,
                        old(self).id(),
                        maker,
                        maker_token_account,
                        mint,
                        offered_amount,
                        wanted_asset,
                    ) == Err::<State, ErrorCode>(error)
                    &&& final(self)@ == old(self)@
                },
            },
    {
        let program_id = self.program_id();
        let (escrow, bump) = match find_escrow_address(&program_id, &maker) {
            Some(found) => found,
            None => {
                return Err(ErrorCode::NoProgramAddress);
            },
        };
        let custody = match find_escrow_token_address(&program_id, &escrow) {
            Some((custody, _)) => custody,
            None => escrow,
        };
        let accounts = CreateSwapFromToken {
            maker,
            escrow: self.account_info(&escrow),
            escrow_token_account: self.account_info(&custody),
            maker_token_account: self.account_info(&maker_token_account),
            mint,
        };
        let plan = match create_swap_from_token(
            Context { program_id, accounts },
            offered_amount,
            wanted_asset,
        ) {
            Ok(plan) => plan,
            Err(error) => {
                return Err(error);
            },
        };
        match self.execute(&plan) {
            Ok(()) => Ok(
                Escrow {
                    maker,
                    offered_asset: Asset::Token { mint, amount: offered_amount },
                    wanted_asset,
                    bump,
                },
            ),
            Err(error) => Err(error),
        }
    }

    /// Cancels the offer of `maker` on behalf of `caller`, who must be the
    /// maker, and returns the deposit: a native deposit to the maker's
    /// wallet, a token deposit to the holding at `maker_token_account`.
    ///
    /// Afterwards neither the record nor the custody holding exists. Where
    /// the operation is rejected the ledger is unchanged.
    pub fn cancel(&mut self, caller: Address, maker: Address, maker_token_account: Option<Address>)
        -> (result: Result<(), ErrorCode>)
        ensures
            final(self).id() == old(self).id(),
            follows(
                result,
                old(self)@,
                final(self)@,
                cancel(old(self)@, old(self).id(), caller, maker, maker_token_account),
            ),
    {
        let program_id = self.program_id();
        let escrow = match find_escrow_address(&program_id, &maker) {
            Some((escrow, _)) => escrow,
            None => {
                return Err(ErrorCode::NoProgramAddress);
            },
        };
        let accounts = CancelSwap {
            maker: caller,
            escrow: self.account_info(&escrow),
            maker_token_account: match maker_token_account {
                Some(key) => Some(self.account_info(&key)),
                None => None,
            },
            escrow_token_account: match find_escrow_token_address(&program_id, &escrow) {
                Some((custody, _)) => Some(self.account_info(&custody)),
                None => None,
            },
        };
        let plan = match cancel_swap(Context { program_id, accounts }) {
            Ok(plan) => plan,
            Err(error) => {
                return Err(error);
            },
        };
        self.execute(&plan)
    }
}

} // verus!
