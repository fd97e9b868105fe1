//! The operations of the swap program: making an offer with a native or a
//! token deposit, and cancelling it.
//!
//! Each operation is shown the accounts it works on, validates them, and
//! answers with the requests that carry it out, in order. It changes nothing
//! itself: whoever runs the requests runs all of them or none.

use vstd::prelude::*;
use crate::address::Address;
use crate::instruction::{Authority, Instruction};
use crate::pda::{
    escrow_address, escrow_token_address, find_escrow_address, find_escrow_token_address,
};
use crate::state::{AccountData, AccountInfo, Asset, ErrorCode, Escrow};

verus! {

/// What an operation is called with besides its arguments: the address of the
/// swap program, under which custody addresses derive, and the accounts shown.
#[derive(Debug, PartialEq, Eq)]
pub struct Context<T> {
    pub program_id: Address,
    pub accounts: T,
}

/// The accounts of an offer with a native deposit.
#[derive(Clone, Copy, Debug, PartialEq, Eq)]
pub struct CreateSwapFromSol {
    /// The party that makes the offer and authorizes the deposit.
    pub maker: Address,
    /// The account that will hold the record and the deposit.
    pub escrow: AccountInfo,
}

/// The accounts of an offer with a token deposit.
#[derive(Clone, Copy, Debug, PartialEq, Eq)]
pub struct CreateSwapFromToken {
    /// The party that makes the offer and authorizes the deposit.
    pub maker: Address,
    /// The account that will hold the record.
    pub escrow: AccountInfo,
    /// The account that will hold the deposit, under the record's authority.
    pub escrow_token_account: AccountInfo,
    /// The maker's holding of the offered token.
    pub maker_token_account: AccountInfo,
    /// The mint of the offered token.
    pub mint: Address,
}

/// The accounts of a cancellation. The token accounts are needed only where
/// the deposit is a token deposit.
#[derive(Clone, Copy, Debug, PartialEq, Eq)]
pub struct CancelSwap {
    /// The caller.
    pub maker: Address,
    /// The account that holds the record.
    pub escrow: AccountInfo,
    /// The holding to which a token deposit returns.
    pub maker_token_account: Option<AccountInfo>,
    /// The account that holds a token deposit.
    pub escrow_token_account: Option<AccountInfo>,
}

impl AccountInfo {
    /// Whether the account is a holding of `mint`'s token under `owner`.
    pub open spec fn holds_token(self, mint: Address, owner: Address) -> bool {
        self.account.data matches AccountData::Token(holding) && holding.mint == mint
            && holding.owner == owner
    }

    /// Whether the account is a holding of `mint`'s token under `owner`.
    pub fn is_token_holding(&self, mint: &Address, owner: &Address) -> (holds: bool)
        ensures
            holds == self.holds_token(*mint, *owner),
    {
        match self.account.data {
            AccountData::Token(holding) => holding.mint == *mint && holding.owner == *owner,
            _ => false,
        }
    }
}

/// The record that an offer of `offered_asset` by `maker` leaves.
pub open spec fn new_record(maker: Address, offered_asset: Asset, wanted_asset: Asset, bump: u8)
    -> Escrow {
    Escrow { maker, offered_asset, wanted_asset, bump }
}

/// A derived address and its bump, or `None` where none derives.
pub type Found = Option<(Address, u8)>;

/// The requests for an offer with a native deposit, where `found` is what
/// derives from the maker as the record's address.
pub open spec fn create_swap_from_sol_plan(
    ctx: Context<CreateSwapFromSol>,
    found: Found,
    offered_amount: u64,
    wanted_asset: Asset,
) -> Result<Seq<Instruction>, ErrorCode> {
    let maker = ctx.accounts.maker;
    let escrow = ctx.accounts.escrow;
    match found {
        None => Err(ErrorCode::NoProgramAddress),
        Some((address, bump)) => if escrow.key != address {
            Err(ErrorCode::Unauthorized)
        } else if escrow.account.in_use() {
            Err(ErrorCode::EscrowAlreadyExists)
        } else {
            Ok(
                seq![
                    Instruction::CreateEscrow {
                        escrow: escrow.key,
                        authority: Authority::Escrow { maker, bump },
                        record: new_record(
                            maker,
                            Asset::Sol { amount: offered_amount },
                            wanted_asset,
                            bump,
                        ),
                    },
                    Instruction::Transfer {
                        from: maker,
                        to: escrow.key,
                        lamports: offered_amount,
                        authority: Authority::Signature { signer: maker },
                    },
                ],
            )
        },
    }
}

/// The requests for an offer with a token deposit, where `found` is what
/// derives from the maker as the record's address, and `found_custody` what
/// derives from the address of the record shown as the custody's.
pub open spec fn create_swap_from_token_plan(
    ctx: Context<CreateSwapFromToken>,
    found: Found,
    found_custody: Found,
    offered_amount: u64,
    wanted_asset: Asset,
) -> Result<Seq<Instruction>, ErrorCode> {
    let maker = ctx.accounts.maker;
    let mint = ctx.accounts.mint;
    let escrow = ctx.accounts.escrow;
    let custody = ctx.accounts.escrow_token_account;
    let source = ctx.accounts.maker_token_account;
    match found {
        None => Err(ErrorCode::NoProgramAddress),
        Some((address, bump)) => if escrow.key != address {
            Err(ErrorCode::Unauthorized)
        } else if escrow.account.in_use() {
            Err(ErrorCode::EscrowAlreadyExists)
        } else {
            match found_custody {
                None => Err(ErrorCode::NoProgramAddress),
                Some((token_address, token_bump)) => if custody.key != token_address {
                    Err(ErrorCode::Unauthorized)
                } else if custody.account.in_use() {
                    Err(ErrorCode::EscrowAlreadyExists)
                } else if !source.holds_token(mint, maker) {
                    Err(ErrorCode::MissingTokenAccount)
                } else {
                    Ok(
                        seq![
                            Instruction::CreateEscrow {
                                escrow: escrow.key,
                                authority: Authority::Escrow { maker, bump },
                                record: new_record(
                                    maker,
                                    Asset::Token { mint, amount: offered_amount },
                                    wanted_asset,
                                    bump,
                                ),
                            },
                            Instruction::CreateTokenAccount {
                                account: custody.key,
                                authority: Authority::EscrowToken {
                                    escrow: escrow.key,
                                    bump: token_bump,
                                },
                                mint,
                                owner: escrow.key,
                            },
                            Instruction::TokenTransfer {
                                from: source.key,
                                to: custody.key,
                                amount: offered_amount,
                                authority: Authority::Signature { signer: maker },
                            },
                        ],
                    )
                },
            }
        },
    }
}

/// The requests that return a token deposit and close the offer, once the
/// token accounts shown are found to be the right ones.
pub open spec fn token_refund_plan(
    ctx: Context<CancelSwap>,
    found_custody: Found,
    record: Escrow,
) -> Result<Seq<Instruction>, ErrorCode>
    recommends
        record.offered_asset is Token,
{
    let maker = ctx.accounts.maker;
    let escrow = ctx.accounts.escrow;
    let mint = record.offered_asset->mint;
    let amount = record.offered_asset->Token_amount;
    let authority = Authority::Escrow { maker: record.maker, bump: record.bump };
    match (ctx.accounts.escrow_token_account, ctx.accounts.maker_token_account) {
        (Some(custody), Some(target)) => match found_custody {
            None => Err(ErrorCode::NoProgramAddress),
            Some((token_address, _)) => if custody.key == token_address && custody.holds_token(
                mint,
                escrow.key,
            ) && target.holds_token(mint, maker) {
                Ok(
                    seq![
                        Instruction::TokenTransfer {
                            from: custody.key,
                            to: target.key,
                            amount,
                            authority,
                        },
                        Instruction::CloseTokenAccount {
                            account: custody.key,
                            destination: maker,
                            authority,
                        },
                        Instruction::CloseEscrow { escrow: escrow.key, destination: maker, authority },
                    ],
                )
            } else {
                Err(ErrorCode::MissingTokenAccount)
            },
        },
        _ => Err(ErrorCode::MissingTokenAccount),
    }
}

/// The requests for a cancellation, where `found` is what derives from the
/// caller as the record's address, and `found_custody` what derives from the
/// address of the record shown as the custody's.
pub open spec fn cancel_swap_plan(ctx: Context<CancelSwap>, found: Found, found_custody: Found)
    -> Result<Seq<Instruction>, ErrorCode> {
    let maker = ctx.accounts.maker;
    let escrow = ctx.accounts.escrow;
    match escrow.account.data {
        AccountData::Escrow(record) => if record.maker != maker {
            Err(ErrorCode::Unauthorized)
        } else {
            match found {
                None => Err(ErrorCode::NoProgramAddress),
                Some((address, _)) => if escrow.key != address {
                    Err(ErrorCode::Unauthorized)
                } else {
                    match record.offered_asset {
                        Asset::Sol { .. } => Ok(
                            seq![
                                Instruction::CloseEscrow {
                                    escrow: escrow.key,
                                    destination: maker,
                                    authority: Authority::Escrow {
                                        maker: record.maker,
                                        bump: record.bump,
                                    },
                                },
                            ],
                        ),
                        Asset::Token { .. } => token_refund_plan(ctx, found_custody, record),
                    }
                },
            }
        },
        _ => Err(ErrorCode::EscrowMissing),
    }
}

/// Whether an answer is the one that the plan names.
pub open spec fn answers(
    result: Result<Vec<Instruction>, ErrorCode>,
    plan: Result<Seq<Instruction>, ErrorCode>,
) -> bool {
    match result {
        Ok(instructions) => plan == Ok::<Seq<Instruction>, ErrorCode>(instructions@),
        Err(error) => plan == Err::<Seq<Instruction>, ErrorCode>(error),
    }
}

/// Decides an offer with a deposit of `offered_amount` of native currency,
/// given what derives from the maker as the record's address.
///
/// The record's address must be the derived one, and unused: a maker has one
/// open offer at a time. The answer creates the record, which names the
/// maker, the deposit, the wanted asset and the bump, and then moves the
/// deposit from the maker to the record's own account, on the maker's
/// signature.
pub fn decide_swap_from_sol(
    ctx: Context<CreateSwapFromSol>,
    found: Found,
    offered_amount: u64,
    wanted_asset: Asset,
) -> (result: Result<Vec<Instruction>, ErrorCode>)
    ensures
        answers(result, create_swap_from_sol_plan(ctx, found, offered_amount, wanted_asset)),
{
    let maker = ctx.accounts.maker;
    let escrow = ctx.accounts.escrow;
    let (address, bump) = match found {
        Some(found) => found,
        None => {
            return Err(ErrorCode::NoProgramAddress);
        },
    };
    if escrow.key != address {
        return Err(ErrorCode::Unauthorized);
    }
    if escrow.account.is_in_use() {
        return Err(ErrorCode::EscrowAlreadyExists);
    }
    let record = Escrow {
        maker,
        offered_asset: Asset::Sol { amount: offered_amount },
        wanted_asset,
        bump,
    };
    let mut plan: Vec<Instruction> = Vec::new();
    plan.push(
        Instruction::CreateEscrow {
            escrow: escrow.key,
            authority: Authority::Escrow { maker, bump },
            record,
        },
    );
    plan.push(
        Instruction::Transfer {
            from: maker,
            to: escrow.key,
            lamports: offered_amount,
            authority: Authority::Signature { signer: maker },
        },
    );
    proof {
        assert(create_swap_from_sol_plan(ctx, found, offered_amount, wanted_asset)->Ok_0
            =~= plan@);
    }
    Ok(plan)
}

/// Decides an offer with a deposit of `offered_amount` tokens of the mint
/// shown, given what derives as the record's address and as the custody's.
///
/// The record's address and the custody's address must be the derived ones,
/// and unused; the maker's token account must hold the mint's token under the
/// maker. The answer creates the record, creates the custody holding under
/// the record's authority, and then moves the deposit from the maker's
/// holding into custody, on the maker's signature.
pub fn decide_swap_from_token(
    ctx: Context<CreateSwapFromToken>,
    found: Found,
    found_custody: Found,
    offered_amount: u64,
    wanted_asset: Asset,
) -> (result: Result<Vec<Instruction>, ErrorCode>)
    ensures
        answers(
            result,
            create_swap_from_token_plan(ctx, found, found_custody, offered_amount, wanted_asset),
        ),
{
    let maker = ctx.accounts.maker;
    let mint = ctx.accounts.mint;
    let escrow = ctx.accounts.escrow;
    let custody = ctx.accounts.escrow_token_account;
    let source = ctx.accounts.maker_token_account;
    let (address, bump) = match found {
        Some(found) => found,
        None => {
            return Err(ErrorCode::NoProgramAddress);
        },
    };
    if escrow.key != address {
        return Err(ErrorCode::Unauthorized);
    }
    if escrow.account.is_in_use() {
        return Err(ErrorCode::EscrowAlreadyExists);
    }
    let (token_address, token_bump) = match found_custody {
        Some(found) => found,
        None => {
            return Err(ErrorCode::NoProgramAddress);
        },
    };
    if custody.key != token_address {
        return Err(ErrorCode::Unauthorized);
    }
    if custody.account.is_in_use() {
        return Err(ErrorCode::EscrowAlreadyExists);
    }
    if !source.is_token_holding(&mint, &maker) {
        return Err(ErrorCode::MissingTokenAccount);
    }
    let record = Escrow {
        maker,
        offered_asset: Asset::Token { mint, amount: offered_amount },
        wanted_asset,
        bump,
    };
    let mut plan: Vec<Instruction> = Vec::new();
    plan.push(
        Instruction::CreateEscrow {
            escrow: escrow.key,
            authority: Authority::Escrow { maker, bump },
            record,
        },
    );
    plan.push(
        Instruction::CreateTokenAccount {
            account: custody.key,
            authority: Authority::EscrowToken { escrow: escrow.key, bump: token_bump },
            mint,
            owner: escrow.key,
        },
    );
    plan.push(
        Instruction::TokenTransfer {
            from: source.key,
            to: custody.key,
            amount: offered_amount,
            authority: Authority::Signature { signer: maker },
        },
    );
    proof {
        assert(create_swap_from_token_plan(
            ctx,
            found,
            found_custody,
            offered_amount,
            wanted_asset,
        )->Ok_0 =~= plan@);
    }
    Ok(plan)
}

/// Decides the cancellation of the offer whose record is shown, given what
/// derives from the caller as the record's address and from the record's
/// address as the custody's.
///
/// The account shown must hold a record, the caller must be its maker, and
/// its address must be the derived one. A native deposit returns when the
/// record is closed, in one request. A token deposit needs both token
/// accounts: the custody at its derived address and a holding of the maker
/// for the same mint; the answer moves the recorded amount back, closes the
/// custody and then closes the record, all on the record's derived authority
/// with the recorded bump. The token accounts are looked at only where the
/// deposit is a token deposit.
pub fn decide_cancel(ctx: Context<CancelSwap>, found: Found, found_custody: Found) -> (result:
    Result<Vec<Instruction>, ErrorCode>)
    ensures
        answers(result, cancel_swap_plan(ctx, found, found_custody)),
        ctx.accounts.escrow.account.data matches AccountData::Escrow(record) && record.maker
            != ctx.accounts.maker ==> result matches Err(ErrorCode::Unauthorized),
        result matches Ok(plan) ==> ctx.accounts.escrow.account.data matches AccountData::Escrow(
            record,
        ) && match record.offered_asset {
            Asset::Sol { .. } => plan@.len() == 1 && plan@[0] is CloseEscrow,
            Asset::Token { .. } => plan@.len() == 3 && plan@[0] is TokenTransfer
                && plan@[1] is CloseTokenAccount && plan@[2] is CloseEscrow,
        },
{
    let maker = ctx.accounts.maker;
    let escrow = ctx.accounts.escrow;
    let record = match escrow.account.data {
        AccountData::Escrow(record) => record,
        _ => {
            return Err(ErrorCode::EscrowMissing);
        },
    };
    if record.maker != maker {
        return Err(ErrorCode::Unauthorized);
    }
    let address = match found {
        Some((address, _)) => address,
        None => {
            return Err(ErrorCode::NoProgramAddress);
        },
    };
    if escrow.key != address {
        return Err(ErrorCode::Unauthorized);
    }
    let authority = Authority::Escrow { maker: record.maker, bump: record.bump };
    let mut plan: Vec<Instruction> = Vec::new();
    match record.offered_asset {
        Asset::Sol { .. } => {},
        Asset::Token { mint, amount } => {
            let custody = match ctx.accounts.escrow_token_account {
                Some(custody) => custody,
                None => {
                    return Err(ErrorCode::MissingTokenAccount);
                },
            };
            let target = match ctx.accounts.maker_token_account {
                Some(target) => target,
                None => {
                    return Err(ErrorCode::MissingTokenAccount);
                },
            };
            let token_address = match found_custody {
                Some((token_address, _)) => token_address,
                None => {
                    return Err(ErrorCode::NoProgramAddress);
                },
            };
            if custody.key != token_address || !custody.is_token_holding(&mint, &escrow.key)
                || !target.is_token_holding(&mint, &maker) {
                return Err(ErrorCode::MissingTokenAccount);
            }
            plan.push(
                Instruction::TokenTransfer {
                    from: custody.key,
                    to: target.key,
                    amount,
                    authority,
                },
            );
            plan.push(
                Instruction::CloseTokenAccount {
                    account: custody.key,
                    destination: maker,
                    authority,
                },
            );
        },
    }
    plan.push(Instruction::CloseEscrow { escrow: escrow.key, destination: maker, authority });
    proof {
        assert(cancel_swap_plan(ctx, found, found_custody)->Ok_0 =~= plan@);
    }
    Ok(plan)
}

/// Makes an offer with a deposit of `offered_amount` of native currency:
/// derives the record's address from the maker and decides as
/// `decide_swap_from_sol` does.
pub fn create_swap_from_sol(
    ctx: Context<CreateSwapFromSol>,
    offered_amount: u64,
    wanted_asset: Asset,
) -> (result: Result<Vec<Instruction>, ErrorCode>)
    ensures
        answers(
            result,
            create_swap_from_sol_plan(
                ctx,
                escrow_address(ctx.program_id, ctx.accounts.maker),
                offered_amount,
                wanted_asset,
            ),
        ),
{
    let found = find_escrow_address(&ctx.program_id, &ctx.accounts.maker);
    decide_swap_from_sol(ctx, found, offered_amount, wanted_asset)
}

/// Makes an offer with a deposit of `offered_amount` tokens of the mint
/// shown: derives the record's address from the maker and the custody's from
/// the address of the record shown, and decides as `decide_swap_from_token`
/// does.
pub fn create_swap_from_token(
    ctx: Context<CreateSwapFromToken>,
    offered_amount: u64,
    wanted_asset: Asset,
) -> (result: Result<Vec<Instruction>, ErrorCode>)
    ensures
        answers(
            result,
            create_swap_from_token_plan(
                ctx,
                escrow_address(ctx.program_id, ctx.accounts.maker),
                escrow_token_address(ctx.program_id, ctx.accounts.escrow.key),
                offered_amount,
                wanted_asset,
            ),
        ),
{
    let found = find_escrow_address(&ctx.program_id, &ctx.accounts.maker);
    let found_custody = find_escrow_token_address(&ctx.program_id, &ctx.accounts.escrow.key);
    decide_swap_from_token(ctx, found, found_custody, offered_amount, wanted_asset)
}

/// Cancels the offer whose record is shown and returns the deposit: derives
/// the record's address from the caller and the custody's from the address
/// of the record shown, and decides as `decide_cancel` does. Only the
/// recorded maker cancels; a native deposit asks for the closing of the
/// record alone, a token deposit for the transfer out of custody, the
/// closing of the custody and the closing of the record, in this order.
pub fn cancel_swap(ctx: Context<CancelSwap>) -> (result: Result<Vec<Instruction>, ErrorCode>)
    ensures
        answers(
            result,
            cancel_swap_plan(
                ctx,
                escrow_address(ctx.program_id, ctx.accounts.maker),
                escrow_token_address(ctx.program_id, ctx.accounts.escrow.key),
            ),
        ),
        ctx.accounts.escrow.account.data matches AccountData::Escrow(record) && record.maker
            != ctx.accounts.maker ==> result matches Err(ErrorCode::Unauthorized),
        result matches Ok(plan) ==> ctx.accounts.escrow.account.data matches AccountData::Escrow(
            record,
        ) && match record.offered_asset {
            Asset::Sol { .. } => plan@.len() == 1 && plan@[0] is CloseEscrow,
            Asset::Token { .. } => plan@.len() == 3 && plan@[0] is TokenTransfer
                && plan@[1] is CloseTokenAccount && plan@[2] is CloseEscrow,
        },
{
    let found = find_escrow_address(&ctx.program_id, &ctx.accounts.maker);
    let found_custody = find_escrow_token_address(&ctx.program_id, &ctx.accounts.escrow.key);
    decide_cancel(ctx, found, found_custody)
}

} // verus!
