//! What holds of the life of an offer, on every ledger.

use vstd::prelude::*;
use crate::address::Address;
use crate::instruction::{Authority, Instruction};
use crate::ledger::{run, step, total, State};
use crate::lifecycle::{
    cancel, cancel_accounts, info, initiate_with_native_offer, initiate_with_token_offer,
    opened_record,
};
use crate::pda::{
    escrow_address, escrow_seeds, escrow_token_address, escrow_token_seeds,
    lemma_found_is_derived,
};
use crate::state::{Account, AccountData, Asset, ErrorCode, TokenAccount};
use crate::swap::{cancel_swap_plan, CancelSwap, Context, Found};

verus! {

/// The address of the record of `maker`'s offer.
pub open spec fn record_address(program_id: Address, maker: Address) -> Address
    recommends
        escrow_address(program_id, maker) is Some,
{
    escrow_address(program_id, maker)->Some_0.0
}

/// The authority of the record of `maker`'s offer is valid for the record's
/// address when it presents the bump that the derivation found.
pub proof fn lemma_escrow_authority(program_id: Address, maker: Address)
    requires
        escrow_address(program_id, maker) is Some,
    ensures
        ({
            let (escrow, bump) = escrow_address(program_id, maker)->Some_0;
            (Authority::Escrow { maker, bump }).covers(program_id, escrow)
        }),
{
    lemma_found_is_derived(escrow_seeds(maker), program_id);
}

/// An offer with a native deposit, once opened, leaves its record at the
/// maker's derived address, which holds the deposit; the maker has paid it.
pub proof fn lemma_native_offer_opened(
    state: State,
    program_id: Address,
    maker: Address,
    offered_amount: u64,
    wanted_asset: Asset,
)
    requires
        initiate_with_native_offer(state, program_id, maker, offered_amount, wanted_asset) is Ok,
    ensures
        ({
            let after = initiate_with_native_offer(
                state,
                program_id,
                maker,
                offered_amount,
                wanted_asset,
            )->Ok_0;
            let escrow = record_address(program_id, maker);
            let record = opened_record(
                program_id,
                maker,
                Asset::Sol { amount: offered_amount },
                wanted_asset,
            );
            &&& escrow_address(program_id, maker) is Some
            &&& escrow != maker
            &&& state[escrow] == Account::vacant()
            &&& state[maker].data is Empty
            &&& state[maker].lamports >= offered_amount
            &&& after == state.insert(
                maker,
                Account {
                    lamports: (state[maker].lamports - offered_amount) as u64,
                    data: AccountData::Empty,
                },
            ).insert(escrow, Account { lamports: offered_amount, data: AccountData::Escrow(record) })
        }),
{
    let (escrow, bump) = escrow_address(program_id, maker)->Some_0;
    let record = opened_record(
        program_id,
        maker,
        Asset::Sol { amount: offered_amount },
        wanted_asset,
    );
    let create = Instruction::CreateEscrow {
        escrow,
        authority: Authority::Escrow { maker, bump },
        record,
    };
    let pay = Instruction::Transfer {
        from: maker,
        to: escrow,
        lamports: offered_amount,
        authority: Authority::Signature { signer: maker },
    };
    let plan = seq![create, pay];
    assert(plan.skip(1) =~= seq![pay]);
    assert(plan.skip(1).skip(1) =~= Seq::<Instruction>::empty());
    let created = step(state, program_id, create)->Ok_0;
    assert(run(state, program_id, plan) == run(created, program_id, plan.skip(1)));
    let paid = step(created, program_id, pay)->Ok_0;
    assert(run(created, program_id, plan.skip(1)) == run(paid, program_id, plan.skip(1).skip(1)));
    let after = initiate_with_native_offer(state, program_id, maker, offered_amount, wanted_asset)->Ok_0;
    assert(after == paid);
    assert(after =~= state.insert(
        maker,
        Account {
            lamports: (state[maker].lamports - offered_amount) as u64,
            data: AccountData::Empty,
        },
    ).insert(escrow, Account { lamports: offered_amount, data: AccountData::Escrow(record) }));
}

/// Whether `maker` may open an offer with a native deposit of
/// `offered_amount`: the record's address derives and is unused, and the
/// maker is a plain wallet that holds the amount.
pub open spec fn native_offer_accepted(
    state: State,
    program_id: Address,
    maker: Address,
    offered_amount: u64,
) -> bool {
    &&& escrow_address(program_id, maker) is Some
    &&& record_address(program_id, maker) != maker
    &&& !state[record_address(program_id, maker)].in_use()
    &&& state[maker].data is Empty
    &&& state[maker].lamports >= offered_amount
}

/// An offer with a native deposit is opened exactly where it may be.
pub proof fn lemma_native_offer_accepted(
    state: State,
    program_id: Address,
    maker: Address,
    offered_amount: u64,
    wanted_asset: Asset,
)
    ensures
        initiate_with_native_offer(state, program_id, maker, offered_amount, wanted_asset) is Ok
            <==> native_offer_accepted(state, program_id, maker, offered_amount),
{
    if initiate_with_native_offer(state, program_id, maker, offered_amount, wanted_asset) is Ok {
        lemma_native_offer_opened(state, program_id, maker, offered_amount, wanted_asset);
    }
    if native_offer_accepted(state, program_id, maker, offered_amount) {
        lemma_escrow_authority(program_id, maker);
        let (escrow, bump) = escrow_address(program_id, maker)->Some_0;
        let create = Instruction::CreateEscrow {
            escrow,
            authority: Authority::Escrow { maker, bump },
            record: opened_record(
                program_id,
                maker,
                Asset::Sol { amount: offered_amount },
                wanted_asset,
            ),
        };
        let pay = Instruction::Transfer {
            from: maker,
            to: escrow,
            lamports: offered_amount,
            authority: Authority::Signature { signer: maker },
        };
        let plan = seq![create, pay];
        assert(plan.skip(1) =~= seq![pay]);
        assert(plan.skip(1).skip(1) =~= Seq::<Instruction>::empty());
        assert(step(state, program_id, create) is Ok);
        let created = step(state, program_id, create)->Ok_0;
        assert(run(state, program_id, plan) == run(created, program_id, plan.skip(1)));
        assert(step(created, program_id, pay) is Ok);
        let paid = step(created, program_id, pay)->Ok_0;
        assert(run(created, program_id, plan.skip(1)) == run(
            paid,
            program_id,
            plan.skip(1).skip(1),
        ));
    }
}

/// Value is conserved over an offer with a native deposit: when the maker
/// cancels an offer just opened, the cancellation succeeds and the ledger is
/// as it was before the offer. So the maker's balance is unchanged, no record
/// remains, and the maker may open a new offer.
pub proof fn lemma_native_round_trip(
    state: State,
    program_id: Address,
    maker: Address,
    offered_amount: u64,
    wanted_asset: Asset,
    maker_token_account: Option<Address>,
)
    requires
        total(state),
        initiate_with_native_offer(state, program_id, maker, offered_amount, wanted_asset) is Ok,
    ensures
        cancel(
            initiate_with_native_offer(
                state,
                program_id,
                maker,
                offered_amount,
                wanted_asset,
            )->Ok_0,
            program_id,
            maker,
            maker,
            maker_token_account,
        ) == Ok::<State, ErrorCode>(state),
{
    lemma_native_offer_opened(state, program_id, maker, offered_amount, wanted_asset);
    lemma_escrow_authority(program_id, maker);
    let (escrow, bump) = escrow_address(program_id, maker)->Some_0;
    let opened = initiate_with_native_offer(
        state,
        program_id,
        maker,
        offered_amount,
        wanted_asset,
    )->Ok_0;
    let close = Instruction::CloseEscrow {
        escrow,
        destination: maker,
        authority: Authority::Escrow { maker, bump },
    };
    let ctx = Context {
        program_id,
        accounts: cancel_accounts(opened, program_id, maker, escrow, maker_token_account),
    };
    assert(cancel_swap_plan(
        ctx,
        escrow_address(program_id, maker),
        escrow_token_address(program_id, escrow),
    ) == Ok::<Seq<Instruction>, ErrorCode>(seq![close]));
    let plan = seq![close];
    assert(plan.skip(1) =~= Seq::<Instruction>::empty());
    let closed = step(opened, program_id, close)->Ok_0;
    assert(run(opened, program_id, plan) == run(closed, program_id, plan.skip(1)));
    assert(closed =~= state);
}

/// The address of the token custody of `maker`'s offer.
pub open spec fn custody_address(program_id: Address, maker: Address) -> Address
    recommends
        escrow_address(program_id, maker) is Some,
        escrow_token_address(program_id, record_address(program_id, maker)) is Some,
{
    escrow_token_address(program_id, record_address(program_id, maker))->Some_0.0
}

/// A token holding with `amount` tokens.
pub open spec fn holding(lamports: u64, mint: Address, owner: Address, amount: u64) -> Account {
    Account { lamports, data: AccountData::Token(TokenAccount { mint, owner, amount }) }
}

/// An offer with a token deposit, once opened, leaves its record at the
/// maker's derived address and the deposit in the custody holding derived
/// from it, which the record's address owns; the maker's holding has paid it.
pub proof fn lemma_token_offer_opened(
    state: State,
    program_id: Address,
    maker: Address,
    maker_token_account: Address,
    mint: Address,
    offered_amount: u64,
    wanted_asset: Asset,
)
    requires
        initiate_with_token_offer(
            state,
            program_id,
            maker,
            maker_token_account,
            mint,
            offered_amount,
            wanted_asset,
        ) is Ok,
    ensures
        ({
            let after = initiate_with_token_offer(
                state,
                program_id,
                maker,
                maker_token_account,
                mint,
                offered_amount,
                wanted_asset,
            )->Ok_0;
            let escrow = record_address(program_id, maker);
            let custody = custody_address(program_id, maker);
            let record = opened_record(
                program_id,
                maker,
                Asset::Token { mint, amount: offered_amount },
                wanted_asset,
            );
            let source = state[maker_token_account];
            &&& escrow_address(program_id, maker) is Some
            &&& escrow_token_address(program_id, escrow) is Some
            &&& escrow != custody
            &&& escrow != maker_token_account
            &&& custody != maker_token_account
            &&& state[escrow] == Account::vacant()
            &&& state[custody] == Account::vacant()
            &&& source.data matches AccountData::Token(paying) && paying.mint == mint
                && paying.owner == maker && paying.amount >= offered_amount
            &&& after == state.insert(
                escrow,
                Account { lamports: 0, data: AccountData::Escrow(record) },
            ).insert(custody, holding(0, mint, escrow, offered_amount)).insert(
                maker_token_account,
                holding(
                    source.lamports,
                    mint,
                    maker,
                    (source.data->Token_0.amount - offered_amount) as u64,
                ),
            )
        }),
{
    let (escrow, bump) = escrow_address(program_id, maker)->Some_0;
    let (custody, token_bump) = escrow_token_address(program_id, escrow)->Some_0;
    let record = opened_record(
        program_id,
        maker,
        Asset::Token { mint, amount: offered_amount },
        wanted_asset,
    );
    let create = Instruction::CreateEscrow {
        escrow,
        authority: Authority::Escrow { maker, bump },
        record,
    };
    let open = Instruction::CreateTokenAccount {
        account: custody,
        authority: Authority::EscrowToken { escrow, bump: token_bump },
        mint,
        owner: escrow,
    };
    let pay = Instruction::TokenTransfer {
        from: maker_token_account,
        to: custody,
        amount: offered_amount,
        authority: Authority::Signature { signer: maker },
    };
    let plan = seq![create, open, pay];
    assert(plan.skip(1) =~= seq![open, pay]);
    assert(plan.skip(1).skip(1) =~= seq![pay]);
    assert(plan.skip(1).skip(1).skip(1) =~= Seq::<Instruction>::empty());
    let created = step(state, program_id, create)->Ok_0;
    assert(run(state, program_id, plan) == run(created, program_id, plan.skip(1)));
    let opened = step(created, program_id, open)->Ok_0;
    assert(run(created, program_id, plan.skip(1)) == run(
        opened,
        program_id,
        plan.skip(1).skip(1),
    ));
    let paid = step(opened, program_id, pay)->Ok_0;
    assert(run(opened, program_id, plan.skip(1).skip(1)) == run(
        paid,
        program_id,
        plan.skip(1).skip(1).skip(1),
    ));
    let source = state[maker_token_account];
    assert(paid =~= state.insert(
        escrow,
        Account { lamports: 0, data: AccountData::Escrow(record) },
    ).insert(custody, holding(0, mint, escrow, offered_amount)).insert(
        maker_token_account,
        holding(
            source.lamports,
            mint,
            maker,
            (source.data->Token_0.amount - offered_amount) as u64,
        ),
    ));
}

/// The authority of the token custody of the record at `escrow` is valid for
/// the custody's address when it presents the bump that the derivation found.
pub proof fn lemma_custody_authority(program_id: Address, escrow: Address)
    requires
        escrow_token_address(program_id, escrow) is Some,
    ensures
        ({
            let (custody, bump) = escrow_token_address(program_id, escrow)->Some_0;
            (Authority::EscrowToken { escrow, bump }).covers(program_id, custody)
        }),
{
    lemma_found_is_derived(escrow_token_seeds(escrow), program_id);
}

/// Whether `maker` may open an offer with a deposit of `offered_amount`
/// tokens of `mint` from the holding at `maker_token_account`: the addresses
/// of the record and of the custody derive, differ and are unused, and the
/// holding is one of `mint`'s token under the maker, with the amount.
pub open spec fn token_offer_accepted(
    state: State,
    program_id: Address,
    maker: Address,
    maker_token_account: Address,
    mint: Address,
    offered_amount: u64,
) -> bool {
    &&& escrow_address(program_id, maker) is Some
    &&& escrow_token_address(program_id, record_address(program_id, maker)) is Some
    &&& record_address(program_id, maker) != custody_address(program_id, maker)
    &&& !state[record_address(program_id, maker)].in_use()
    &&& !state[custody_address(program_id, maker)].in_use()
    &&& state[maker_token_account].data matches AccountData::Token(paying) && paying.mint == mint
        && paying.owner == maker && paying.amount >= offered_amount
}

/// An offer with a token deposit is opened exactly where it may be.
pub proof fn lemma_token_offer_accepted(
    state: State,
    program_id: Address,
    maker: Address,
    maker_token_account: Address,
    mint: Address,
    offered_amount: u64,
    wanted_asset: Asset,
)
    ensures
        initiate_with_token_offer(
            state,
            program_id,
            maker,
            maker_token_account,
            mint,
            offered_amount,
            wanted_asset,
        ) is Ok <==> token_offer_accepted(
            state,
            program_id,
            maker,
            maker_token_account,
            mint,
            offered_amount,
        ),
{
    if initiate_with_token_offer(
        state,
        program_id,
        maker,
        maker_token_account,
        mint,
        offered_amount,
        wanted_asset,
    ) is Ok {
        lemma_token_offer_opened(
            state,
            program_id,
            maker,
            maker_token_account,
            mint,
            offered_amount,
            wanted_asset,
        );
    }
    if token_offer_accepted(state, program_id, maker, maker_token_account, mint, offered_amount) {
        lemma_escrow_authority(program_id, maker);
        let (escrow, bump) = escrow_address(program_id, maker)->Some_0;
        lemma_custody_authority(program_id, escrow);
        let (custody, token_bump) = escrow_token_address(program_id, escrow)->Some_0;
        let create = Instruction::CreateEscrow {
            escrow,
            authority: Authority::Escrow { maker, bump },
            record: opened_record(
                program_id,
                maker,
                Asset::Token { mint, amount: offered_amount },
                wanted_asset,
            ),
        };
        let open = Instruction::CreateTokenAccount {
            account: custody,
            authority: Authority::EscrowToken { escrow, bump: token_bump },
            mint,
            owner: escrow,
        };
        let pay = Instruction::TokenTransfer {
            from: maker_token_account,
            to: custody,
            amount: offered_amount,
            authority: Authority::Signature { signer: maker },
        };
        let plan = seq![create, open, pay];
        assert(plan.skip(1) =~= seq![open, pay]);
        assert(plan.skip(1).skip(1) =~= seq![pay]);
        assert(plan.skip(1).skip(1).skip(1) =~= Seq::<Instruction>::empty());
        assert(step(state, program_id, create) is Ok);
        let created = step(state, program_id, create)->Ok_0;
        assert(run(state, program_id, plan) == run(created, program_id, plan.skip(1)));
        assert(step(created, program_id, open) is Ok);
        let opened = step(created, program_id, open)->Ok_0;
        assert(run(created, program_id, plan.skip(1)) == run(
            opened,
            program_id,
            plan.skip(1).skip(1),
        ));
        assert(step(opened, program_id, pay) is Ok);
        let paid = step(opened, program_id, pay)->Ok_0;
        assert(run(opened, program_id, plan.skip(1).skip(1)) == run(
            paid,
            program_id,
            plan.skip(1).skip(1).skip(1),
        ));
    }
}

/// Value is conserved over an offer with a token deposit: when the maker
/// cancels an offer just opened and names the holding that paid the deposit,
/// the cancellation succeeds and the ledger is as it was before the offer.
/// So the maker's token balance is unchanged, and neither the custody
/// holding nor the record remains.
pub proof fn lemma_token_round_trip(
    state: State,
    program_id: Address,
    maker: Address,
    maker_token_account: Address,
    mint: Address,
    offered_amount: u64,
    wanted_asset: Asset,
)
    requires
        total(state),
        initiate_with_token_offer(
            state,
            program_id,
            maker,
            maker_token_account,
            mint,
            offered_amount,
            wanted_asset,
        ) is Ok,
    ensures
        cancel(
            initiate_with_token_offer(
                state,
                program_id,
                maker,
                maker_token_account,
                mint,
                offered_amount,
                wanted_asset,
            )->Ok_0,
            program_id,
            maker,
            maker,
            Some(maker_token_account),
        ) == Ok::<State, ErrorCode>(state),
{
    lemma_token_offer_opened(
        state,
        program_id,
        maker,
        maker_token_account,
        mint,
        offered_amount,
        wanted_asset,
    );
    lemma_escrow_authority(program_id, maker);
    let (escrow, bump) = escrow_address(program_id, maker)->Some_0;
    let custody = custody_address(program_id, maker);
    let opened = initiate_with_token_offer(
        state,
        program_id,
        maker,
        maker_token_account,
        mint,
        offered_amount,
        wanted_asset,
    )->Ok_0;
    let authority = Authority::Escrow { maker, bump };
    let refund = Instruction::TokenTransfer {
        from: custody,
        to: maker_token_account,
        amount: offered_amount,
        authority,
    };
    let shut = Instruction::CloseTokenAccount { account: custody, destination: maker, authority };
    let close = Instruction::CloseEscrow { escrow, destination: maker, authority };
    let ctx = Context {
        program_id,
        accounts: cancel_accounts(opened, program_id, maker, escrow, Some(maker_token_account)),
    };
    let plan = seq![refund, shut, close];
    assert(cancel_swap_plan(
        ctx,
        escrow_address(program_id, maker),
        escrow_token_address(program_id, escrow),
    ) == Ok::<Seq<Instruction>, ErrorCode>(plan));
    assert(plan.skip(1) =~= seq![shut, close]);
    assert(plan.skip(1).skip(1) =~= seq![close]);
    assert(plan.skip(1).skip(1).skip(1) =~= Seq::<Instruction>::empty());
    let refunded = step(opened, program_id, refund)->Ok_0;
    assert(step(opened, program_id, refund) is Ok);
    assert(run(opened, program_id, plan) == run(refunded, program_id, plan.skip(1)));
    let emptied = step(refunded, program_id, shut)->Ok_0;
    assert(step(refunded, program_id, shut) is Ok);
    assert(run(refunded, program_id, plan.skip(1)) == run(
        emptied,
        program_id,
        plan.skip(1).skip(1),
    ));
    let closed = step(emptied, program_id, close)->Ok_0;
    assert(step(emptied, program_id, close) is Ok);
    assert(run(emptied, program_id, plan.skip(1).skip(1)) == run(
        closed,
        program_id,
        plan.skip(1).skip(1).skip(1),
    ));
    assert(closed =~= state);
}

/// A maker has one open offer at a time: after an offer with a native
/// deposit is opened, the maker's next offer of either kind is rejected as
/// already existing.
pub proof fn lemma_no_double_open_after_native(
    state: State,
    program_id: Address,
    maker: Address,
    offered_amount: u64,
    wanted_asset: Asset,
    next_amount: u64,
    next_wanted: Asset,
    next_token_account: Address,
    next_mint: Address,
)
    requires
        initiate_with_native_offer(state, program_id, maker, offered_amount, wanted_asset) is Ok,
    ensures
        ({
            let opened = initiate_with_native_offer(
                state,
                program_id,
                maker,
                offered_amount,
                wanted_asset,
            )->Ok_0;
            &&& initiate_with_native_offer(opened, program_id, maker, next_amount, next_wanted)
                == Err::<State, ErrorCode>(ErrorCode::EscrowAlreadyExists)
            &&& initiate_with_token_offer(
                opened,
                program_id,
                maker,
                next_token_account,
                next_mint,
                next_amount,
                next_wanted,
            ) == Err::<State, ErrorCode>(ErrorCode::EscrowAlreadyExists)
        }),
{
    lemma_native_offer_opened(state, program_id, maker, offered_amount, wanted_asset);
    let opened = initiate_with_native_offer(
        state,
        program_id,
        maker,
        offered_amount,
        wanted_asset,
    )->Ok_0;
    let escrow = record_address(program_id, maker);
    assert(opened[escrow].data is Escrow);
    assert(info(opened, escrow).account.in_use());
}

/// A maker has one open offer at a time: after an offer with a token deposit
/// is opened, the maker's next offer of either kind is rejected as already
/// existing.
pub proof fn lemma_no_double_open_after_token(
    state: State,
    program_id: Address,
    maker: Address,
    maker_token_account: Address,
    mint: Address,
    offered_amount: u64,
    wanted_asset: Asset,
    next_amount: u64,
    next_wanted: Asset,
    next_token_account: Address,
    next_mint: Address,
)
    requires
        initiate_with_token_offer(
            state,
            program_id,
            maker,
            maker_token_account,
            mint,
            offered_amount,
            wanted_asset,
        ) is Ok,
    ensures
        ({
            let opened = initiate_with_token_offer(
                state,
                program_id,
                maker,
                maker_token_account,
                mint,
                offered_amount,
                wanted_asset,
            )->Ok_0;
            &&& initiate_with_native_offer(opened, program_id, maker, next_amount, next_wanted)
                == Err::<State, ErrorCode>(ErrorCode::EscrowAlreadyExists)
            &&& initiate_with_token_offer(
                opened,
                program_id,
                maker,
                next_token_account,
                next_mint,
                next_amount,
                next_wanted,
            ) == Err::<State, ErrorCode>(ErrorCode::EscrowAlreadyExists)
        }),
{
    lemma_token_offer_opened(
        state,
        program_id,
        maker,
        maker_token_account,
        mint,
        offered_amount,
        wanted_asset,
    );
    let opened = initiate_with_token_offer(
        state,
        program_id,
        maker,
        maker_token_account,
        mint,
        offered_amount,
        wanted_asset,
    )->Ok_0;
    let escrow = record_address(program_id, maker);
    assert(opened[escrow].data is Escrow);
    assert(info(opened, escrow).account.in_use());
}

/// Only the recorded maker cancels: where a record stands at the address
/// derived from `maker` and `caller` is not the maker it names, the
/// cancellation is rejected as unauthorized. A rejected operation leaves the
/// ledger as it was, so the record, the custody and every balance stay.
pub proof fn lemma_cancel_by_stranger(
    state: State,
    program_id: Address,
    caller: Address,
    maker: Address,
    maker_token_account: Option<Address>,
)
    requires
        escrow_address(program_id, maker) is Some,
        state[record_address(program_id, maker)].data matches AccountData::Escrow(record)
            && record.maker != caller,
    ensures
        cancel(state, program_id, caller, maker, maker_token_account) == Err::<State, ErrorCode>(
            ErrorCode::Unauthorized,
        ),
{
}

/// A cancellation asks for what the kind of the deposit needs and no more:
/// for a native deposit the closing of the record alone; for a token deposit
/// the transfer out of custody, then the closing of the custody, then the
/// closing of the record.
pub proof fn lemma_cancel_dispatch(ctx: Context<CancelSwap>, found: Found, found_custody: Found)
    requires
        cancel_swap_plan(ctx, found, found_custody) is Ok,
    ensures
        ({
            let plan = cancel_swap_plan(ctx, found, found_custody)->Ok_0;
            &&& ctx.accounts.escrow.account.data matches AccountData::Escrow(record)
            &&& record.offered_asset is Sol ==> plan.len() == 1 && plan[0] is CloseEscrow
            &&& record.offered_asset matches Asset::Token { mint, amount } ==> {
                &&& plan.len() == 3
                &&& plan[0] matches Instruction::TokenTransfer { amount: moved, .. } && moved
                    == amount
                &&& plan[1] is CloseTokenAccount
                &&& plan[2] is CloseEscrow
            }
        }),
{
}

} // verus!
