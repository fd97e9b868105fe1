use sol_swap::{
    find_escrow_address, find_escrow_token_address, Account, AccountData, Address, Asset,
    Authority, ErrorCode, Escrow, Instruction, Ledger, TokenAccount,
};

fn address(fill: u8) -> Address {
    Address::new([fill; 32])
}

fn program() -> Address {
    address(100)
}

fn wallet(lamports: u64) -> Account {
    Account { lamports, data: AccountData::Empty }
}

fn holding(mint: Address, owner: Address, amount: u64) -> Account {
    Account { lamports: 0, data: AccountData::Token(TokenAccount { mint, owner, amount }) }
}

fn vacant() -> Account {
    wallet(0)
}

const MAKER: u8 = 1;
const MINT: u8 = 50;
const PURSE: u8 = 70;

/// A ledger on which the maker has 5,000,000 units of native currency and a
/// holding of 80 tokens.
fn funded() -> Ledger {
    let mut ledger = Ledger::new(program());
    ledger.set_account(address(MAKER), wallet(5_000_000));
    ledger.set_account(address(PURSE), holding(address(MINT), address(MAKER), 80));
    ledger
}

fn addresses_of(maker: Address) -> (Address, u8, Address, u8) {
    let (escrow, bump) = find_escrow_address(&program(), &maker).unwrap();
    let (custody, token_bump) = find_escrow_token_address(&program(), &escrow).unwrap();
    (escrow, bump, custody, token_bump)
}

fn watched() -> Vec<Address> {
    let (escrow, _, custody, _) = addresses_of(address(MAKER));
    vec![address(MAKER), address(PURSE), escrow, custody, address(2), address(3)]
}

fn same_accounts(a: &Ledger, b: &Ledger) -> bool {
    watched().iter().all(|key| a.account(key) == b.account(key))
}

#[test]
fn new_ledger_is_vacant_everywhere() {
    let ledger = Ledger::new(program());
    assert_eq!(ledger.program_id(), program());
    for fill in [0u8, 1, 100, 255] {
        assert_eq!(ledger.account(&address(fill)), vacant());
    }
    let info = ledger.account_info(&address(4));
    assert_eq!(info.key, address(4));
    assert_eq!(info.account, vacant());
}

#[test]
fn set_account_changes_one_address() {
    let mut ledger = funded();
    ledger.set_account(address(2), wallet(9));
    assert_eq!(ledger.account(&address(2)), wallet(9));
    assert_eq!(ledger.account(&address(MAKER)), wallet(5_000_000));
    ledger.set_account(address(MAKER), wallet(1));
    assert_eq!(ledger.account(&address(MAKER)), wallet(1));
    assert_eq!(ledger.account(&address(2)), wallet(9));
    assert_eq!(ledger.account(&address(PURSE)), holding(address(MINT), address(MAKER), 80));
}

#[test]
fn native_offer_then_cancel() {
    let maker = address(MAKER);
    let (escrow, bump, _, _) = addresses_of(maker);
    let wanted = Asset::Token { mint: address(MINT), amount: 50 };
    let before = funded();
    let mut ledger = funded();

    let record = ledger.initiate_with_native_offer(maker, 1_000_000, wanted).unwrap();
    assert_eq!(
        record,
        Escrow {
            maker,
            offered_asset: Asset::Sol { amount: 1_000_000 },
            wanted_asset: wanted,
            bump,
        }
    );
    let custody = ledger.account(&escrow);
    assert!(custody.lamports >= 1_000_000);
    assert_eq!(custody, Account { lamports: 1_000_000, data: AccountData::Escrow(record) });
    assert_eq!(ledger.account(&maker), wallet(4_000_000));

    assert_eq!(ledger.cancel(maker, maker, None), Ok(()));
    assert_eq!(ledger.account(&escrow), vacant());
    assert_eq!(ledger.account(&maker), wallet(5_000_000));
    assert!(same_accounts(&ledger, &before));
}

#[test]
fn token_offer_then_cancel() {
    let maker = address(MAKER);
    let mint = address(MINT);
    let purse = address(PURSE);
    let (escrow, bump, custody, _) = addresses_of(maker);
    let wanted = Asset::Sol { amount: 7 };
    let before = funded();
    let mut ledger = funded();

    let record = ledger.initiate_with_token_offer(maker, purse, mint, 50, wanted).unwrap();
    assert_eq!(
        record,
        Escrow { maker, offered_asset: Asset::Token { mint, amount: 50 }, wanted_asset: wanted, bump }
    );
    assert_eq!(ledger.account(&custody), holding(mint, escrow, 50));
    assert_eq!(ledger.account(&purse), holding(mint, maker, 30));
    assert_eq!(ledger.account(&escrow), Account { lamports: 0, data: AccountData::Escrow(record) });
    assert_eq!(ledger.account(&maker), wallet(5_000_000));

    assert_eq!(ledger.cancel(maker, maker, Some(purse)), Ok(()));
    assert_eq!(ledger.account(&purse), holding(mint, maker, 80));
    assert_eq!(ledger.account(&custody), vacant());
    assert_eq!(ledger.account(&escrow), vacant());
    assert!(same_accounts(&ledger, &before));
}

#[test]
fn token_deposit_may_return_to_another_holding_of_the_maker() {
    let maker = address(MAKER);
    let mint = address(MINT);
    let mut ledger = funded();
    ledger.set_account(address(71), holding(mint, maker, 5));
    ledger.initiate_with_token_offer(maker, address(PURSE), mint, 50, Asset::Sol { amount: 7 }).unwrap();
    assert_eq!(ledger.cancel(maker, maker, Some(address(71))), Ok(()));
    assert_eq!(ledger.account(&address(71)), holding(mint, maker, 55));
    assert_eq!(ledger.account(&address(PURSE)), holding(mint, maker, 30));
}

#[test]
fn second_offer_is_rejected_and_changes_nothing() {
    let maker = address(MAKER);
    let mut ledger = funded();
    ledger.initiate_with_native_offer(maker, 10, Asset::Sol { amount: 1 }).unwrap();
    let opened = {
        let mut copy = funded();
        copy.initiate_with_native_offer(maker, 10, Asset::Sol { amount: 1 }).unwrap();
        copy
    };
    assert_eq!(
        ledger.initiate_with_native_offer(maker, 20, Asset::Sol { amount: 2 }),
        Err(ErrorCode::EscrowAlreadyExists)
    );
    assert!(same_accounts(&ledger, &opened));
    assert_eq!(
        ledger.initiate_with_token_offer(maker, address(PURSE), address(MINT), 5, Asset::Sol { amount: 2 }),
        Err(ErrorCode::EscrowAlreadyExists)
    );
    assert!(same_accounts(&ledger, &opened));

    let mut ledger = funded();
    ledger
        .initiate_with_token_offer(maker, address(PURSE), address(MINT), 5, Asset::Sol { amount: 2 })
        .unwrap();
    assert_eq!(
        ledger.initiate_with_native_offer(maker, 20, Asset::Sol { amount: 2 }),
        Err(ErrorCode::EscrowAlreadyExists)
    );
    assert_eq!(
        ledger.initiate_with_token_offer(maker, address(PURSE), address(MINT), 5, Asset::Sol { amount: 2 }),
        Err(ErrorCode::EscrowAlreadyExists)
    );
}

#[test]
fn closed_offer_may_be_opened_again() {
    let maker = address(MAKER);
    let mut ledger = funded();
    ledger.initiate_with_native_offer(maker, 10, Asset::Sol { amount: 1 }).unwrap();
    ledger.cancel(maker, maker, None).unwrap();
    let record = ledger
        .initiate_with_token_offer(maker, address(PURSE), address(MINT), 80, Asset::Sol { amount: 1 })
        .unwrap();
    assert_eq!(record.offered_asset, Asset::Token { mint: address(MINT), amount: 80 });
    ledger.cancel(maker, maker, Some(address(PURSE))).unwrap();
    assert!(ledger.initiate_with_native_offer(maker, 5_000_000, Asset::Sol { amount: 1 }).is_ok());
    assert_eq!(ledger.account(&maker), wallet(0));
}

#[test]
fn offers_of_different_makers_do_not_meet() {
    let mut ledger = funded();
    ledger.set_account(address(2), wallet(100));
    ledger.initiate_with_native_offer(address(MAKER), 10, Asset::Sol { amount: 1 }).unwrap();
    ledger.initiate_with_native_offer(address(2), 100, Asset::Sol { amount: 1 }).unwrap();
    ledger.cancel(address(MAKER), address(MAKER), None).unwrap();
    let (other, _, _, _) = addresses_of(address(2));
    assert_eq!(ledger.account(&other).lamports, 100);
    assert_eq!(ledger.account(&address(MAKER)), wallet(5_000_000));
    assert_eq!(ledger.account(&address(2)), wallet(0));
}

#[test]
fn stranger_cannot_cancel() {
    let maker = address(MAKER);
    let stranger = address(2);
    let mut ledger = funded();
    ledger.set_account(stranger, wallet(1));
    ledger.set_account(address(72), holding(address(MINT), stranger, 0));
    ledger
        .initiate_with_token_offer(maker, address(PURSE), address(MINT), 50, Asset::Sol { amount: 7 })
        .unwrap();
    let opened = {
        let mut copy = funded();
        copy.set_account(stranger, wallet(1));
        copy.initiate_with_token_offer(maker, address(PURSE), address(MINT), 50, Asset::Sol { amount: 7 })
            .unwrap();
        copy
    };
    assert_eq!(ledger.cancel(stranger, maker, Some(address(72))), Err(ErrorCode::Unauthorized));
    assert_eq!(ledger.cancel(stranger, maker, Some(address(PURSE))), Err(ErrorCode::Unauthorized));
    assert_eq!(ledger.cancel(stranger, maker, None), Err(ErrorCode::Unauthorized));
    assert!(same_accounts(&ledger, &opened));
    assert_eq!(ledger.account(&address(72)), holding(address(MINT), stranger, 0));
    // the stranger has no offer of their own either
    assert_eq!(ledger.cancel(stranger, stranger, None), Err(ErrorCode::EscrowMissing));
    assert_eq!(ledger.cancel(maker, maker, Some(address(PURSE))), Ok(()));
}

#[test]
fn cancel_without_an_offer_is_missing() {
    let mut ledger = funded();
    assert_eq!(ledger.cancel(address(MAKER), address(MAKER), None), Err(ErrorCode::EscrowMissing));
    assert!(same_accounts(&ledger, &funded()));
}

#[test]
fn cancel_of_a_token_offer_needs_the_makers_holding() {
    let maker = address(MAKER);
    let mut ledger = funded();
    ledger.set_account(address(73), holding(address(51), maker, 0));
    ledger
        .initiate_with_token_offer(maker, address(PURSE), address(MINT), 50, Asset::Sol { amount: 7 })
        .unwrap();
    assert_eq!(ledger.cancel(maker, maker, None), Err(ErrorCode::MissingTokenAccount));
    assert_eq!(ledger.cancel(maker, maker, Some(address(74))), Err(ErrorCode::MissingTokenAccount));
    assert_eq!(ledger.cancel(maker, maker, Some(address(73))), Err(ErrorCode::MissingTokenAccount));
    let (_, _, custody, _) = addresses_of(maker);
    assert_eq!(ledger.account(&custody), holding(address(MINT), addresses_of(maker).0, 50));
    assert_eq!(ledger.cancel(maker, maker, Some(address(PURSE))), Ok(()));
}

#[test]
fn offers_beyond_the_balance_are_rejected() {
    let maker = address(MAKER);
    let mut ledger = funded();
    assert_eq!(
        ledger.initiate_with_native_offer(maker, 5_000_001, Asset::Sol { amount: 1 }),
        Err(ErrorCode::InsufficientFunds)
    );
    assert!(same_accounts(&ledger, &funded()));
    assert_eq!(
        ledger.initiate_with_token_offer(maker, address(PURSE), address(MINT), 81, Asset::Sol { amount: 1 }),
        Err(ErrorCode::InsufficientFunds)
    );
    assert!(same_accounts(&ledger, &funded()));
    assert_eq!(
        ledger.initiate_with_token_offer(maker, address(PURSE), address(51), 1, Asset::Sol { amount: 1 }),
        Err(ErrorCode::MissingTokenAccount)
    );
    assert_eq!(
        ledger.initiate_with_token_offer(address(2), address(PURSE), address(MINT), 1, Asset::Sol { amount: 1 }),
        Err(ErrorCode::MissingTokenAccount)
    );
    assert_eq!(
        ledger.initiate_with_native_offer(address(2), 1, Asset::Sol { amount: 1 }),
        Err(ErrorCode::InsufficientFunds)
    );
    assert!(same_accounts(&ledger, &funded()));
}

#[test]
fn offer_on_a_funded_record_address_is_rejected() {
    let maker = address(MAKER);
    let (escrow, _, custody, _) = addresses_of(maker);
    let mut ledger = funded();
    ledger.set_account(escrow, wallet(1));
    assert_eq!(
        ledger.initiate_with_native_offer(maker, 10, Asset::Sol { amount: 1 }),
        Err(ErrorCode::EscrowAlreadyExists)
    );
    let mut ledger = funded();
    ledger.set_account(custody, wallet(1));
    assert_eq!(
        ledger.initiate_with_token_offer(maker, address(PURSE), address(MINT), 1, Asset::Sol { amount: 1 }),
        Err(ErrorCode::EscrowAlreadyExists)
    );
    assert_eq!(ledger.account(&escrow), vacant());
}

#[test]
fn tokens_sent_into_custody_block_the_cancellation() {
    let maker = address(MAKER);
    let (escrow, _, custody, _) = addresses_of(maker);
    let mut ledger = funded();
    ledger
        .initiate_with_token_offer(maker, address(PURSE), address(MINT), 50, Asset::Sol { amount: 7 })
        .unwrap();
    ledger.set_account(custody, holding(address(MINT), escrow, 51));
    assert_eq!(ledger.cancel(maker, maker, Some(address(PURSE))), Err(ErrorCode::CustodyNotEmpty));
    assert_eq!(ledger.account(&custody), holding(address(MINT), escrow, 51));
    assert_eq!(ledger.account(&address(PURSE)), holding(address(MINT), maker, 30));
    assert!(matches!(ledger.account(&escrow).data, AccountData::Escrow(_)));
}

#[test]
fn refund_that_overflows_is_rejected() {
    let maker = address(MAKER);
    let mut ledger = funded();
    ledger.initiate_with_native_offer(maker, 10, Asset::Sol { amount: 1 }).unwrap();
    ledger.set_account(maker, wallet(u64::MAX - 9));
    assert_eq!(ledger.cancel(maker, maker, None), Err(ErrorCode::BalanceOverflow));
    ledger.set_account(maker, wallet(u64::MAX - 10));
    assert_eq!(ledger.cancel(maker, maker, None), Ok(()));
    assert_eq!(ledger.account(&maker), wallet(u64::MAX));
}

#[test]
fn record_with_a_wrong_bump_cannot_be_closed() {
    let maker = address(MAKER);
    let (escrow, bump, _, _) = addresses_of(maker);
    let mut ledger = funded();
    let mut record = ledger.initiate_with_native_offer(maker, 10, Asset::Sol { amount: 1 }).unwrap();
    record.bump = bump.wrapping_sub(1);
    ledger.set_account(escrow, Account { lamports: 10, data: AccountData::Escrow(record) });
    assert_eq!(ledger.cancel(maker, maker, None), Err(ErrorCode::Unauthorized));
    assert_eq!(ledger.account(&escrow).lamports, 10);
    assert_eq!(ledger.account(&maker), wallet(4_999_990));
}

#[test]
fn requests_run_all_or_none() {
    let maker = address(MAKER);
    let (escrow, bump, _, _) = addresses_of(maker);
    let record = Escrow {
        maker,
        offered_asset: Asset::Sol { amount: 10 },
        wanted_asset: Asset::Sol { amount: 1 },
        bump,
    };
    let create =
        Instruction::CreateEscrow { escrow, authority: Authority::Escrow { maker, bump }, record };
    let overdraw = Instruction::Transfer {
        from: maker,
        to: escrow,
        lamports: 5_000_001,
        authority: Authority::Signature { signer: maker },
    };
    let mut ledger = funded();
    assert_eq!(ledger.execute(&vec![create, overdraw]), Err(ErrorCode::InsufficientFunds));
    assert!(same_accounts(&ledger, &funded()));
    assert_eq!(ledger.execute(&vec![]), Ok(()));
    assert_eq!(ledger.execute(&vec![create]), Ok(()));
    assert_eq!(ledger.account(&escrow), Account { lamports: 0, data: AccountData::Escrow(record) });
    assert_eq!(ledger.execute(&vec![create]), Err(ErrorCode::EscrowAlreadyExists));
}

#[test]
fn requests_need_a_valid_authority() {
    let maker = address(MAKER);
    let stranger = address(2);
    let mint = address(MINT);
    let (escrow, bump, custody, token_bump) = addresses_of(maker);
    let mut ledger = funded();
    ledger.set_account(stranger, wallet(3));
    ledger.set_account(address(72), holding(mint, stranger, 0));
    ledger.initiate_with_token_offer(maker, address(PURSE), mint, 50, Asset::Sol { amount: 7 }).unwrap();
    let signed = Authority::Signature { signer: stranger };
    let derived = Authority::Escrow { maker, bump };

    let reject = |ledger: &mut Ledger, request: Instruction| ledger.execute(&vec![request]).unwrap_err();

    // nobody signs for another wallet, for custody or for a record
    assert_eq!(
        reject(&mut ledger, Instruction::Transfer { from: maker, to: stranger, lamports: 1, authority: signed }),
        ErrorCode::Unauthorized
    );
    assert_eq!(
        reject(&mut ledger, Instruction::TokenTransfer { from: custody, to: address(72), amount: 1, authority: signed }),
        ErrorCode::Unauthorized
    );
    assert_eq!(
        reject(&mut ledger, Instruction::TokenTransfer { from: address(PURSE), to: address(72), amount: 1, authority: signed }),
        ErrorCode::Unauthorized
    );
    assert_eq!(
        reject(&mut ledger, Instruction::CloseEscrow { escrow, destination: stranger, authority: signed }),
        ErrorCode::Unauthorized
    );
    assert_eq!(
        reject(
            &mut ledger,
            Instruction::CloseEscrow {
                escrow,
                destination: stranger,
                authority: Authority::Escrow { maker: stranger, bump },
            }
        ),
        ErrorCode::Unauthorized
    );
    assert_eq!(
        reject(&mut ledger, Instruction::CloseTokenAccount { account: custody, destination: stranger, authority: signed }),
        ErrorCode::Unauthorized
    );
    // a record's balance cannot be moved by a plain transfer, whoever asks
    assert_eq!(
        reject(&mut ledger, Instruction::Transfer { from: escrow, to: stranger, lamports: 0, authority: derived }),
        ErrorCode::Unauthorized
    );
    // an account is created only at the address that its authority derives
    assert_eq!(
        reject(
            &mut ledger,
            Instruction::CreateTokenAccount {
                account: address(75),
                authority: Authority::EscrowToken { escrow, bump: token_bump },
                mint,
                owner: stranger,
            }
        ),
        ErrorCode::Unauthorized
    );
    // custody with tokens in it cannot be closed
    assert_eq!(
        reject(&mut ledger, Instruction::CloseTokenAccount { account: custody, destination: maker, authority: derived }),
        ErrorCode::CustodyNotEmpty
    );
    // what is no holding cannot be closed or paid from as one
    assert_eq!(
        reject(&mut ledger, Instruction::CloseTokenAccount { account: maker, destination: maker, authority: derived }),
        ErrorCode::MissingTokenAccount
    );
    assert_eq!(
        reject(&mut ledger, Instruction::TokenTransfer { from: custody, to: maker, amount: 1, authority: derived }),
        ErrorCode::MissingTokenAccount
    );
    assert_eq!(
        reject(&mut ledger, Instruction::CloseEscrow { escrow: custody, destination: maker, authority: derived }),
        ErrorCode::EscrowMissing
    );
    // the owner's own signature moves the owner's funds
    assert_eq!(
        ledger.execute(&vec![
            Instruction::Transfer { from: stranger, to: maker, lamports: 3, authority: signed },
            Instruction::TokenTransfer {
                from: address(PURSE),
                to: address(72),
                amount: 30,
                authority: Authority::Signature { signer: maker },
            },
        ]),
        Ok(())
    );
    assert_eq!(ledger.account(&maker), wallet(5_000_003));
    assert_eq!(ledger.account(&stranger), wallet(0));
    assert_eq!(ledger.account(&address(72)), holding(mint, stranger, 30));
    assert_eq!(ledger.account(&address(PURSE)), holding(mint, maker, 0));
}

#[test]
fn transfers_to_oneself_change_nothing() {
    let maker = address(MAKER);
    let mut ledger = funded();
    let signed = Authority::Signature { signer: maker };
    assert_eq!(
        ledger.execute(&vec![
            Instruction::Transfer { from: maker, to: maker, lamports: 5_000_000, authority: signed },
            Instruction::TokenTransfer { from: address(PURSE), to: address(PURSE), amount: 80, authority: signed },
        ]),
        Ok(())
    );
    assert!(same_accounts(&ledger, &funded()));
    assert_eq!(
        ledger.execute(&vec![Instruction::Transfer { from: maker, to: maker, lamports: 5_000_001, authority: signed }]),
        Err(ErrorCode::InsufficientFunds)
    );
}

#[test]
fn token_credit_that_overflows_is_rejected() {
    let maker = address(MAKER);
    let mut ledger = funded();
    ledger.set_account(address(71), holding(address(MINT), maker, u64::MAX - 79));
    let signed = Authority::Signature { signer: maker };
    assert_eq!(
        ledger.execute(&vec![Instruction::TokenTransfer { from: address(PURSE), to: address(71), amount: 80, authority: signed }]),
        Err(ErrorCode::BalanceOverflow)
    );
    assert_eq!(
        ledger.execute(&vec![Instruction::TokenTransfer { from: address(PURSE), to: address(71), amount: 79, authority: signed }]),
        Ok(())
    );
    assert_eq!(ledger.account(&address(71)), holding(address(MINT), maker, u64::MAX));
    ledger.set_account(address(2), wallet(u64::MAX));
    assert_eq!(
        ledger.execute(&vec![Instruction::Transfer { from: maker, to: address(2), lamports: 1, authority: signed }]),
        Err(ErrorCode::BalanceOverflow)
    );
}
