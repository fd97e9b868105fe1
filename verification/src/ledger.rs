//! An in-memory value-transfer service.
//!
//! A ledger gives every address an account: a native balance and, possibly,
//! the record of an offer or a token holding. An address never used has the
//! vacant account. The ledger carries out the requests of the swap program,
//! each under its authority, and a list of requests as a whole or not at all.

use vstd::prelude::*;
use crate::address::Address;
use crate::instruction::{Authority, Instruction};
use crate::state::{Account, AccountData, AccountInfo, ErrorCode, TokenAccount};

verus! {

/// The account of every address: the state of a ledger.
pub type State = Map<Address, Account>;

/// Every address has an account, as on every `Ledger`.
pub open spec fn total(state: State) -> bool {
    forall|key: Address| state.dom().contains(key)
}

/// Adds `lamports` to the native balance of `to`, which must be able to hold
/// them.
pub open spec fn credit(state: State, to: Address, lamports: u64) -> Result<State, ErrorCode> {
    let account = state[to];
    if account.lamports + lamports > u64::MAX {
        Err(ErrorCode::BalanceOverflow)
    } else {
        Ok(
            state.insert(
                to,
                Account { lamports: (account.lamports + lamports) as u64, data: account.data },
            ),
        )
    }
}

/// Creates an account with `data` and no balance at `key`. The authority must
/// be valid for `key`, and `key` must be unused.
pub open spec fn create_account(
    state: State,
    program_id: Address,
    key: Address,
    authority: Authority,
    data: AccountData,
) -> Result<State, ErrorCode> {
    if !authority.covers(program_id, key) {
        Err(ErrorCode::Unauthorized)
    } else if state[key].in_use() {
        Err(ErrorCode::EscrowAlreadyExists)
    } else {
        Ok(state.insert(key, Account { lamports: 0, data }))
    }
}

/// Moves `lamports` from `from` to `to`. The authority must be valid for
/// `from`, which must be a plain wallet that holds the amount.
pub open spec fn transfer(
    state: State,
    program_id: Address,
    from: Address,
    to: Address,
    lamports: u64,
    authority: Authority,
) -> Result<State, ErrorCode> {
    let source = state[from];
    if !authority.covers(program_id, from) || !(source.data is Empty) {
        Err(ErrorCode::Unauthorized)
    } else if source.lamports < lamports {
        Err(ErrorCode::InsufficientFunds)
    } else if from == to {
        Ok(state)
    } else {
        credit(
            state.insert(
                from,
                Account { lamports: (source.lamports - lamports) as u64, data: source.data },
            ),
            to,
            lamports,
        )
    }
}

/// Moves `amount` tokens from the holding at `from` to the holding at `to`.
/// Both must be holdings of one mint, the authority must be valid for the
/// owner of the first, and the first must hold the amount.
pub open spec fn token_transfer(
    state: State,
    program_id: Address,
    from: Address,
    to: Address,
    amount: u64,
    authority: Authority,
) -> Result<State, ErrorCode> {
    match (state[from].data, state[to].data) {
        (AccountData::Token(source), AccountData::Token(target)) => if !authority.covers(
            program_id,
            source.owner,
        ) {
            Err(ErrorCode::Unauthorized)
        } else if source.mint != target.mint {
            Err(ErrorCode::MissingTokenAccount)
        } else if source.amount < amount {
            Err(ErrorCode::InsufficientFunds)
        } else if from == to {
            Ok(state)
        } else if target.amount + amount > u64::MAX {
            Err(ErrorCode::BalanceOverflow)
        } else {
            Ok(
                state.insert(
                    from,
                    Account {
                        lamports: state[from].lamports,
                        data: AccountData::Token(
                            TokenAccount {
                                mint: source.mint,
                                owner: source.owner,
                                amount: (source.amount - amount) as u64,
                            },
                        ),
                    },
                ).insert(
                    to,
                    Account {
                        lamports: state[to].lamports,
                        data: AccountData::Token(
                            TokenAccount {
                                mint: target.mint,
                                owner: target.owner,
                                amount: (target.amount + amount) as u64,
                            },
                        ),
                    },
                ),
            )
        },
        _ => Err(ErrorCode::MissingTokenAccount),
    }
}

/// Closes the token holding at `account`, which must hold no tokens, on an
/// authority valid for its owner. The address becomes vacant; the native
/// balance goes to `destination`.
pub open spec fn close_token_account(
    state: State,
    program_id: Address,
    account: Address,
    destination: Address,
    authority: Authority,
) -> Result<State, ErrorCode> {
    match state[account].data {
        AccountData::Token(holding) => if !authority.covers(program_id, holding.owner) {
            Err(ErrorCode::Unauthorized)
        } else if holding.amount != 0 {
            Err(ErrorCode::CustodyNotEmpty)
        } else {
            credit(state.insert(account, Account::vacant()), destination, state[account].lamports)
        },
        _ => Err(ErrorCode::MissingTokenAccount),
    }
}

/// Closes the record at `escrow` on an authority valid for that address. The
/// address becomes vacant; the native balance, which is the deposit of a
/// native offer, goes to `destination`.
pub open spec fn close_escrow(
    state: State,
    program_id: Address,
    escrow: Address,
    destination: Address,
    authority: Authority,
) -> Result<State, ErrorCode> {
    match state[escrow].data {
        AccountData::Escrow(_) => if !authority.covers(program_id, escrow) {
            Err(ErrorCode::Unauthorized)
        } else {
            credit(state.insert(escrow, Account::vacant()), destination, state[escrow].lamports)
        },
        _ => Err(ErrorCode::EscrowMissing),
    }
}

/// The state after one request, or why the request is rejected.
pub open spec fn step(state: State, program_id: Address, instruction: Instruction) -> Result<
    State,
    ErrorCode,
> {
    match instruction {
        Instruction::CreateEscrow { escrow, authority, record } => create_account(
            state,
            program_id,
            escrow,
            authority,
            AccountData::Escrow(record),
        ),
        Instruction::CreateTokenAccount { account, authority, mint, owner } => create_account(
            state,
            program_id,
            account,
            authority,
            AccountData::Token(TokenAccount { mint, owner, amount: 0 }),
        ),
        Instruction::Transfer { from, to, lamports, authority } => transfer(
            state,
            program_id,
            from,
            to,
            lamports,
            authority,
        ),
        Instruction::TokenTransfer { from, to, amount, authority } => token_transfer(
            state,
            program_id,
            from,
            to,
            amount,
            authority,
        ),
        Instruction::CloseTokenAccount { account, destination, authority } => close_token_account(
            state,
            program_id,
            account,
            destination,
            authority,
        ),
        Instruction::CloseEscrow { escrow, destination, authority } => close_escrow(
            state,
            program_id,
            escrow,
            destination,
            authority,
        ),
    }
}

/// The state after all requests of `plan`, in order, or the reason for which
/// the first rejected one is rejected.
pub open spec fn run(state: State, program_id: Address, plan: Seq<Instruction>) -> Result<
    State,
    ErrorCode,
>
    decreases plan.len(),
{
    if plan.len() == 0 {
        Ok(state)
    } else {
        match step(state, program_id, plan[0]) {
            Ok(next) => run(next, program_id, plan.skip(1)),
            Err(error) => Err(error),
        }
    }
}

/// Whether a ledger has gone from `before` to what `expected` names: to the
/// new state on success, and nowhere on rejection.
pub open spec fn follows(
    result: Result<(), ErrorCode>,
    before: State,
    after: State,
    expected: Result<State, ErrorCode>,
) -> bool {
    match expected {
        Ok(next) => result is Ok && after == next,
        Err(error) => result == Err::<(), ErrorCode>(error) && after == before,
    }
}

/// The accounts of all addresses.
pub struct Ledger {
    program_id: Address,
    accounts: Vec<AccountInfo>,
}

/// The state that the last entry for `key` gives, or the vacant account.
spec fn lookup(entries: Seq<AccountInfo>, key: Address) -> Account
    decreases entries.len(),
{
    if entries.len() == 0 {
        Account::vacant()
    } else if entries.last().key == key {
        entries.last().account
    } else {
        lookup(entries.drop_last(), key)
    }
}

/// Replacing the last entry for an address replaces the state of that
/// address alone.
proof fn lemma_lookup_update(entries: Seq<AccountInfo>, at: int, entry: AccountInfo, key: Address)
    requires
        0 <= at < entries.len(),
        entries[at].key == entry.key,
        forall|j: int| at < j < entries.len() ==> entries[j].key != entry.key,
    ensures
        lookup(entries.update(at, entry), key) == if key == entry.key {
            entry.account
        } else {
            lookup(entries, key)
        },
    decreases entries.len(),
{
    let updated = entries.update(at, entry);
    if at == entries.len() - 1 {
        assert(updated.drop_last() =~= entries.drop_last());
    } else {
        assert(updated.drop_last() =~= entries.drop_last().update(at, entry));
        assert(updated.last() == entries.last());
        lemma_lookup_update(entries.drop_last(), at, entry, key);
    }
}

impl View for Ledger {
    type V = Map<Address, Account>;

    /// The account of every address.
    closed spec fn view(&self) -> Map<Address, Account> {
        Map::total(|key: Address| lookup(self.accounts@, key))
    }
}

impl Ledger {
    /// The address of the swap program that the ledger serves.
    pub closed spec fn id(&self) -> Address {
        self.program_id
    }

    /// Every address has an account.
    pub proof fn lemma_total(&self)
        ensures
            total(self@),
    {
    }

    /// A ledger on which no address has been used.
    pub fn new(program_id: Address) -> (ledger: Ledger)
        ensures
            ledger.id() == program_id,
            ledger@ == Map::total(|key: Address| Account::vacant()),
    {
        let ledger = Ledger { program_id, accounts: Vec::new() };
        proof {
            assert(ledger@ =~= Map::total(|key: Address| Account::vacant()));
        }
        ledger
    }

    /// The address of the swap program that the ledger serves.
    pub fn program_id(&self) -> (program_id: Address)
        ensures
            program_id == self.id(),
    {
        self.program_id
    }

    /// Where the last entry for `key` stands.
    fn position(&self, key: &Address) -> (found: Option<usize>)
        ensures
            match found {
                Some(at) => {
                    &&& at < self.accounts@.len()
                    &&& self.accounts@[at as int].key == *key
                    &&& self.accounts@[at as int].account == self@[*key]
                    &&& forall|j: int| at < j < self.accounts@.len() ==> self.accounts@[j].key != *key
                },
                None => self@[*key] == Account::vacant(),
            },
    {
        let mut at: usize = self.accounts.len();
        proof {
            assert(self.accounts@.take(at as int) =~= self.accounts@);
        }
        while at > 0
            invariant
                at <= self.accounts@.len(),
                lookup(self.accounts@, *key) == lookup(self.accounts@.take(at as int), *key),
                forall|j: int| at <= j < self.accounts@.len() ==> self.accounts@[j].key != *key,
            decreases at,
        {
            proof {
                assert(self.accounts@.take(at as int).drop_last() =~= self.accounts@.take(
                    at as int - 1,
                ));
            }
            at -= 1;
            if self.accounts[at].key == *key {
                return Some(at);
            }
        }
        None
    }

    /// The account of `key`.
    pub fn account(&self, key: &Address) -> (account: Account)
        ensures
            account == self@[*key],
    {
        match self.position(key) {
            Some(at) => self.accounts[at].account,
            None => Account { lamports: 0, data: AccountData::Empty },
        }
    }

    /// The account of `key` together with its address.
    pub fn account_info(&self, key: &Address) -> (info: AccountInfo)
        ensures
            info == (AccountInfo { key: *key, account: self@[*key] }),
    {
        AccountInfo { key: *key, account: self.account(key) }
    }

    /// Gives `key` the account `account`, as a deposit or a payment from
    /// outside the swap program does. No other address changes.
    pub fn set_account(&mut self, key: Address, account: Account)
        ensures
            final(self)@ == old(self)@.insert(key, account),
            final(self).id() == old(self).id(),
    {
        let entry = AccountInfo { key, account };
        match self.position(&key) {
            Some(at) => {
                self.accounts.set(at, entry);
                proof {
                    assert forall|other: Address| #[trigger]
                        lookup(self.accounts@, other) == old(self)@.insert(key, account)[other] by {
                        lemma_lookup_update(old(self).accounts@, at as int, entry, other);
                    }
                }
            },
            None => {
                self.accounts.push(entry);
                proof {
                    assert(self.accounts@.drop_last() =~= old(self).accounts@);
                }
            },
        }
        proof {
            assert(self@ =~= old(self)@.insert(key, account));
        }
    }

    /// A copy of the ledger.
    fn snapshot(&self) -> (copy: Ledger)
        ensures
            copy@ == self@,
            copy.id() == self.id(),
    {
        let mut accounts: Vec<AccountInfo> = Vec::new();
        let mut at: usize = 0;
        while at < self.accounts.len()
            invariant
                at <= self.accounts@.len(),
                accounts@ == self.accounts@.take(at as int),
            decreases self.accounts@.len() - at,
        {
            accounts.push(self.accounts[at]);
            at += 1;
        }
        proof {
            assert(accounts@ =~= self.accounts@);
        }
        Ledger { program_id: self.program_id, accounts }
    }
}

impl Ledger {
    /// Adds `lamports` to the native balance of `to`.
    fn credit(&mut self, to: Address, lamports: u64) -> (result: Result<(), ErrorCode>)
        ensures
            follows(result, old(self)@, final(self)@, credit(old(self)@, to, lamports)),
            final(self).id() == old(self).id(),
    {
        let account = self.account(&to);
        if lamports > u64::MAX - account.lamports {
            return Err(ErrorCode::BalanceOverflow);
        }
        self.set_account(to, Account { lamports: account.lamports + lamports, data: account.data });
        Ok(())
    }

    /// Creates an account with `data` and no balance at the unused address
    /// `key`.
    fn create_account(&mut self, key: Address, authority: Authority, data: AccountData) -> (result:
        Result<(), ErrorCode>)
        ensures
            follows(
                result,
                old(self)@,
                final(self)@,
                create_account(old(self)@, old(self).id(), key, authority, data),
            ),
            final(self).id() == old(self).id(),
    {
        if !authority.permits(&self.program_id, &key) {
            return Err(ErrorCode::Unauthorized);
        }
        if self.account(&key).is_in_use() {
            return Err(ErrorCode::EscrowAlreadyExists);
        }
        self.set_account(key, Account { lamports: 0, data });
        Ok(())
    }

    /// Moves native currency between two accounts.
    fn transfer(&mut self, from: Address, to: Address, lamports: u64, authority: Authority) -> (result:
        Result<(), ErrorCode>)
        ensures
            follows(
                result,
                old(self)@,
                final(self)@,
                transfer(old(self)@, old(self).id(), from, to, lamports, authority),
            ),
            final(self).id() == old(self).id(),
    {
        let source = self.account(&from);
        let plain = match source.data {
            AccountData::Empty => true,
            _ => false,
        };
        if !authority.permits(&self.program_id, &from) || !plain {
            return Err(ErrorCode::Unauthorized);
        }
        if source.lamports < lamports {
            return Err(ErrorCode::InsufficientFunds);
        }
        if from == to {
            return Ok(());
        }
        let target = self.account(&to);
        if lamports > u64::MAX - target.lamports {
            return Err(ErrorCode::BalanceOverflow);
        }
        self.set_account(from, Account { lamports: source.lamports - lamports, data: source.data });
        self.set_account(to, Account { lamports: target.lamports + lamports, data: target.data });
        Ok(())
    }

    /// Moves tokens between two holdings of one mint.
    fn token_transfer(&mut self, from: Address, to: Address, amount: u64, authority: Authority) -> (result:
        Result<(), ErrorCode>)
        ensures
            follows(
                result,
                old(self)@,
                final(self)@,
                token_transfer(old(self)@, old(self).id(), from, to, amount, authority),
            ),
            final(self).id() == old(self).id(),
    {
        let source_account = self.account(&from);
        let target_account = self.account(&to);
        let (source, target) = match (source_account.data, target_account.data) {
            (AccountData::Token(source), AccountData::Token(target)) => (source, target),
            _ => {
                return Err(ErrorCode::MissingTokenAccount);
            },
        };
        if !authority.permits(&self.program_id, &source.owner) {
            return Err(ErrorCode::Unauthorized);
        }
        if source.mint != target.mint {
            return Err(ErrorCode::MissingTokenAccount);
        }
        if source.amount < amount {
            return Err(ErrorCode::InsufficientFunds);
        }
        if from == to {
            return Ok(());
        }
        if amount > u64::MAX - target.amount {
            return Err(ErrorCode::BalanceOverflow);
        }
        self.set_account(
            from,
            Account {
                lamports: source_account.lamports,
                data: AccountData::Token(
                    TokenAccount {
                        mint: source.mint,
                        owner: source.owner,
                        amount: source.amount - amount,
                    },
                ),
            },
        );
        self.set_account(
            to,
            Account {
                lamports: target_account.lamports,
                data: AccountData::Token(
                    TokenAccount {
                        mint: target.mint,
                        owner: target.owner,
                        amount: target.amount + amount,
                    },
                ),
            },
        );
        Ok(())
    }

    /// Closes an emptied token holding.
    fn close_token_account(&mut self, account: Address, destination: Address, authority: Authority) -> (result:
        Result<(), ErrorCode>)
        ensures
            follows(
                result,
                old(self)@,
                final(self)@,
                close_token_account(old(self)@, old(self).id(), account, destination, authority),
            ),
            final(self).id() == old(self).id(),
    {
        let closing = self.account(&account);
        let holding = match closing.data {
            AccountData::Token(holding) => holding,
            _ => {
                return Err(ErrorCode::MissingTokenAccount);
            },
        };
        if !authority.permits(&self.program_id, &holding.owner) {
            return Err(ErrorCode::Unauthorized);
        }
        if holding.amount != 0 {
            return Err(ErrorCode::CustodyNotEmpty);
        }
        self.vacate(account, destination, closing.lamports)
    }

    /// Closes the record of an offer.
    fn close_escrow(&mut self, escrow: Address, destination: Address, authority: Authority) -> (result:
        Result<(), ErrorCode>)
        ensures
            follows(
                result,
                old(self)@,
                final(self)@,
                close_escrow(old(self)@, old(self).id(), escrow, destination, authority),
            ),
            final(self).id() == old(self).id(),
    {
        let closing = self.account(&escrow);
        match closing.data {
            AccountData::Escrow(_) => {},
            _ => {
                return Err(ErrorCode::EscrowMissing);
            },
        }
        if !authority.permits(&self.program_id, &escrow) {
            return Err(ErrorCode::Unauthorized);
        }
        self.vacate(escrow, destination, closing.lamports)
    }

    /// Makes `account` vacant and hands its native balance to `destination`.
    fn vacate(&mut self, account: Address, destination: Address, lamports: u64) -> (result: Result<
        (),
        ErrorCode,
    >)
        requires
            lamports == old(self)@[account].lamports,
        ensures
            follows(
                result,
                old(self)@,
                final(self)@,
                credit(old(self)@.insert(account, Account::vacant()), destination, lamports),
            ),
            final(self).id() == old(self).id(),
    {
        let vacant = Account { lamports: 0, data: AccountData::Empty };
        if account == destination {
            self.set_account(account, Account { lamports, data: AccountData::Empty });
            proof {
                assert(self@ =~= old(self)@.insert(account, Account::vacant()).insert(
                    account,
                    Account { lamports, data: AccountData::Empty },
                ));
            }
            return Ok(());
        }
        let target = self.account(&destination);
        if lamports > u64::MAX - target.lamports {
            return Err(ErrorCode::BalanceOverflow);
        }
        self.set_account(account, vacant);
        self.set_account(
            destination,
            Account { lamports: target.lamports + lamports, data: target.data },
        );
        Ok(())
    }

    /// Carries out one request.
    fn step(&mut self, instruction: Instruction) -> (result: Result<(), ErrorCode>)
        ensures
            follows(
                result,
                old(self)@,
                final(self)@,
                step(old(self)@, old(self).id(), instruction),
            ),
            final(self).id() == old(self).id(),
    {
        match instruction {
            Instruction::CreateEscrow { escrow, authority, record } => self.create_account(
                escrow,
                authority,
                AccountData::Escrow(record),
            ),
            Instruction::CreateTokenAccount {
                account,
                authority,
                mint,
                owner,
            } => self.create_account(
                account,
                authority,
                AccountData::Token(TokenAccount { mint, owner, amount: 0 }),
            ),
            Instruction::Transfer { from, to, lamports, authority } => self.transfer(
                from,
                to,
                lamports,
                authority,
            ),
            Instruction::TokenTransfer { from, to, amount, authority } => self.token_transfer(
                from,
                to,
                amount,
                authority,
            ),
            Instruction::CloseTokenAccount {
                account,
                destination,
                authority,
            } => self.close_token_account(account, destination, authority),
            Instruction::CloseEscrow { escrow, destination, authority } => self.close_escrow(
                escrow,
                destination,
                authority,
            ),
        }
    }

    /// Carries out the requests of `plan` in order, all of them or none: where
    /// one is rejected, the ledger is left as it was and the reason is
    /// returned.
    pub fn execute(&mut self, plan: &Vec<Instruction>) -> (result: Result<(), ErrorCode>)
        ensures
            follows(result, old(self)@, final(self)@, run(old(self)@, old(self).id(), plan@)),
            final(self).id() == old(self).id(),
    {
        let mut scratch = self.snapshot();
        let mut done: usize = 0;
        proof {
            assert(plan@.skip(0) =~= plan@);
        }
        while done < plan.len()
            invariant
                done <= plan@.len(),
                scratch.id() == self.id(),
                run(self@, self.id(), plan@) == run(scratch@, self.id(), plan@.skip(done as int)),
            decreases plan@.len() - done,
        {
            proof {
                assert(plan@.skip(done as int).skip(1) =~= plan@.skip(done as int + 1));
            }
            match scratch.step(plan[done]) {
                Ok(()) => {},
                Err(error) => {
                    return Err(error);
                },
            }
            done += 1;
        }
        *self = scratch;
        Ok(())
    }
}

} // verus!
