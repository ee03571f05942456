//! Properties of the ledger's operations, stated over its abstract model.

use crate::ledger::{
    CallOutcome, DelegateDeposit, DepositError, InitializeDeposit, Layer, LedgerModel,
    ModifyDeposit, ModifyDepositArgs, TransferDeposit, UndelegateDeposit,
};
use vstd::prelude::*;

verus! {

/// Initializing never changes an entry that already exists, so it never
/// resets a balance.
pub proof fn initialize_keeps_existing_entries(m: LedgerModel, accounts: InitializeDeposit, derived: Option<(Seq<u8>, u8)>)
    ensures
        ({
            let (m1, _) = m.initialize(accounts, derived);
            &&& m1.program_id == m.program_id
            &&& m1.entries.len() >= m.entries.len()
            &&& forall|i: int| 0 <= i < m.entries.len() ==> #[trigger] m1.entries[i] == m.entries[i]
        }),
{
}

/// Initializing twice for the same owner and asset has the effect and the
/// result of initializing once.
pub proof fn initialize_is_idempotent(m: LedgerModel, accounts: InitializeDeposit, derived: Option<(Seq<u8>, u8)>)
    ensures
        ({
            let (m1, r1) = m.initialize(accounts, derived);
            let (m2, r2) = m1.initialize(accounts, derived);
            m2 == m1 && r2 == r1
        }),
{
    let (m1, r1) = m.initialize(accounts, derived);
    if let Some(d) = derived {
        if d.0 == accounts.deposit@ && m.lookup(d.0) is None {
            assert(m1.holds(d.0, m.entries.len() as int));
        }
    }
}

/// A valid deposit adds `amount` to the balance exactly when the token
/// transfer into custody succeeded; when it failed, nothing changes.
pub proof fn deposit_adds_amount(m: LedgerModel, accounts: ModifyDeposit, args: ModifyDepositArgs, transfer: CallOutcome)
    requires
        args.increase,
        m.authorize_modify(accounts, args) is Ok,
    ensures
        ({
            let i = m.authorize_modify(accounts, args)->Ok_0;
            let t = m.transfer_for(accounts, args, i);
            let (m1, r) = m.modify_balance(accounts, args, transfer);
            &&& t.from == accounts.user_token_account
            &&& t.to == accounts.deposit_token_account
            &&& t.amount == args.amount
            &&& transfer == CallOutcome::Succeeded ==> {
                &&& r is Ok
                &&& m1.entries.len() == m.entries.len()
                &&& m1.entries[i].deposit.amount == m.entries[i].deposit.amount + args.amount
                &&& forall|j: int| 0 <= j < m.entries.len() && j != i ==> #[trigger] m1.entries[j] == m.entries[j]
            }
            &&& transfer == CallOutcome::Failed ==> r == Err::<(), DepositError>(DepositError::ExternalCallFailure) && m1 == m
        }),
{
}

/// A withdrawal succeeds only for an amount within the balance, and then
/// subtracts it; an amount beyond the balance changes nothing, and an owner
/// asking for it is told `InsufficientBalance`.
pub proof fn withdrawal_within_balance(m: LedgerModel, accounts: ModifyDeposit, args: ModifyDepositArgs, transfer: CallOutcome)
    requires
        !args.increase,
    ensures
        ({
            let (m1, r) = m.modify_balance(accounts, args, transfer);
            let i = m.lookup(accounts.deposit@)->Some_0;
            let d = m.entries[i].deposit;
            &&& r is Ok ==> {
                &&& m.lookup(accounts.deposit@) is Some
                &&& args.amount <= d.amount
                &&& m1.entries[i].deposit.amount == d.amount - args.amount
            }
            &&& (m.lookup(accounts.deposit@) is Some && args.amount > d.amount) ==> {
                &&& r is Err
                &&& m1 == m
                &&& (d.user@ == accounts.user@ && d.token_mint@ == accounts.token_mint@ && accounts.user_is_signer)
                    ==> r == Err::<(), DepositError>(DepositError::InsufficientBalance)
            }
        }),
{
}

/// A ledger transfer succeeds only between entries of one asset and for an
/// amount within the source balance, and keeps the sum of the two balances.
pub proof fn transfer_conserves_balances(m: LedgerModel, accounts: TransferDeposit, amount: u64)
    ensures
        ({
            let (m1, r) = m.transfer(accounts, amount);
            let s = m.lookup(accounts.source_deposit@)->Some_0;
            let t = m.lookup(accounts.destination_deposit@)->Some_0;
            r is Ok ==> {
                &&& m.lookup(accounts.source_deposit@) is Some
                &&& m.lookup(accounts.destination_deposit@) is Some
                &&& m.entries[s].deposit.token_mint@ == m.entries[t].deposit.token_mint@
                &&& amount <= m.entries[s].deposit.amount
                &&& m1.entries[s].deposit.amount + m1.entries[t].deposit.amount
                    == m.entries[s].deposit.amount + m.entries[t].deposit.amount
                &&& m1.entries.len() == m.entries.len()
                &&& forall|j: int| 0 <= j < m.entries.len() && j != s && j != t ==> #[trigger] m1.entries[j] == m.entries[j]
            }
        }),
{
}

/// A ledger transfer between entries of different assets fails and changes
/// nothing.
pub proof fn transfer_needs_one_asset(m: LedgerModel, accounts: TransferDeposit, amount: u64)
    requires
        m.lookup(accounts.source_deposit@) is Some,
        m.lookup(accounts.destination_deposit@) is Some,
        m.entries[m.lookup(accounts.source_deposit@)->Some_0].deposit.token_mint@
            != m.entries[m.lookup(accounts.destination_deposit@)->Some_0].deposit.token_mint@,
    ensures
        ({
            let (m1, r) = m.transfer(accounts, amount);
            r is Err && m1 == m
        }),
{
}

/// `delegate` succeeds only from the base layer and leaves the entry
/// delegated; called on a delegated entry it fails with `InvalidState` and
/// changes nothing.
pub proof fn delegate_only_from_base(
    m: LedgerModel,
    accounts: DelegateDeposit,
    derived: Option<(Seq<u8>, u8)>,
    outcome: CallOutcome,
)
    ensures
        ({
            let (m1, r) = m.delegate(accounts, derived, outcome);
            let i = m.lookup(accounts.deposit@)->Some_0;
            &&& r is Ok ==> {
                &&& m.lookup(accounts.deposit@) is Some
                &&& m.entries[i].layer == Layer::BaseResident
                &&& m1.entries[i].layer == Layer::Delegated
            }
            &&& (derived == Some((accounts.deposit@, derived->Some_0.1)) && m.lookup(accounts.deposit@) is Some
                && m.entries[i].layer == Layer::Delegated)
                ==> r == Err::<(), DepositError>(DepositError::InvalidState) && m1 == m
        }),
{
}

/// `undelegate` succeeds only from the execution layer and leaves the entry
/// base-resident; called by the owner on a base-resident entry it fails with
/// `InvalidState` and changes nothing.
pub proof fn undelegate_only_from_execution(m: LedgerModel, accounts: UndelegateDeposit, outcome: CallOutcome)
    ensures
        ({
            let (m1, r) = m.undelegate(accounts, outcome);
            let i = m.lookup(accounts.deposit@)->Some_0;
            &&& r is Ok ==> {
                &&& m.lookup(accounts.deposit@) is Some
                &&& m.entries[i].layer == Layer::Delegated
                &&& m1.entries[i].layer == Layer::BaseResident
            }
            &&& (m.lookup(accounts.deposit@) is Some && m.entries[i].deposit.user@ == accounts.user@
                && accounts.user_is_signer && m.entries[i].layer == Layer::BaseResident)
                ==> r == Err::<(), DepositError>(DepositError::InvalidState) && m1 == m
        }),
{
}

/// Delegating an entry and then committing it back, signed by its owner,
/// restores the ledger exactly: the handoff neither loses nor duplicates a
/// balance.
pub proof fn delegation_round_trip(
    m: LedgerModel,
    delegation: DelegateDeposit,
    derived: Option<(Seq<u8>, u8)>,
    commit: UndelegateDeposit,
)
    requires
        m.wf(),
        m.delegate(delegation, derived, CallOutcome::Succeeded).1 is Ok,
        commit.deposit == delegation.deposit,
        m.entries[m.lookup(delegation.deposit@)->Some_0].deposit.user@ == commit.user@,
        commit.user_is_signer,
    ensures
        ({
            let (m1, _) = m.delegate(delegation, derived, CallOutcome::Succeeded);
            let (m2, r2) = m1.undelegate(commit, CallOutcome::Succeeded);
            r2 is Ok && m2 == m
        }),
{
    let (m1, _) = m.delegate(delegation, derived, CallOutcome::Succeeded);
    let i = m.lookup(delegation.deposit@)->Some_0;
    assert(m1.holds(delegation.deposit@, i));
    assert forall|j: int| m1.holds(delegation.deposit@, j) implies j == i by {
        assert(m.holds(delegation.deposit@, j));
    }
    assert(m1.lookup(delegation.deposit@) == Some(i));
    assert(m1.entries.update(i, m.entries[i]) =~= m.entries);
}

} // verus!
