//! The deposit ledger: entries, their state machine and the operations on them.

use crate::address::{deposit_address, find_deposit_address, keys_equal, Key};
use vstd::prelude::*;

verus! {

/// Which storage layer holds the authoritative copy of an entry.
#[derive(Clone, Copy, PartialEq, Eq, Structural, Debug)]
pub enum Layer {
    BaseResident,
    Delegated,
}

/// Why an operation failed. Every failure leaves the ledger unchanged.
#[derive(Clone, Copy, PartialEq, Eq, Structural, Debug)]
pub enum DepositError {
    InsufficientBalance,
    AssetMismatch,
    ArithmeticOverflow,
    Unauthorized,
    InvalidState,
    AddressDerivationMismatch,
    ExternalCallFailure,
}

/// How an external call ended.
#[derive(Clone, Copy, PartialEq, Eq, Structural, Debug)]
pub enum CallOutcome {
    Succeeded,
    Failed,
}

/// The persisted record of one (owner, asset) pair.
#[derive(Clone, Copy, Debug)]
pub struct Deposit {
    pub user: Key,
    pub token_mint: Key,
    pub amount: u64,
}

/// A deposit record together with where it lives: its derived address, the
/// bump seed of that derivation, and the layer that holds it.
#[derive(Clone, Copy, Debug)]
pub struct Entry {
    pub address: Key,
    pub bump: u8,
    pub deposit: Deposit,
    pub layer: Layer,
}

impl Entry {
    /// The same entry with another balance.
    pub open spec fn with_amount(self, amount: u64) -> Entry {
        Entry {
            deposit: Deposit { amount, ..self.deposit },
            ..self
        }
    }

    /// The same entry on another layer.
    pub open spec fn on_layer(self, layer: Layer) -> Entry {
        Entry { layer, ..self }
    }
}

/// The accounts named by an `initialize_deposit` instruction.
#[derive(Clone, Copy, Debug)]
pub struct InitializeDeposit {
    pub payer: Key,
    pub user: Key,
    pub deposit: Key,
    pub token_mint: Key,
}

/// The arguments of a `modify_balance` instruction.
#[derive(Clone, Copy, Debug)]
pub struct ModifyDepositArgs {
    pub amount: u64,
    pub increase: bool,
}

/// The accounts named by a `modify_balance` instruction.
#[derive(Clone, Copy, Debug)]
pub struct ModifyDeposit {
    pub payer: Key,
    pub user: Key,
    pub user_is_signer: bool,
    pub deposit: Key,
    pub user_token_account: Key,
    pub deposit_token_account: Key,
    pub token_mint: Key,
}

/// The accounts named by a `transfer_deposit` instruction.
#[derive(Clone, Copy, Debug)]
pub struct TransferDeposit {
    pub user: Key,
    pub user_is_signer: bool,
    pub source_deposit: Key,
    pub destination_deposit: Key,
    pub token_mint: Key,
}

/// The accounts named by a `create_permission` instruction.
#[derive(Clone, Copy, Debug)]
pub struct CreatePermission {
    pub payer: Key,
    pub user: Key,
    pub deposit: Key,
    pub permission: Key,
    pub group: Key,
    pub permission_program: Key,
}

/// The accounts named by a `delegate` instruction.
#[derive(Clone, Copy, Debug)]
pub struct DelegateDeposit {
    pub payer: Key,
    pub deposit: Key,
}

/// The accounts named by an `undelegate` instruction.
#[derive(Clone, Copy, Debug)]
pub struct UndelegateDeposit {
    pub payer: Key,
    pub user: Key,
    pub user_is_signer: bool,
    pub deposit: Key,
    pub magic_context: Key,
    pub magic_program: Key,
}

/// The signing capability of an entry: the seeds from which its address is
/// derived, after the domain tag.
#[derive(Clone, Copy, Debug)]
pub struct SignerSeeds {
    pub user: Key,
    pub token_mint: Key,
    pub bump: u8,
}

/// A token transfer that the asset transfer service is asked to make.
#[derive(Clone, Copy, Debug)]
pub struct TokenTransfer {
    pub from: Key,
    pub to: Key,
    pub mint: Key,
    pub authority: Key,
    pub amount: u64,
    /// Present when the entry itself authorizes the transfer.
    pub signer: Option<SignerSeeds>,
}

/// A group that the access control service is asked to create.
#[derive(Debug)]
pub struct GroupRequest {
    pub group: Key,
    pub id: Key,
    pub members: Vec<Key>,
    pub payer: Key,
}

/// A permission record that the access control service is asked to create,
/// signed by the entry itself.
#[derive(Clone, Copy, Debug)]
pub struct PermissionRequest {
    pub permission: Key,
    pub group: Key,
    pub delegated_account: Key,
    pub owner: Key,
    pub payer: Key,
    pub signer: SignerSeeds,
}

/// The two calls of `create_permission`, in order.
#[derive(Debug)]
pub struct PermissionPlan {
    pub group: GroupRequest,
    pub permission: PermissionRequest,
}

/// A handoff of an entry to the execution layer: the account and the seeds
/// (after the domain tag) from which the execution layer recomputes its address.
#[derive(Clone, Copy, Debug)]
pub struct DelegationRequest {
    pub payer: Key,
    pub account: Key,
    pub user: Key,
    pub token_mint: Key,
}

/// A commit of an entry back to the base layer, with the execution layer's
/// context handles.
#[derive(Clone, Copy, Debug)]
pub struct CommitRequest {
    pub payer: Key,
    pub account: Key,
    pub magic_context: Key,
    pub magic_program: Key,
}

/// The abstract state of a ledger: the program that owns it and its entries.
pub ghost struct LedgerModel {
    pub program_id: Seq<u8>,
    pub entries: Seq<Entry>,
}

impl LedgerModel {
    /// Entry `i` lives at `addr`.
    pub open spec fn holds(self, addr: Seq<u8>, i: int) -> bool {
        0 <= i < self.entries.len() && self.entries[i].address@ == addr
    }

    /// The index of the entry at `addr`, if there is one.
    pub open spec fn lookup(self, addr: Seq<u8>) -> Option<int> {
        if exists|i: int| self.holds(addr, i) {
            Some(choose|i: int| self.holds(addr, i))
        } else {
            None
        }
    }

    /// Each entry lives at the address derived from its owner and asset, and
    /// no two entries share an address (so no two share an (owner, asset) pair).
    pub open spec fn wf(self) -> bool {
        &&& forall|i: int|
            0 <= i < self.entries.len() ==> deposit_address(
                #[trigger] self.entries[i].deposit.user@,
                self.entries[i].deposit.token_mint@,
                self.program_id,
            ) == Some((self.entries[i].address@, self.entries[i].bump))
        &&& forall|i: int, j: int|
            0 <= i < self.entries.len() && 0 <= j < self.entries.len() && i != j
                ==> #[trigger] self.entries[i].address@ != #[trigger] self.entries[j].address@
    }

    /// The same ledger with entry `i` replaced.
    pub open spec fn with_entry(self, i: int, e: Entry) -> LedgerModel {
        LedgerModel { entries: self.entries.update(i, e), ..self }
    }

    /// `initialize_deposit`, given the derivation result for the named owner
    /// and asset: creates a zero-balance entry when none exists, and leaves an
    /// existing one as it is.
    pub open spec fn initialize(
        self,
        accounts: InitializeDeposit,
        derived: Option<(Seq<u8>, u8)>,
    ) -> (LedgerModel, Result<(), DepositError>) {
        match derived {
            None => (self, Err(DepositError::AddressDerivationMismatch)),
            Some(d) => if d.0 != accounts.deposit@ {
                (self, Err(DepositError::AddressDerivationMismatch))
            } else if self.lookup(d.0) is Some {
                (self, Ok(()))
            } else {
                let e = Entry {
                    address: accounts.deposit,
                    bump: d.1,
                    deposit: Deposit { user: accounts.user, token_mint: accounts.token_mint, amount: 0 },
                    layer: Layer::BaseResident,
                };
                (LedgerModel { entries: self.entries.push(e), ..self }, Ok(()))
            },
        }
    }

    /// The balance check of `modify_balance`: the index of the entry to change,
    /// or why nothing may change.
    pub open spec fn authorize_modify(self, accounts: ModifyDeposit, args: ModifyDepositArgs) -> Result<int, DepositError> {
        match self.lookup(accounts.deposit@) {
            None => Err(DepositError::InvalidState),
            Some(i) => {
                let d = self.entries[i].deposit;
                if d.user@ != accounts.user@ || d.token_mint@ != accounts.token_mint@ || !accounts.user_is_signer {
                    Err(DepositError::Unauthorized)
                } else if args.increase && d.amount + args.amount > u64::MAX {
                    Err(DepositError::ArithmeticOverflow)
                } else if !args.increase && args.amount > d.amount {
                    Err(DepositError::InsufficientBalance)
                } else {
                    Ok(i)
                }
            },
        }
    }

    /// The token transfer that backs `modify_balance` on entry `i`: from the
    /// owner's holding account into custody, signed by the owner, for a
    /// deposit; out of custody, signed by the entry itself, for a withdrawal.
    pub open spec fn transfer_for(self, accounts: ModifyDeposit, args: ModifyDepositArgs, i: int) -> TokenTransfer {
        let e = self.entries[i];
        if args.increase {
            TokenTransfer {
                from: accounts.user_token_account,
                to: accounts.deposit_token_account,
                mint: accounts.token_mint,
                authority: accounts.user,
                amount: args.amount,
                signer: None,
            }
        } else {
            TokenTransfer {
                from: accounts.deposit_token_account,
                to: accounts.user_token_account,
                mint: accounts.token_mint,
                authority: e.address,
                amount: args.amount,
                signer: Some(SignerSeeds { user: e.deposit.user, token_mint: e.deposit.token_mint, bump: e.bump }),
            }
        }
    }

    /// The balance after `modify_balance` on a balance of `balance`.
    pub open spec fn modified_balance(balance: u64, args: ModifyDepositArgs) -> int {
        if args.increase {
            balance + args.amount
        } else {
            balance - args.amount
        }
    }

    /// `modify_balance`, given how the token transfer ended: the balance
    /// changes exactly when the checks pass and the transfer succeeded.
    pub open spec fn modify_balance(
        self,
        accounts: ModifyDeposit,
        args: ModifyDepositArgs,
        transfer: CallOutcome,
    ) -> (LedgerModel, Result<(), DepositError>) {
        match self.authorize_modify(accounts, args) {
            Err(e) => (self, Err(e)),
            Ok(i) => if transfer == CallOutcome::Failed {
                (self, Err(DepositError::ExternalCallFailure))
            } else {
                let e = self.entries[i];
                (self.with_entry(i, e.with_amount(Self::modified_balance(e.deposit.amount, args) as u64)), Ok(()))
            },
        }
    }

    /// The checks of `transfer_deposit`: the indices of the source and the
    /// destination, or why nothing may change.
    pub open spec fn authorize_transfer(self, accounts: TransferDeposit, amount: u64) -> Result<(int, int), DepositError> {
        match (self.lookup(accounts.source_deposit@), self.lookup(accounts.destination_deposit@)) {
            (Some(s), Some(t)) => {
                let a = self.entries[s].deposit;
                let b = self.entries[t].deposit;
                if a.user@ != accounts.user@ || a.token_mint@ != accounts.token_mint@ || !accounts.user_is_signer {
                    Err(DepositError::Unauthorized)
                } else if b.token_mint@ != a.token_mint@ {
                    Err(DepositError::AssetMismatch)
                } else if amount > a.amount {
                    Err(DepositError::InsufficientBalance)
                } else if s != t && b.amount + amount > u64::MAX {
                    Err(DepositError::ArithmeticOverflow)
                } else {
                    Ok((s, t))
                }
            },
            _ => Err(DepositError::InvalidState),
        }
    }

    /// `transfer_deposit`: moves `amount` from the source balance to the
    /// destination balance; a transfer from an entry to itself changes nothing.
    pub open spec fn transfer(self, accounts: TransferDeposit, amount: u64) -> (LedgerModel, Result<(), DepositError>) {
        match self.authorize_transfer(accounts, amount) {
            Err(e) => (self, Err(e)),
            Ok((s, t)) => if s == t {
                (self, Ok(()))
            } else {
                let a = self.entries[s];
                let b = self.entries[t];
                (
                    self.with_entry(s, a.with_amount((a.deposit.amount - amount) as u64)).with_entry(
                        t,
                        b.with_amount((b.deposit.amount + amount) as u64),
                    ),
                    Ok(()),
                )
            },
        }
    }

    /// The checks of `create_permission`: the index of the entry, or why the
    /// permission may not be issued.
    pub open spec fn authorize_permission(self, accounts: CreatePermission) -> Result<int, DepositError> {
        match self.lookup(accounts.deposit@) {
            None => Err(DepositError::InvalidState),
            Some(i) => if self.entries[i].deposit.user@ != accounts.user@ {
                Err(DepositError::Unauthorized)
            } else {
                Ok(i)
            },
        }
    }

    /// `create_permission`, given how the group call and the permission call
    /// ended: success only when the checks pass and both calls succeeded.
    pub open spec fn create_permission(
        self,
        accounts: CreatePermission,
        group: CallOutcome,
        permission: CallOutcome,
    ) -> Result<(), DepositError> {
        match self.authorize_permission(accounts) {
            Err(e) => Err(e),
            Ok(_) => if group == CallOutcome::Failed || permission == CallOutcome::Failed {
                Err(DepositError::ExternalCallFailure)
            } else {
                Ok(())
            },
        }
    }

    /// The checks of `delegate`, given the derivation result for `user` and
    /// `token_mint`: the index of the entry, or why it may not move.
    pub open spec fn authorize_delegate(self, accounts: DelegateDeposit, derived: Option<(Seq<u8>, u8)>) -> Result<int, DepositError> {
        match derived {
            None => Err(DepositError::AddressDerivationMismatch),
            Some(d) => if d.0 != accounts.deposit@ {
                Err(DepositError::AddressDerivationMismatch)
            } else {
                match self.lookup(d.0) {
                    None => Err(DepositError::InvalidState),
                    Some(i) => if self.entries[i].layer != Layer::BaseResident {
                        Err(DepositError::InvalidState)
                    } else {
                        Ok(i)
                    },
                }
            },
        }
    }

    /// `delegate`: moves a base-resident entry to the execution layer once the
    /// delegation call succeeded.
    pub open spec fn delegate(
        self,
        accounts: DelegateDeposit,
        derived: Option<(Seq<u8>, u8)>,
        outcome: CallOutcome,
    ) -> (LedgerModel, Result<(), DepositError>) {
        match self.authorize_delegate(accounts, derived) {
            Err(e) => (self, Err(e)),
            Ok(i) => if outcome == CallOutcome::Failed {
                (self, Err(DepositError::ExternalCallFailure))
            } else {
                (self.with_entry(i, self.entries[i].on_layer(Layer::Delegated)), Ok(()))
            },
        }
    }

    /// The checks of `undelegate`: the index of the entry, or why it may not
    /// come back.
    pub open spec fn authorize_undelegate(self, accounts: UndelegateDeposit) -> Result<int, DepositError> {
        match self.lookup(accounts.deposit@) {
            None => Err(DepositError::InvalidState),
            Some(i) => if self.entries[i].deposit.user@ != accounts.user@ || !accounts.user_is_signer {
                Err(DepositError::Unauthorized)
            } else if self.entries[i].layer != Layer::Delegated {
                Err(DepositError::InvalidState)
            } else {
                Ok(i)
            },
        }
    }

    /// `undelegate`: returns a delegated entry to the base layer once the
    /// commit succeeded.
    pub open spec fn undelegate(self, accounts: UndelegateDeposit, outcome: CallOutcome) -> (LedgerModel, Result<(), DepositError>) {
        match self.authorize_undelegate(accounts) {
            Err(e) => (self, Err(e)),
            Ok(i) => if outcome == CallOutcome::Failed {
                (self, Err(DepositError::ExternalCallFailure))
            } else {
                (self.with_entry(i, self.entries[i].on_layer(Layer::BaseResident)), Ok(()))
            },
        }
    }
}

/// A ledger of deposit entries, all derived under one program id.
pub struct Ledger {
    pub program_id: Key,
    pub entries: Vec<Entry>,
}

impl View for Ledger {
    type V = LedgerModel;

    open spec fn view(&self) -> LedgerModel {
        LedgerModel { program_id: self.program_id@, entries: self.entries@ }
    }
}

/// Turns a derivation result into its abstract form.
pub open spec fn derived_view(d: Option<(Key, u8)>) -> Option<(Seq<u8>, u8)> {
    match d {
        Some(p) => Some((p.0@, p.1)),
        None => None,
    }
}

impl Ledger {
    /// An empty ledger for the program `program_id`.
    pub fn new(program_id: Key) -> (r: Ledger)
        ensures
            r@.program_id == program_id@,
            r@.entries.len() == 0,
            r@.wf(),
    {
        Ledger { program_id, entries: Vec::new() }
    }

    /// The index of the entry at `addr`, if there is one.
    pub fn find(&self, addr: &Key) -> (r: Option<usize>)
        requires
            self@.wf(),
        ensures
            match r {
                Some(i) => self@.lookup(addr@) == Some(i as int),
                None => self@.lookup(addr@) is None,
            },
    {
        let mut i: usize = 0;
        while i < self.entries.len()
            invariant
                self@.wf(),
                0 <= i <= self.entries@.len(),
                forall|j: int| 0 <= j < i ==> !self@.holds(addr@, j),
            decreases self.entries@.len() - i,
        {
            if keys_equal(&self.entries[i].address, addr) {
                proof {
                    assert(self@.holds(addr@, i as int));
                    let k = choose|k: int| self@.holds(addr@, k);
                    assert(self.entries@[k].address@ != self.entries@[i as int].address@ || k == i);
                }
                return Some(i);
            }
            i = i + 1;
        }
        None
    }

    /// Creates the entry of `accounts.user` for `accounts.token_mint` with a
    /// zero balance if it does not exist yet; an existing entry is left as it
    /// is. Fails with `AddressDerivationMismatch` unless `accounts.deposit` is
    /// the address derived from the owner and asset.
    pub fn initialize_deposit(&mut self, accounts: &InitializeDeposit) -> (r: Result<(), DepositError>)
        requires
            old(self)@.wf(),
        ensures
            final(self)@.wf(),
            (final(self)@, r) == old(self)@.initialize(
                *accounts,
                deposit_address(accounts.user@, accounts.token_mint@, old(self)@.program_id),
            ),
    {
        let derived = find_deposit_address(&accounts.user, &accounts.token_mint, &self.program_id);
        self.initialize_derived(accounts, derived)
    }

    /// `initialize_deposit` once the entry's address has been derived.
    pub fn initialize_derived(&mut self, accounts: &InitializeDeposit, derived: Option<(Key, u8)>) -> (r: Result<(), DepositError>)
        requires
            old(self)@.wf(),
            derived_view(derived) == deposit_address(accounts.user@, accounts.token_mint@, old(self)@.program_id),
        ensures
            final(self)@.wf(),
            (final(self)@, r) == old(self)@.initialize(*accounts, derived_view(derived)),
    {
        match derived {
            None => Err(DepositError::AddressDerivationMismatch),
            Some(d) => {
                if !keys_equal(&d.0, &accounts.deposit) {
                    return Err(DepositError::AddressDerivationMismatch);
                }
                match self.find(&d.0) {
                    Some(_) => Ok(()),
                    None => {
                        let e = Entry {
                            address: accounts.deposit,
                            bump: d.1,
                            deposit: Deposit { user: accounts.user, token_mint: accounts.token_mint, amount: 0 },
                            layer: Layer::BaseResident,
                        };
                        self.entries.push(e);
                        proof {
                            let m = self@;
                            assert forall|i: int, j: int|
                                0 <= i < m.entries.len() && 0 <= j < m.entries.len() && i != j
                                implies #[trigger] m.entries[i].address@ != #[trigger] m.entries[j].address@ by {
                                if i == m.entries.len() - 1 {
                                    assert(!old(self)@.holds(d.0@, j));
                                } else if j == m.entries.len() - 1 {
                                    assert(!old(self)@.holds(d.0@, i));
                                }
                            }
                        }
                        Ok(())
                    },
                }
            },
        }
    }
    /// The checks of `modify_balance`.
    fn check_modify(&self, accounts: &ModifyDeposit, args: &ModifyDepositArgs) -> (r: Result<usize, DepositError>)
        requires
            self@.wf(),
        ensures
            match r {
                Ok(i) => self@.authorize_modify(*accounts, *args) == Ok::<int, DepositError>(i as int),
                Err(e) => self@.authorize_modify(*accounts, *args) == Err::<int, DepositError>(e),
            },
    {
        let i = match self.find(&accounts.deposit) {
            None => return Err(DepositError::InvalidState),
            Some(i) => i,
        };
        let d = self.entries[i].deposit;
        if !keys_equal(&d.user, &accounts.user) || !keys_equal(&d.token_mint, &accounts.token_mint) || !accounts.user_is_signer {
            return Err(DepositError::Unauthorized);
        }
        if args.increase && args.amount > u64::MAX - d.amount {
            return Err(DepositError::ArithmeticOverflow);
        }
        if !args.increase && args.amount > d.amount {
            return Err(DepositError::InsufficientBalance);
        }
        Ok(i)
    }

    /// The token transfer that `modify_balance` needs before it may change the
    /// balance, or the error that it would return whatever the transfer did.
    pub fn plan_modify_balance(&self, accounts: &ModifyDeposit, args: &ModifyDepositArgs) -> (r: Result<TokenTransfer, DepositError>)
        requires
            self@.wf(),
        ensures
            match self@.authorize_modify(*accounts, *args) {
                Ok(i) => r == Ok::<TokenTransfer, DepositError>(self@.transfer_for(*accounts, *args, i)),
                Err(e) => r == Err::<TokenTransfer, DepositError>(e),
            },
    {
        let i = self.check_modify(accounts, args)?;
        let e = self.entries[i];
        if args.increase {
            Ok(TokenTransfer {
                from: accounts.user_token_account,
                to: accounts.deposit_token_account,
                mint: accounts.token_mint,
                authority: accounts.user,
                amount: args.amount,
                signer: None,
            })
        } else {
            Ok(TokenTransfer {
                from: accounts.deposit_token_account,
                to: accounts.user_token_account,
                mint: accounts.token_mint,
                authority: e.address,
                amount: args.amount,
                signer: Some(SignerSeeds { user: e.deposit.user, token_mint: e.deposit.token_mint, bump: e.bump }),
            })
        }
    }

    /// Deposits (`args.increase`) or withdraws `args.amount`, once the token
    /// transfer planned by `plan_modify_balance` has ended as `transfer` says.
    /// The balance changes only when every check passes and the transfer
    /// succeeded; otherwise the ledger is left as it was.
    pub fn modify_balance(&mut self, accounts: &ModifyDeposit, args: &ModifyDepositArgs, transfer: CallOutcome) -> (r: Result<(), DepositError>)
        requires
            old(self)@.wf(),
        ensures
            final(self)@.wf(),
            (final(self)@, r) == old(self)@.modify_balance(*accounts, *args, transfer),
    {
        let i = self.check_modify(accounts, args)?;
        if transfer == CallOutcome::Failed {
            return Err(DepositError::ExternalCallFailure);
        }
        let mut e = self.entries[i];
        if args.increase {
            e.deposit.amount = e.deposit.amount + args.amount;
        } else {
            e.deposit.amount = e.deposit.amount - args.amount;
        }
        self.entries.set(i, e);
        proof {
            assert(self@.entries =~= old(self)@.entries.update(i as int, old(self)@.entries[i as int].with_amount(e.deposit.amount)));
        }
        Ok(())
    }
    /// Moves `amount` from the source entry to the destination entry of the
    /// same asset, on the ledger alone: no tokens move. Fails, changing
    /// nothing, when an entry is missing (`InvalidState`), the signer does not
    /// own the source or names another asset (`Unauthorized`), the assets
    /// differ (`AssetMismatch`), the source holds less than `amount`
    /// (`InsufficientBalance`) or the destination would overflow
    /// (`ArithmeticOverflow`).
    pub fn transfer_deposit(&mut self, accounts: &TransferDeposit, amount: u64) -> (r: Result<(), DepositError>)
        requires
            old(self)@.wf(),
        ensures
            final(self)@.wf(),
            (final(self)@, r) == old(self)@.transfer(*accounts, amount),
    {
        let s = match self.find(&accounts.source_deposit) {
            None => return Err(DepositError::InvalidState),
            Some(s) => s,
        };
        let t = match self.find(&accounts.destination_deposit) {
            None => return Err(DepositError::InvalidState),
            Some(t) => t,
        };
        let mut a = self.entries[s];
        let mut b = self.entries[t];
        if !keys_equal(&a.deposit.user, &accounts.user) || !keys_equal(&a.deposit.token_mint, &accounts.token_mint)
            || !accounts.user_is_signer {
            return Err(DepositError::Unauthorized);
        }
        if !keys_equal(&b.deposit.token_mint, &a.deposit.token_mint) {
            return Err(DepositError::AssetMismatch);
        }
        if amount > a.deposit.amount {
            return Err(DepositError::InsufficientBalance);
        }
        if s == t {
            return Ok(());
        }
        if amount > u64::MAX - b.deposit.amount {
            return Err(DepositError::ArithmeticOverflow);
        }
        a.deposit.amount = a.deposit.amount - amount;
        b.deposit.amount = b.deposit.amount + amount;
        self.entries.set(s, a);
        self.entries.set(t, b);
        proof {
            let m = old(self)@;
            assert(self@.entries =~= m.entries.update(s as int, m.entries[s as int].with_amount(a.deposit.amount)).update(
                t as int,
                m.entries[t as int].with_amount(b.deposit.amount),
            ));
        }
        Ok(())
    }
    /// The checks of `create_permission`.
    fn check_permission(&self, accounts: &CreatePermission) -> (r: Result<usize, DepositError>)
        requires
            self@.wf(),
        ensures
            match r {
                Ok(i) => self@.authorize_permission(*accounts) == Ok::<int, DepositError>(i as int),
                Err(e) => self@.authorize_permission(*accounts) == Err::<int, DepositError>(e),
            },
    {
        let i = match self.find(&accounts.deposit) {
            None => return Err(DepositError::InvalidState),
            Some(i) => i,
        };
        if !keys_equal(&self.entries[i].deposit.user, &accounts.user) {
            return Err(DepositError::Unauthorized);
        }
        Ok(i)
    }

    /// The two calls that grant the owner's group a permission over the entry:
    /// a group `id` whose sole member is the owner, then a permission record
    /// whose delegated account and owner are the entry, signed by the entry.
    pub fn plan_create_permission(&self, accounts: &CreatePermission, id: Key) -> (r: Result<PermissionPlan, DepositError>)
        requires
            self@.wf(),
        ensures
            match self@.authorize_permission(*accounts) {
                Err(e) => r == Err::<PermissionPlan, DepositError>(e),
                Ok(i) => r matches Ok(p) && {
                    let e = self@.entries[i];
                    &&& p.group.group == accounts.group
                    &&& p.group.id == id
                    &&& p.group.members@ == seq![e.deposit.user]
                    &&& p.group.payer == accounts.payer
                    &&& p.permission == (PermissionRequest {
                        permission: accounts.permission,
                        group: accounts.group,
                        delegated_account: e.address,
                        owner: e.address,
                        payer: accounts.payer,
                        signer: SignerSeeds { user: e.deposit.user, token_mint: e.deposit.token_mint, bump: e.bump },
                    })
                },
            },
    {
        let i = self.check_permission(accounts)?;
        let e = self.entries[i];
        let members: Vec<Key> = vec![e.deposit.user];
        Ok(PermissionPlan {
            group: GroupRequest { group: accounts.group, id, members, payer: accounts.payer },
            permission: PermissionRequest {
                permission: accounts.permission,
                group: accounts.group,
                delegated_account: e.address,
                owner: e.address,
                payer: accounts.payer,
                signer: SignerSeeds { user: e.deposit.user, token_mint: e.deposit.token_mint, bump: e.bump },
            },
        })
    }

    /// Whether the permission over the entry was issued, once the calls
    /// planned by `plan_create_permission` have ended: both must succeed. A
    /// group created without its permission is reported as
    /// `ExternalCallFailure`. The ledger itself never changes.
    pub fn create_permission(&self, accounts: &CreatePermission, group: CallOutcome, permission: CallOutcome) -> (r: Result<(), DepositError>)
        requires
            self@.wf(),
        ensures
            r == self@.create_permission(*accounts, group, permission),
    {
        self.check_permission(accounts)?;
        if group == CallOutcome::Failed || permission == CallOutcome::Failed {
            return Err(DepositError::ExternalCallFailure);
        }
        Ok(())
    }

    /// The checks of `delegate`, given the derivation result.
    fn check_delegate(&self, accounts: &DelegateDeposit, derived: Option<(Key, u8)>) -> (r: Result<usize, DepositError>)
        requires
            self@.wf(),
        ensures
            match r {
                Ok(i) => self@.authorize_delegate(*accounts, derived_view(derived)) == Ok::<int, DepositError>(i as int),
                Err(e) => self@.authorize_delegate(*accounts, derived_view(derived)) == Err::<int, DepositError>(e),
            },
    {
        let d = match derived {
            None => return Err(DepositError::AddressDerivationMismatch),
            Some(d) => d,
        };
        if !keys_equal(&d.0, &accounts.deposit) {
            return Err(DepositError::AddressDerivationMismatch);
        }
        let i = match self.find(&d.0) {
            None => return Err(DepositError::InvalidState),
            Some(i) => i,
        };
        if self.entries[i].layer != Layer::BaseResident {
            return Err(DepositError::InvalidState);
        }
        Ok(i)
    }

    /// The handoff that `delegate` asks of the delegation protocol: the entry
    /// and the seeds from which the execution layer recomputes its address.
    pub fn plan_delegate(&self, accounts: &DelegateDeposit, user: &Key, token_mint: &Key) -> (r: Result<DelegationRequest, DepositError>)
        requires
            self@.wf(),
        ensures
            match self@.authorize_delegate(*accounts, deposit_address(user@, token_mint@, self@.program_id)) {
                Err(e) => r == Err::<DelegationRequest, DepositError>(e),
                Ok(i) => r == Ok::<DelegationRequest, DepositError>(
                    DelegationRequest { payer: accounts.payer, account: accounts.deposit, user: *user, token_mint: *token_mint },
                ),
            },
    {
        let derived = find_deposit_address(user, token_mint, &self.program_id);
        self.check_delegate(accounts, derived)?;
        Ok(DelegationRequest { payer: accounts.payer, account: accounts.deposit, user: *user, token_mint: *token_mint })
    }

    /// Moves the entry derived from `user` and `token_mint` to the execution
    /// layer, once the delegation call has ended as `outcome` says. Fails with
    /// `AddressDerivationMismatch` when `accounts.deposit` is not that
    /// address, and with `InvalidState` unless the entry is base-resident.
    pub fn delegate(&mut self, accounts: &DelegateDeposit, user: &Key, token_mint: &Key, outcome: CallOutcome) -> (r: Result<(), DepositError>)
        requires
            old(self)@.wf(),
        ensures
            final(self)@.wf(),
            (final(self)@, r) == old(self)@.delegate(*accounts, deposit_address(user@, token_mint@, old(self)@.program_id), outcome),
    {
        let derived = find_deposit_address(user, token_mint, &self.program_id);
        self.delegate_derived(accounts, derived, outcome)
    }

    /// `delegate` once the entry's address has been derived.
    pub fn delegate_derived(&mut self, accounts: &DelegateDeposit, derived: Option<(Key, u8)>, outcome: CallOutcome) -> (r: Result<(), DepositError>)
        requires
            old(self)@.wf(),
        ensures
            final(self)@.wf(),
            (final(self)@, r) == old(self)@.delegate(*accounts, derived_view(derived), outcome),
    {
        let i = self.check_delegate(accounts, derived)?;
        if outcome == CallOutcome::Failed {
            return Err(DepositError::ExternalCallFailure);
        }
        let mut e = self.entries[i];
        e.layer = Layer::Delegated;
        self.entries.set(i, e);
        proof {
            assert(self@.entries =~= old(self)@.entries.update(i as int, old(self)@.entries[i as int].on_layer(Layer::Delegated)));
        }
        Ok(())
    }

    /// The checks of `undelegate`.
    fn check_undelegate(&self, accounts: &UndelegateDeposit) -> (r: Result<usize, DepositError>)
        requires
            self@.wf(),
        ensures
            match r {
                Ok(i) => self@.authorize_undelegate(*accounts) == Ok::<int, DepositError>(i as int),
                Err(e) => self@.authorize_undelegate(*accounts) == Err::<int, DepositError>(e),
            },
    {
        let i = match self.find(&accounts.deposit) {
            None => return Err(DepositError::InvalidState),
            Some(i) => i,
        };
        if !keys_equal(&self.entries[i].deposit.user, &accounts.user) || !accounts.user_is_signer {
            return Err(DepositError::Unauthorized);
        }
        if self.entries[i].layer != Layer::Delegated {
            return Err(DepositError::InvalidState);
        }
        Ok(i)
    }

    /// The commit that `undelegate` asks of the delegation protocol.
    pub fn plan_undelegate(&self, accounts: &UndelegateDeposit) -> (r: Result<CommitRequest, DepositError>)
        requires
            self@.wf(),
        ensures
            match self@.authorize_undelegate(*accounts) {
                Err(e) => r == Err::<CommitRequest, DepositError>(e),
                Ok(i) => r == Ok::<CommitRequest, DepositError>(
                    CommitRequest {
                        payer: accounts.payer,
                        account: accounts.deposit,
                        magic_context: accounts.magic_context,
                        magic_program: accounts.magic_program,
                    },
                ),
            },
    {
        self.check_undelegate(accounts)?;
        Ok(CommitRequest {
            payer: accounts.payer,
            account: accounts.deposit,
            magic_context: accounts.magic_context,
            magic_program: accounts.magic_program,
        })
    }

    /// Returns a delegated entry to the base layer, once the commit has ended
    /// as `outcome` says. Fails with `Unauthorized` unless the owner signed,
    /// and with `InvalidState` unless the entry is delegated.
    pub fn undelegate(&mut self, accounts: &UndelegateDeposit, outcome: CallOutcome) -> (r: Result<(), DepositError>)
        requires
            old(self)@.wf(),
        ensures
            final(self)@.wf(),
            (final(self)@, r) == old(self)@.undelegate(*accounts, outcome),
    {
        let i = self.check_undelegate(accounts)?;
        if outcome == CallOutcome::Failed {
            return Err(DepositError::ExternalCallFailure);
        }
        let mut e = self.entries[i];
        e.layer = Layer::BaseResident;
        self.entries.set(i, e);
        proof {
            assert(self@.entries =~= old(self)@.entries.update(i as int, old(self)@.entries[i as int].on_layer(Layer::BaseResident)));
        }
        Ok(())
    }
    /// The balance of the entry at `addr`, if there is one.
    pub fn balance(&self, addr: &Key) -> (r: Option<u64>)
        requires
            self@.wf(),
        ensures
            match self@.lookup(addr@) {
                Some(i) => r == Some(self@.entries[i].deposit.amount),
                None => r is None,
            },
    {
        match self.find(addr) {
            Some(i) => Some(self.entries[i].deposit.amount),
            None => None,
        }
    }

    /// The layer that holds the entry at `addr`, if there is one.
    pub fn layer(&self, addr: &Key) -> (r: Option<Layer>)
        requires
            self@.wf(),
        ensures
            match self@.lookup(addr@) {
                Some(i) => r == Some(self@.entries[i].layer),
                None => r is None,
            },
    {
        match self.find(addr) {
            Some(i) => Some(self.entries[i].layer),
            None => None,
        }
    }
}

} // verus!
