use private_payments::address::{deposit_tag_bytes, find_deposit_address, keys_equal, Key};
use private_payments::ledger::{
    CallOutcome, CreatePermission, DelegateDeposit, DepositError, InitializeDeposit, Layer, Ledger,
    ModifyDeposit, ModifyDepositArgs, TransferDeposit, UndelegateDeposit,
};

const PROGRAM: Key = [7u8; 32];
const PAYER: Key = [9u8; 32];
const USER_U: Key = [1u8; 32];
const USER_V: Key = [2u8; 32];
const MINT_X: Key = [3u8; 32];
const MINT_Y: Key = [4u8; 32];

fn address_of(user: &Key, mint: &Key) -> Key {
    find_deposit_address(user, mint, &PROGRAM).expect("derivable").0
}

fn init(ledger: &mut Ledger, user: Key, mint: Key) -> Key {
    let deposit = address_of(&user, &mint);
    let accounts = InitializeDeposit { payer: PAYER, user, deposit, token_mint: mint };
    assert_eq!(ledger.initialize_deposit(&accounts), Ok(()));
    deposit
}

fn modify_accounts(user: Key, mint: Key, deposit: Key) -> ModifyDeposit {
    ModifyDeposit {
        payer: PAYER,
        user,
        user_is_signer: true,
        deposit,
        user_token_account: [20u8; 32],
        deposit_token_account: [21u8; 32],
        token_mint: mint,
    }
}

fn modify(ledger: &mut Ledger, user: Key, mint: Key, deposit: Key, amount: u64, increase: bool) -> Result<(), DepositError> {
    let accounts = modify_accounts(user, mint, deposit);
    let args = ModifyDepositArgs { amount, increase };
    if let Err(e) = ledger.plan_modify_balance(&accounts, &args) {
        return Err(e);
    }
    ledger.modify_balance(&accounts, &args, CallOutcome::Succeeded)
}

fn transfer_accounts(user: Key, mint: Key, source: Key, destination: Key) -> TransferDeposit {
    TransferDeposit { user, user_is_signer: true, source_deposit: source, destination_deposit: destination, token_mint: mint }
}

fn undelegate_accounts(user: Key, deposit: Key) -> UndelegateDeposit {
    UndelegateDeposit {
        payer: PAYER,
        user,
        user_is_signer: true,
        deposit,
        magic_context: [30u8; 32],
        magic_program: [31u8; 32],
    }
}

#[test]
fn deposit_address_is_derived_from_owner_and_asset() {
    let a = find_deposit_address(&USER_U, &MINT_X, &PROGRAM).expect("derivable");
    let again = find_deposit_address(&USER_U, &MINT_X, &PROGRAM).expect("derivable");
    let other = find_deposit_address(&USER_V, &MINT_X, &PROGRAM).expect("derivable");
    assert_eq!(a, again);
    assert_ne!(a.0, USER_U);
    assert_ne!(a.0, MINT_X);
    assert_ne!(a.0, PROGRAM);
    assert_ne!(a.0, other.0);
    assert_eq!(deposit_tag_bytes(), b"deposit".to_vec());
}

#[test]
fn keys_compare_by_bytes() {
    let mut k = USER_U;
    assert!(keys_equal(&k, &USER_U));
    k[31] = 0;
    assert!(!keys_equal(&k, &USER_U));
}

#[test]
fn ledger_scenario_deposit_withdraw_transfer() {
    let mut ledger = Ledger::new(PROGRAM);
    let u = init(&mut ledger, USER_U, MINT_X);
    assert_eq!(ledger.balance(&u), Some(0));
    assert_eq!(modify(&mut ledger, USER_U, MINT_X, u, 100, true), Ok(()));
    assert_eq!(ledger.balance(&u), Some(100));
    assert_eq!(modify(&mut ledger, USER_U, MINT_X, u, 30, false), Ok(()));
    assert_eq!(ledger.balance(&u), Some(70));
    let v = init(&mut ledger, USER_V, MINT_X);
    assert_eq!(ledger.transfer_deposit(&transfer_accounts(USER_U, MINT_X, u, v), 20), Ok(()));
    assert_eq!(ledger.balance(&u), Some(50));
    assert_eq!(ledger.balance(&v), Some(20));
    assert_eq!(modify(&mut ledger, USER_U, MINT_X, u, 1000, false), Err(DepositError::InsufficientBalance));
    assert_eq!(ledger.balance(&u), Some(50));
}

#[test]
fn delegation_scenario() {
    let mut ledger = Ledger::new(PROGRAM);
    let u = init(&mut ledger, USER_U, MINT_X);
    let accounts = DelegateDeposit { payer: PAYER, deposit: u };
    let request = ledger.plan_delegate(&accounts, &USER_U, &MINT_X).expect("delegable");
    assert_eq!(request.account, u);
    assert_eq!(request.user, USER_U);
    assert_eq!(request.token_mint, MINT_X);
    assert_eq!(ledger.delegate(&accounts, &USER_U, &MINT_X, CallOutcome::Succeeded), Ok(()));
    assert_eq!(ledger.layer(&u), Some(Layer::Delegated));
    assert_eq!(
        ledger.delegate(&accounts, &USER_U, &MINT_X, CallOutcome::Succeeded),
        Err(DepositError::InvalidState)
    );
    assert_eq!(ledger.layer(&u), Some(Layer::Delegated));
    let commit = undelegate_accounts(USER_U, u);
    let plan = ledger.plan_undelegate(&commit).expect("committable");
    assert_eq!(plan.account, u);
    assert_eq!(plan.magic_context, [30u8; 32]);
    assert_eq!(ledger.undelegate(&commit, CallOutcome::Succeeded), Ok(()));
    assert_eq!(ledger.layer(&u), Some(Layer::BaseResident));
}

#[test]
fn initialize_twice_keeps_balance() {
    let mut ledger = Ledger::new(PROGRAM);
    let u = init(&mut ledger, USER_U, MINT_X);
    assert_eq!(modify(&mut ledger, USER_U, MINT_X, u, 40, true), Ok(()));
    init(&mut ledger, USER_U, MINT_X);
    assert_eq!(ledger.balance(&u), Some(40));
    assert_eq!(ledger.entries.len(), 1);
}

#[test]
fn initialize_rejects_wrong_address() {
    let mut ledger = Ledger::new(PROGRAM);
    let wrong = address_of(&USER_V, &MINT_X);
    let accounts = InitializeDeposit { payer: PAYER, user: USER_U, deposit: wrong, token_mint: MINT_X };
    assert_eq!(ledger.initialize_deposit(&accounts), Err(DepositError::AddressDerivationMismatch));
    assert_eq!(ledger.entries.len(), 0);
}

#[test]
fn deposit_plans_transfer_into_custody() {
    let mut ledger = Ledger::new(PROGRAM);
    let u = init(&mut ledger, USER_U, MINT_X);
    let accounts = modify_accounts(USER_U, MINT_X, u);
    let t = ledger.plan_modify_balance(&accounts, &ModifyDepositArgs { amount: 5, increase: true }).unwrap();
    assert_eq!(t.from, [20u8; 32]);
    assert_eq!(t.to, [21u8; 32]);
    assert_eq!(t.authority, USER_U);
    assert_eq!(t.amount, 5);
    assert!(t.signer.is_none());
}

#[test]
fn withdrawal_is_signed_by_the_entry() {
    let mut ledger = Ledger::new(PROGRAM);
    let u = init(&mut ledger, USER_U, MINT_X);
    assert_eq!(modify(&mut ledger, USER_U, MINT_X, u, 10, true), Ok(()));
    let accounts = modify_accounts(USER_U, MINT_X, u);
    let t = ledger.plan_modify_balance(&accounts, &ModifyDepositArgs { amount: 4, increase: false }).unwrap();
    let bump = find_deposit_address(&USER_U, &MINT_X, &PROGRAM).unwrap().1;
    assert_eq!(t.from, [21u8; 32]);
    assert_eq!(t.to, [20u8; 32]);
    assert_eq!(t.authority, u);
    let seeds = t.signer.expect("signed by the entry");
    assert_eq!(seeds.user, USER_U);
    assert_eq!(seeds.token_mint, MINT_X);
    assert_eq!(seeds.bump, bump);
}

#[test]
fn failed_token_transfer_leaves_balance() {
    let mut ledger = Ledger::new(PROGRAM);
    let u = init(&mut ledger, USER_U, MINT_X);
    let accounts = modify_accounts(USER_U, MINT_X, u);
    let args = ModifyDepositArgs { amount: 100, increase: true };
    assert_eq!(ledger.modify_balance(&accounts, &args, CallOutcome::Failed), Err(DepositError::ExternalCallFailure));
    assert_eq!(ledger.balance(&u), Some(0));
}

#[test]
fn withdrawal_beyond_balance_fails() {
    let mut ledger = Ledger::new(PROGRAM);
    let u = init(&mut ledger, USER_U, MINT_X);
    assert_eq!(modify(&mut ledger, USER_U, MINT_X, u, 10, true), Ok(()));
    assert_eq!(modify(&mut ledger, USER_U, MINT_X, u, 11, false), Err(DepositError::InsufficientBalance));
    assert_eq!(ledger.balance(&u), Some(10));
    assert_eq!(modify(&mut ledger, USER_U, MINT_X, u, 10, false), Ok(()));
    assert_eq!(ledger.balance(&u), Some(0));
}

#[test]
fn deposit_overflow_fails() {
    let mut ledger = Ledger::new(PROGRAM);
    let u = init(&mut ledger, USER_U, MINT_X);
    assert_eq!(modify(&mut ledger, USER_U, MINT_X, u, u64::MAX, true), Ok(()));
    assert_eq!(modify(&mut ledger, USER_U, MINT_X, u, 1, true), Err(DepositError::ArithmeticOverflow));
    assert_eq!(ledger.balance(&u), Some(u64::MAX));
}

#[test]
fn modify_by_another_user_is_unauthorized() {
    let mut ledger = Ledger::new(PROGRAM);
    let u = init(&mut ledger, USER_U, MINT_X);
    assert_eq!(modify(&mut ledger, USER_V, MINT_X, u, 1, true), Err(DepositError::Unauthorized));
    let mut accounts = modify_accounts(USER_U, MINT_X, u);
    accounts.user_is_signer = false;
    let args = ModifyDepositArgs { amount: 1, increase: true };
    assert_eq!(ledger.modify_balance(&accounts, &args, CallOutcome::Succeeded), Err(DepositError::Unauthorized));
    assert_eq!(ledger.balance(&u), Some(0));
}

#[test]
fn modify_on_missing_entry_is_invalid_state() {
    let mut ledger = Ledger::new(PROGRAM);
    let u = address_of(&USER_U, &MINT_X);
    assert_eq!(modify(&mut ledger, USER_U, MINT_X, u, 1, true), Err(DepositError::InvalidState));
}

#[test]
fn transfer_between_assets_fails() {
    let mut ledger = Ledger::new(PROGRAM);
    let u = init(&mut ledger, USER_U, MINT_X);
    let v = init(&mut ledger, USER_V, MINT_Y);
    assert_eq!(modify(&mut ledger, USER_U, MINT_X, u, 10, true), Ok(()));
    assert_eq!(ledger.transfer_deposit(&transfer_accounts(USER_U, MINT_X, u, v), 5), Err(DepositError::AssetMismatch));
    assert_eq!(ledger.balance(&u), Some(10));
    assert_eq!(ledger.balance(&v), Some(0));
}

#[test]
fn transfer_conserves_the_sum() {
    let mut ledger = Ledger::new(PROGRAM);
    let u = init(&mut ledger, USER_U, MINT_X);
    let v = init(&mut ledger, USER_V, MINT_X);
    assert_eq!(modify(&mut ledger, USER_U, MINT_X, u, 60, true), Ok(()));
    assert_eq!(modify(&mut ledger, USER_V, MINT_X, v, 15, true), Ok(()));
    assert_eq!(ledger.transfer_deposit(&transfer_accounts(USER_U, MINT_X, u, v), 60), Ok(()));
    assert_eq!(ledger.balance(&u), Some(0));
    assert_eq!(ledger.balance(&v), Some(75));
    assert_eq!(ledger.transfer_deposit(&transfer_accounts(USER_U, MINT_X, u, v), 1), Err(DepositError::InsufficientBalance));
    assert_eq!(ledger.transfer_deposit(&transfer_accounts(USER_U, MINT_X, u, u), 0), Ok(()));
    assert_eq!(ledger.balance(&u), Some(0));
}

#[test]
fn transfer_into_full_destination_overflows() {
    let mut ledger = Ledger::new(PROGRAM);
    let u = init(&mut ledger, USER_U, MINT_X);
    let v = init(&mut ledger, USER_V, MINT_X);
    assert_eq!(modify(&mut ledger, USER_U, MINT_X, u, 1, true), Ok(()));
    assert_eq!(modify(&mut ledger, USER_V, MINT_X, v, u64::MAX, true), Ok(()));
    assert_eq!(ledger.transfer_deposit(&transfer_accounts(USER_U, MINT_X, u, v), 1), Err(DepositError::ArithmeticOverflow));
    assert_eq!(ledger.balance(&u), Some(1));
    assert_eq!(ledger.balance(&v), Some(u64::MAX));
}

#[test]
fn transfer_needs_source_owner_signature() {
    let mut ledger = Ledger::new(PROGRAM);
    let u = init(&mut ledger, USER_U, MINT_X);
    let v = init(&mut ledger, USER_V, MINT_X);
    assert_eq!(modify(&mut ledger, USER_U, MINT_X, u, 5, true), Ok(()));
    assert_eq!(ledger.transfer_deposit(&transfer_accounts(USER_V, MINT_X, u, v), 5), Err(DepositError::Unauthorized));
    assert_eq!(ledger.balance(&u), Some(5));
}

#[test]
fn undelegate_from_base_is_invalid_state() {
    let mut ledger = Ledger::new(PROGRAM);
    let u = init(&mut ledger, USER_U, MINT_X);
    assert_eq!(ledger.undelegate(&undelegate_accounts(USER_U, u), CallOutcome::Succeeded), Err(DepositError::InvalidState));
    assert_eq!(ledger.layer(&u), Some(Layer::BaseResident));
    assert_eq!(ledger.undelegate(&undelegate_accounts(USER_V, u), CallOutcome::Succeeded), Err(DepositError::Unauthorized));
}

#[test]
fn delegate_with_wrong_seeds_fails() {
    let mut ledger = Ledger::new(PROGRAM);
    let u = init(&mut ledger, USER_U, MINT_X);
    let accounts = DelegateDeposit { payer: PAYER, deposit: u };
    assert_eq!(
        ledger.delegate(&accounts, &USER_V, &MINT_X, CallOutcome::Succeeded),
        Err(DepositError::AddressDerivationMismatch)
    );
    let missing = address_of(&USER_V, &MINT_X);
    let accounts = DelegateDeposit { payer: PAYER, deposit: missing };
    assert_eq!(ledger.delegate(&accounts, &USER_V, &MINT_X, CallOutcome::Succeeded), Err(DepositError::InvalidState));
    let accounts = DelegateDeposit { payer: PAYER, deposit: u };
    assert_eq!(ledger.delegate(&accounts, &USER_U, &MINT_X, CallOutcome::Failed), Err(DepositError::ExternalCallFailure));
    assert_eq!(ledger.layer(&u), Some(Layer::BaseResident));
}

#[test]
fn delegated_balance_survives_round_trip() {
    let mut ledger = Ledger::new(PROGRAM);
    let u = init(&mut ledger, USER_U, MINT_X);
    assert_eq!(modify(&mut ledger, USER_U, MINT_X, u, 33, true), Ok(()));
    let accounts = DelegateDeposit { payer: PAYER, deposit: u };
    assert_eq!(ledger.delegate(&accounts, &USER_U, &MINT_X, CallOutcome::Succeeded), Ok(()));
    assert_eq!(ledger.undelegate(&undelegate_accounts(USER_U, u), CallOutcome::Succeeded), Ok(()));
    assert_eq!(ledger.balance(&u), Some(33));
    assert_eq!(ledger.layer(&u), Some(Layer::BaseResident));
}

fn permission_accounts(user: Key, deposit: Key) -> CreatePermission {
    CreatePermission {
        payer: PAYER,
        user,
        deposit,
        permission: [40u8; 32],
        group: [41u8; 32],
        permission_program: [42u8; 32],
    }
}

#[test]
fn permission_plan_names_owner_and_entry() {
    let mut ledger = Ledger::new(PROGRAM);
    let u = init(&mut ledger, USER_U, MINT_X);
    let plan = ledger.plan_create_permission(&permission_accounts(USER_U, u), [50u8; 32]).unwrap();
    assert_eq!(plan.group.id, [50u8; 32]);
    assert_eq!(plan.group.group, [41u8; 32]);
    assert_eq!(plan.group.members, vec![USER_U]);
    assert_eq!(plan.permission.delegated_account, u);
    assert_eq!(plan.permission.owner, u);
    assert_eq!(plan.permission.signer.token_mint, MINT_X);
    assert_eq!(
        ledger.plan_create_permission(&permission_accounts(USER_V, u), [50u8; 32]).unwrap_err(),
        DepositError::Unauthorized
    );
}

#[test]
fn permission_needs_both_calls() {
    let mut ledger = Ledger::new(PROGRAM);
    let u = init(&mut ledger, USER_U, MINT_X);
    let accounts = permission_accounts(USER_U, u);
    assert_eq!(ledger.create_permission(&accounts, CallOutcome::Succeeded, CallOutcome::Succeeded), Ok(()));
    assert_eq!(
        ledger.create_permission(&accounts, CallOutcome::Succeeded, CallOutcome::Failed),
        Err(DepositError::ExternalCallFailure)
    );
    assert_eq!(
        ledger.create_permission(&accounts, CallOutcome::Failed, CallOutcome::Succeeded),
        Err(DepositError::ExternalCallFailure)
    );
    let missing = address_of(&USER_V, &MINT_X);
    assert_eq!(
        ledger.create_permission(&permission_accounts(USER_V, missing), CallOutcome::Succeeded, CallOutcome::Succeeded),
        Err(DepositError::InvalidState)
    );
}
