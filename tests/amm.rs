use micro_amm::address::{derive_pool_address, find_pool_address};
use micro_amm::contexts::{AddLiquidityAccount, InitializePoolAccount, SwapAccount};
use micro_amm::error::{AmmError, TransferError};
use micro_amm::instructions::{plan_deposit, plan_swap};
use micro_amm::key::Key;
use micro_amm::ledger::{Ledger, TokenAccount};
use micro_amm::micro_amm::{add_liquidity, initialize, swap};
use micro_amm::pricing::quote_swap;
use micro_amm::state::Pool;

fn key(b: u8) -> Key {
    Key::new([b; 32])
}

fn program_id() -> Key {
    key(200)
}

const MINT_X: u8 = 1;
const MINT_Y: u8 = 2;
const VAULT_X: u8 = 3;
const VAULT_Y: u8 = 4;
const AUTHORITY: u8 = 5;
const USER: u8 = 6;
const USER_X: u8 = 7;
const USER_Y: u8 = 8;

fn pool_key() -> Key {
    find_pool_address(&key(MINT_X), &key(MINT_Y), &program_id()).unwrap().0
}

fn init_ctx() -> InitializePoolAccount {
    InitializePoolAccount {
        pool: pool_key(),
        token_x_mint: key(MINT_X),
        token_y_mint: key(MINT_Y),
        token_x_vault: key(VAULT_X),
        token_y_vault: key(VAULT_Y),
        authority: key(AUTHORITY),
        authority_signed: true,
    }
}

fn swap_ctx() -> SwapAccount {
    SwapAccount {
        pool: pool_key(),
        token_x_vault: key(VAULT_X),
        token_y_vault: key(VAULT_Y),
        user_token_x: key(USER_X),
        user_token_y: key(USER_Y),
        user: key(USER),
        user_signed: true,
    }
}

fn deposit_ctx() -> AddLiquidityAccount {
    AddLiquidityAccount {
        pool: pool_key(),
        token_x_vault: key(VAULT_X),
        token_y_vault: key(VAULT_Y),
        user_token_x: key(USER_X),
        user_token_y: key(USER_Y),
        user: key(USER),
        user_signed: true,
    }
}

/// A ledger holding the user's two accounts, and a fresh pool.
fn setup(user_x: u64, user_y: u64) -> (Vec<Pool>, Ledger) {
    let mut ledger = Ledger::new();
    ledger
        .open_account(TokenAccount { address: key(USER_X), mint: key(MINT_X), owner: key(USER), amount: user_x })
        .unwrap();
    ledger
        .open_account(TokenAccount { address: key(USER_Y), mint: key(MINT_Y), owner: key(USER), amount: user_y })
        .unwrap();
    let mut pools = Vec::new();
    initialize(&mut pools, &mut ledger, &init_ctx(), &program_id(), 30).unwrap();
    (pools, ledger)
}

fn funded_pool(x: u64, y: u64) -> (Pool, Ledger) {
    let (mut pools, mut ledger) = setup(u64::MAX / 2, u64::MAX / 2);
    let mut pool = pools.remove(0);
    add_liquidity(&mut pool, &mut ledger, &deposit_ctx(), &program_id(), x, y).unwrap();
    (pool, ledger)
}

fn balance(ledger: &Ledger, b: u8) -> u64 {
    ledger.balance_of(&key(b)).unwrap()
}

#[test]
fn initialize_creates_empty_pool() {
    let (pools, ledger) = setup(0, 0);
    assert_eq!(pools.len(), 1);
    let p = pools[0];
    assert_eq!(p.reserves(), (0, 0));
    assert_eq!(p.fee_bps, 30);
    assert_eq!(p.token_x_mint.bytes, [MINT_X; 32]);
    assert_eq!(p.token_y_vault.bytes, [VAULT_Y; 32]);
    assert_eq!(p.authority.bytes, [AUTHORITY; 32]);
    assert_eq!(balance(&ledger, VAULT_X), 0);
    assert_eq!(balance(&ledger, VAULT_Y), 0);
}

#[test]
fn initialize_accepts_full_fee() {
    let mut ledger = Ledger::new();
    let mut pools = Vec::new();
    assert_eq!(initialize(&mut pools, &mut ledger, &init_ctx(), &program_id(), 10000), Ok(()));
    assert_eq!(pools[0].fee_bps, 10000);
}

#[test]
fn initialize_rejects_fee_above_full() {
    let mut ledger = Ledger::new();
    let mut pools = Vec::new();
    assert_eq!(
        initialize(&mut pools, &mut ledger, &init_ctx(), &program_id(), 10001),
        Err(AmmError::InvalidFeeRate)
    );
    assert!(pools.is_empty());
    assert!(ledger.balance_of(&key(VAULT_X)).is_none());
}

#[test]
fn initialize_rejects_duplicate_pair() {
    let (mut pools, mut ledger) = setup(0, 0);
    let mut ctx = init_ctx();
    ctx.token_x_vault = key(20);
    ctx.token_y_vault = key(21);
    assert_eq!(
        initialize(&mut pools, &mut ledger, &ctx, &program_id(), 30),
        Err(AmmError::DuplicatePool)
    );
    assert_eq!(pools.len(), 1);
}

#[test]
fn initialize_rejects_wrong_address() {
    let mut ledger = Ledger::new();
    let mut pools = Vec::new();
    let mut ctx = init_ctx();
    ctx.pool = key(99);
    assert_eq!(
        initialize(&mut pools, &mut ledger, &ctx, &program_id(), 30),
        Err(AmmError::AddressMismatch)
    );
}

#[test]
fn initialize_requires_authority_signature() {
    let mut ledger = Ledger::new();
    let mut pools = Vec::new();
    let mut ctx = init_ctx();
    ctx.authority_signed = false;
    assert_eq!(
        initialize(&mut pools, &mut ledger, &ctx, &program_id(), 30),
        Err(AmmError::MissingAuthorization)
    );
}

#[test]
fn initialize_rejects_shared_vault() {
    let mut ledger = Ledger::new();
    let mut pools = Vec::new();
    let mut ctx = init_ctx();
    ctx.token_y_vault = key(VAULT_X);
    assert_eq!(
        initialize(&mut pools, &mut ledger, &ctx, &program_id(), 30),
        Err(AmmError::Transfer(TransferError::AccountExists))
    );
    assert!(ledger.balance_of(&key(VAULT_X)).is_none());
}

#[test]
fn add_liquidity_credits_reserves() {
    let (mut pools, mut ledger) = setup(1000, 1000);
    let mut pool = pools.remove(0);
    assert_eq!(pool.reserves(), (0, 0));
    assert_eq!(add_liquidity(&mut pool, &mut ledger, &deposit_ctx(), &program_id(), 500, 500), Ok(()));
    assert_eq!(pool.reserves(), (500, 500));
    assert_eq!(balance(&ledger, VAULT_X), 500);
    assert_eq!(balance(&ledger, VAULT_Y), 500);
    assert_eq!(balance(&ledger, USER_X), 500);
    assert_eq!(balance(&ledger, USER_Y), 500);
}

#[test]
fn add_liquidity_is_all_or_nothing() {
    let (mut pools, mut ledger) = setup(1000, 100);
    let mut pool = pools.remove(0);
    assert_eq!(
        add_liquidity(&mut pool, &mut ledger, &deposit_ctx(), &program_id(), 500, 500),
        Err(AmmError::Transfer(TransferError::InsufficientFunds))
    );
    assert_eq!(pool.reserves(), (0, 0));
    assert_eq!(balance(&ledger, USER_X), 1000);
    assert_eq!(balance(&ledger, VAULT_X), 0);
}

#[test]
fn add_liquidity_rejects_reserve_overflow() {
    let (mut pool, mut ledger) = funded_pool(u64::MAX / 2, 1);
    assert_eq!(balance(&ledger, USER_X), 0);
    assert_eq!(
        add_liquidity(&mut pool, &mut ledger, &deposit_ctx(), &program_id(), u64::MAX / 2 + 2, 0),
        Err(AmmError::ArithmeticOverflow)
    );
    assert_eq!(pool.reserves(), (u64::MAX / 2, 1));
}

#[test]
fn add_liquidity_rejects_wrong_vault() {
    let (mut pools, mut ledger) = setup(1000, 1000);
    let mut pool = pools.remove(0);
    let mut ctx = deposit_ctx();
    ctx.token_y_vault = key(USER_Y);
    assert_eq!(
        add_liquidity(&mut pool, &mut ledger, &ctx, &program_id(), 1, 1),
        Err(AmmError::VaultMismatch)
    );
}

#[test]
fn add_liquidity_requires_user_signature() {
    let (mut pools, mut ledger) = setup(1000, 1000);
    let mut pool = pools.remove(0);
    let mut ctx = deposit_ctx();
    ctx.user_signed = false;
    assert_eq!(
        add_liquidity(&mut pool, &mut ledger, &ctx, &program_id(), 1, 1),
        Err(AmmError::MissingAuthorization)
    );
}

#[test]
fn swap_prices_on_constant_product() {
    let (mut pool, mut ledger) = funded_pool(1000, 1000);
    let ux = balance(&ledger, USER_X);
    let uy = balance(&ledger, USER_Y);
    assert_eq!(swap(&mut pool, &mut ledger, &swap_ctx(), &program_id(), 100), Ok(91));
    assert_eq!(pool.reserves(), (1100, 909));
    assert_eq!(balance(&ledger, VAULT_X), 1100);
    assert_eq!(balance(&ledger, VAULT_Y), 909);
    assert_eq!(balance(&ledger, USER_X), ux - 100);
    assert_eq!(balance(&ledger, USER_Y), uy + 91);
}

#[test]
fn swap_keeps_product_from_growing() {
    let (mut pool, mut ledger) = funded_pool(1000, 1000);
    for amount in [1u64, 7, 100, 5000] {
        let (x, y) = pool.reserves();
        swap(&mut pool, &mut ledger, &swap_ctx(), &program_id(), amount).unwrap();
        let (nx, ny) = pool.reserves();
        assert!((nx as u128) * (ny as u128) <= (x as u128) * (y as u128));
        assert_eq!(balance(&ledger, VAULT_X), nx);
        assert_eq!(balance(&ledger, VAULT_Y), ny);
    }
}

#[test]
fn swap_rejects_zero_amount() {
    let (mut pool, mut ledger) = funded_pool(1000, 1000);
    assert_eq!(swap(&mut pool, &mut ledger, &swap_ctx(), &program_id(), 0), Err(AmmError::ZeroAmount));
    assert_eq!(pool.reserves(), (1000, 1000));
}

#[test]
fn swap_rejects_product_overflow() {
    let (mut pool, mut ledger) = funded_pool(1 << 32, 1 << 32);
    assert_eq!(
        swap(&mut pool, &mut ledger, &swap_ctx(), &program_id(), 1),
        Err(AmmError::ArithmeticOverflow)
    );
    assert_eq!(pool.reserves(), (1 << 32, 1 << 32));
    assert_eq!(balance(&ledger, VAULT_X), 1 << 32);
}

#[test]
fn swap_reports_insufficient_funds() {
    let (mut pools, mut ledger) = setup(1000, 1000);
    let mut pool = pools.remove(0);
    add_liquidity(&mut pool, &mut ledger, &deposit_ctx(), &program_id(), 950, 950).unwrap();
    assert_eq!(balance(&ledger, USER_X), 50);
    assert_eq!(
        swap(&mut pool, &mut ledger, &swap_ctx(), &program_id(), 100),
        Err(AmmError::Transfer(TransferError::InsufficientFunds))
    );
    assert_eq!(pool.reserves(), (950, 950));
    assert_eq!(balance(&ledger, USER_X), 50);
    assert_eq!(balance(&ledger, VAULT_X), 950);
}

#[test]
fn swap_rejects_user_account_that_is_a_vault() {
    let (mut pool, mut ledger) = funded_pool(1000, 1000);
    let mut ctx = swap_ctx();
    ctx.user_token_y = key(VAULT_Y);
    assert_eq!(
        swap(&mut pool, &mut ledger, &ctx, &program_id(), 10),
        Err(AmmError::AccountConflict)
    );
    assert_eq!(pool.reserves(), (1000, 1000));
}

#[test]
fn swap_rejects_wrong_pool_address() {
    let (mut pool, mut ledger) = funded_pool(1000, 1000);
    let mut ctx = swap_ctx();
    ctx.pool = key(99);
    assert_eq!(swap(&mut pool, &mut ledger, &ctx, &program_id(), 10), Err(AmmError::AddressMismatch));
    let mut other = pool;
    other.bump = other.bump.wrapping_add(1);
    assert_eq!(
        swap(&mut other, &mut ledger, &swap_ctx(), &program_id(), 10),
        Err(AmmError::AddressMismatch)
    );
}

#[test]
fn swap_pays_out_whole_reserve_when_floor_is_zero() {
    let (mut pool, mut ledger) = funded_pool(1, 1);
    assert_eq!(swap(&mut pool, &mut ledger, &swap_ctx(), &program_id(), 10), Ok(1));
    assert_eq!(pool.reserves(), (11, 0));
}

#[test]
fn quote_matches_formula() {
    assert_eq!(quote_swap(1000, 1000, 100), Ok(91));
    assert_eq!(quote_swap(0, 1000, 100), Ok(1000));
    assert_eq!(quote_swap(1000, 0, 100), Ok(0));
    assert_eq!(quote_swap(1000, 1000, 0), Err(AmmError::ZeroAmount));
    assert_eq!(quote_swap(u64::MAX, 1, 1), Err(AmmError::ArithmeticOverflow));
    assert_eq!(quote_swap(u64::MAX, 2, 1), Err(AmmError::ArithmeticOverflow));
}

#[test]
fn quote_is_monotonic_and_below_reserve() {
    let mut last = 0u64;
    for amount in 1u64..3000 {
        let out = quote_swap(1000, 1000, amount).unwrap();
        assert!(out >= last);
        assert!(out < 1000);
        last = out;
    }
}

#[test]
fn derived_address_matches_canonical_search() {
    let (a, b) = find_pool_address(&key(MINT_X), &key(MINT_Y), &program_id()).unwrap();
    let again = derive_pool_address(&key(MINT_X), &key(MINT_Y), b, &program_id()).unwrap();
    assert_eq!(a.bytes, again.bytes);
    assert_ne!(a.bytes, program_id().bytes);
    assert_ne!(a.bytes, key(MINT_X).bytes);
    let swapped = find_pool_address(&key(MINT_Y), &key(MINT_X), &program_id()).unwrap().0;
    assert_ne!(a.bytes, swapped.bytes);
}

#[test]
fn ledger_transfer_errors() {
    let mut ledger = Ledger::new();
    ledger.open_account(TokenAccount { address: key(1), mint: key(10), owner: key(20), amount: 100 }).unwrap();
    ledger.open_account(TokenAccount { address: key(2), mint: key(10), owner: key(21), amount: u64::MAX }).unwrap();
    ledger.open_account(TokenAccount { address: key(3), mint: key(11), owner: key(20), amount: 0 }).unwrap();
    ledger.open_account(TokenAccount { address: key(4), mint: key(10), owner: key(21), amount: 0 }).unwrap();
    assert_eq!(
        ledger.open_account(TokenAccount { address: key(1), mint: key(10), owner: key(20), amount: 0 }),
        Err(TransferError::AccountExists)
    );
    assert_eq!(ledger.transfer(&key(1), &key(9), &key(20), 1), Err(TransferError::UnknownAccount));
    assert_eq!(ledger.transfer(&key(1), &key(4), &key(20), 101), Err(TransferError::InsufficientFunds));
    assert_eq!(ledger.transfer(&key(1), &key(3), &key(20), 1), Err(TransferError::MintMismatch));
    assert_eq!(ledger.transfer(&key(1), &key(4), &key(21), 1), Err(TransferError::InvalidAuthority));
    assert_eq!(ledger.transfer(&key(1), &key(2), &key(20), 1), Err(TransferError::Overflow));
    assert_eq!(ledger.transfer(&key(1), &key(1), &key(20), 100), Ok(()));
    assert_eq!(ledger.balance_of(&key(1)), Some(100));
    assert_eq!(ledger.transfer(&key(1), &key(4), &key(20), 40), Ok(()));
    assert_eq!(ledger.balance_of(&key(1)), Some(60));
    assert_eq!(ledger.balance_of(&key(4)), Some(40));
}

#[test]
fn record_size() {
    assert_eq!(Pool::INIT_SPACE, 8 + 5 * 32 + 2 + 1 + 16);
}

#[test]
fn plan_swap_prices_without_moving_funds() {
    let (pool, ledger) = funded_pool(1000, 1000);
    assert_eq!(plan_swap(&pool, &swap_ctx(), &program_id(), 100), Ok(91));
    assert_eq!(plan_swap(&pool, &swap_ctx(), &program_id(), 0), Err(AmmError::ZeroAmount));
    assert_eq!(pool.reserves(), (1000, 1000));
    assert_eq!(balance(&ledger, VAULT_Y), 1000);
    let mut ctx = swap_ctx();
    ctx.token_x_vault = key(VAULT_Y);
    assert_eq!(plan_swap(&pool, &ctx, &program_id(), 100), Err(AmmError::VaultMismatch));
}

#[test]
fn plan_deposit_checks_accounts_and_range() {
    let (mut pools, _ledger) = setup(0, 0);
    let mut pool = pools.remove(0);
    pool.record_deposit(1000, u64::MAX - 10).unwrap();
    assert_eq!(plan_deposit(&pool, &deposit_ctx(), &program_id(), 5, 10), Ok(()));
    assert_eq!(
        plan_deposit(&pool, &deposit_ctx(), &program_id(), 5, 11),
        Err(AmmError::ArithmeticOverflow)
    );
    let mut ctx = deposit_ctx();
    ctx.user_token_x = key(VAULT_X);
    assert_eq!(plan_deposit(&pool, &ctx, &program_id(), 5, 5), Err(AmmError::AccountConflict));
}

#[test]
fn record_swap_books_or_refuses() {
    let (mut pool, _ledger) = funded_pool(1000, 1000);
    assert_eq!(pool.record_swap(100, 91), Ok(()));
    assert_eq!(pool.reserves(), (1100, 909));
    assert_eq!(pool.record_swap(1, 910), Err(AmmError::InvariantViolation));
    assert_eq!(pool.record_swap(u64::MAX, 0), Err(AmmError::ArithmeticOverflow));
    assert_eq!(pool.reserves(), (1100, 909));
}

#[test]
fn record_deposit_books_or_refuses() {
    let (mut pools, _ledger) = setup(0, 0);
    let mut pool = pools.remove(0);
    assert_eq!(pool.record_deposit(500, 500), Ok(()));
    assert_eq!(pool.reserves(), (500, 500));
    assert_eq!(pool.record_deposit(0, u64::MAX), Err(AmmError::ArithmeticOverflow));
    assert_eq!(pool.reserves(), (500, 500));
}

#[test]
fn create_sets_fields_and_bounds_fee() {
    let p = Pool::create(&init_ctx(), 254, 30).unwrap();
    assert_eq!(p.fee_bps, 30);
    assert_eq!(p.bump, 254);
    assert_eq!(p.reserves(), (0, 0));
    assert_eq!(p.token_x_vault.bytes, [VAULT_X; 32]);
    assert_eq!(Pool::create(&init_ctx(), 254, 10001).unwrap_err(), AmmError::InvalidFeeRate);
}
