use position_token::LifecycleError;
use position_token::initialize_reward::{NUM_REWARDS, RewardInfo, UNBOUND_MINT, Whirlpool, handler};

const CONFIG: u64 = 7;
const AUTHORITY: u64 = 70;
const REWARD_MINT: u64 = 71;
const REWARD_VAULT: u64 = 72;

fn fresh_pool() -> Whirlpool {
    let mut slots = Vec::new();
    for i in 0..NUM_REWARDS as u64 {
        slots.push(RewardInfo { authority: AUTHORITY + i, mint: UNBOUND_MINT, vault: 0 });
    }
    Whirlpool { whirlpools_config: CONFIG, reward_infos: slots }
}

#[test]
fn binding_records_mint_and_vault_and_keeps_the_authority() {
    let mut pool = fresh_pool();
    let r = handler(&mut pool, 1, REWARD_MINT, REWARD_VAULT, true);
    assert_eq!(r, Ok(()));
    assert_eq!(pool.reward_infos[1].mint, REWARD_MINT);
    assert_eq!(pool.reward_infos[1].vault, REWARD_VAULT);
    assert_eq!(pool.reward_infos[1].authority, AUTHORITY + 1);
    // the other slots are untouched
    assert_eq!(pool.reward_infos[0].mint, UNBOUND_MINT);
    assert_eq!(pool.reward_infos[2].mint, UNBOUND_MINT);
    assert_eq!(pool.whirlpools_config, CONFIG);
}

#[test]
fn binding_rejects_an_index_at_capacity() {
    let mut pool = fresh_pool();
    let r = handler(&mut pool, NUM_REWARDS as u8, REWARD_MINT, REWARD_VAULT, true);
    assert_eq!(r, Err(LifecycleError::IndexOutOfRange));
    let r = handler(&mut pool, u8::MAX, REWARD_MINT, REWARD_VAULT, true);
    assert_eq!(r, Err(LifecycleError::IndexOutOfRange));
}

#[test]
fn binding_rejects_an_unsupported_mint() {
    let mut pool = fresh_pool();
    let r = handler(&mut pool, 0, REWARD_MINT, REWARD_VAULT, false);
    assert_eq!(r, Err(LifecycleError::UnsupportedMint));
    assert_eq!(pool.reward_infos[0].mint, UNBOUND_MINT);
}

#[test]
fn binding_a_slot_twice_is_rejected() {
    let mut pool = fresh_pool();
    assert_eq!(handler(&mut pool, 2, REWARD_MINT, REWARD_VAULT, true), Ok(()));
    let r = handler(&mut pool, 2, REWARD_MINT + 1, REWARD_VAULT + 1, true);
    assert_eq!(r, Err(LifecycleError::SlotAlreadyBound));
    assert_eq!(pool.reward_infos[2].mint, REWARD_MINT);
    assert_eq!(pool.reward_infos[2].vault, REWARD_VAULT);
}

#[test]
fn the_unsupported_gate_is_checked_before_the_index() {
    let mut pool = fresh_pool();
    let r = handler(&mut pool, NUM_REWARDS as u8, REWARD_MINT, REWARD_VAULT, false);
    assert_eq!(r, Err(LifecycleError::UnsupportedMint));
}
