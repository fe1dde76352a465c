//! The reward slot binder.
//!
//! A pool record carries a fixed-capacity array of reward-slot descriptors.
//! Binding a slot records a config-approved external token mint and its fresh
//! vault into the slot at a given index, exactly once: a slot whose mint is
//! still the default (zero) address is unbound, and a bound slot is never
//! re-bound. Whether the candidate mint is acceptable is answered by the
//! compatibility allow-list collaborator; the binder treats that answer as a
//! binary gate. The slot's authority field is set at pool creation and never
//! touched here.

use vstd::prelude::*;

use crate::LifecycleError;

verus! {

/// The fixed number of reward slots a pool carries.
pub const NUM_REWARDS: usize = 3;

/// The mint address of an unbound slot: the default (all-zero) address.
pub const UNBOUND_MINT: u64 = 0;

/// A reward-slot descriptor of the pool record.
#[derive(Clone, Copy, Debug)]
pub struct RewardInfo {
    /// The principal entitled to configure emissions on this slot; set at
    /// pool creation and immutable here.
    pub authority: u64,
    /// The bound reward mint, or `UNBOUND_MINT` while the slot is unbound.
    pub mint: u64,
    /// The vault holding this slot's reward funds, owned by the pool.
    pub vault: u64,
}

/// The pool record, as far as reward binding reads and writes it.
#[derive(Debug)]
pub struct Whirlpool {
    /// The configuration record the pool was created under.
    pub whirlpools_config: u64,
    /// The reward-slot array; always exactly `NUM_REWARDS` entries.
    pub reward_infos: Vec<RewardInfo>,
}

/// A slot is bound once it holds a non-default mint.
pub open spec fn slot_bound(slot: RewardInfo) -> bool {
    slot.mint != UNBOUND_MINT
}

/// When binding succeeds: the allow-list approved the mint, the index is
/// below the slot capacity, and the slot is still unbound.
pub open spec fn bind_reward_ok(slots: Seq<RewardInfo>, reward_index: u8, supported: bool) -> bool {
    &&& supported
    &&& (reward_index as int) < NUM_REWARDS
    &&& !slot_bound(slots[reward_index as int])
}

impl Whirlpool {
    /// The pool's well-formedness: the slot array has its fixed capacity.
    pub open spec fn wf(self) -> bool {
        self.reward_infos.len() == NUM_REWARDS
    }

    /// Records `{mint, vault}` into the reward slot at `index`, exactly once:
    /// rejected when the index is out of range or the slot is already bound.
    /// The slot's authority field is left untouched.
    pub fn initialize_reward(&mut self, index: usize, mint: u64, vault: u64) -> (r: Result<
        (),
        LifecycleError,
    >)
        requires
            old(self).wf(),
        ensures
            final(self).wf(),
            final(self).whirlpools_config == old(self).whirlpools_config,
            r is Ok <==> index < NUM_REWARDS && !slot_bound(old(self).reward_infos@[index as int]),
            r is Ok ==> final(self).reward_infos@ == old(self).reward_infos@.update(
                index as int,
                (RewardInfo { authority: old(self).reward_infos@[index as int].authority, mint, vault }),
            ),
            r is Err ==> *final(self) == *old(self),
            r is Err ==> r == Err::<(), LifecycleError>(
                if index >= NUM_REWARDS {
                    LifecycleError::IndexOutOfRange
                } else {
                    LifecycleError::SlotAlreadyBound
                },
            ),
    {
        if index >= NUM_REWARDS {
            return Err(LifecycleError::IndexOutOfRange);
        }
        if self.reward_infos[index].mint != UNBOUND_MINT {
            return Err(LifecycleError::SlotAlreadyBound);
        }
        let slot = vstd::std_specs::vec::vec_index_mut(&mut self.reward_infos, index);
        slot.mint = mint;
        slot.vault = vault;
        Ok(())
    }
}

/// Binds a reward slot: verifies the candidate mint against the
/// compatibility allow-list — whose answer for this mint under the pool's
/// configuration the caller passes in as `reward_mint_supported` — and then
/// records the mint and its freshly created vault into the slot at
/// `reward_index`.
pub fn handler(
    whirlpool: &mut Whirlpool,
    reward_index: u8,
    reward_mint: u64,
    reward_vault: u64,
    reward_mint_supported: bool,
) -> (r: Result<(), LifecycleError>)
    requires
        old(whirlpool).wf(),
    ensures
        final(whirlpool).wf(),
        final(whirlpool).whirlpools_config == old(whirlpool).whirlpools_config,
        r is Ok <==> bind_reward_ok(
            old(whirlpool).reward_infos@,
            reward_index,
            reward_mint_supported,
        ),
        r is Ok ==> final(whirlpool).reward_infos@ == old(whirlpool).reward_infos@.update(
            reward_index as int,
            (RewardInfo {
                authority: old(whirlpool).reward_infos@[reward_index as int].authority,
                mint: reward_mint,
                vault: reward_vault,
            }),
        ),
        r is Err ==> *final(whirlpool) == *old(whirlpool),
        r is Err ==> r == Err::<(), LifecycleError>(
            if !reward_mint_supported {
                LifecycleError::UnsupportedMint
            } else if reward_index as int >= NUM_REWARDS {
                LifecycleError::IndexOutOfRange
            } else {
                LifecycleError::SlotAlreadyBound
            },
        ),
{
    if !reward_mint_supported {
        return Err(LifecycleError::UnsupportedMint);
    }
    whirlpool.initialize_reward(reward_index as usize, reward_mint, reward_vault)
}

/// A bound slot is never re-bound: after a successful bind of a non-default
/// mint at some index, binding that index again is rejected, whatever mint
/// and vault come next and whatever the allow-list answers.
pub proof fn bound_slot_rejects_rebinding(
    slots: Seq<RewardInfo>,
    reward_index: u8,
    reward_mint: u64,
    reward_vault: u64,
    supported: bool,
    supported_again: bool,
)
    requires
        slots.len() == NUM_REWARDS,
        bind_reward_ok(slots, reward_index, supported),
        reward_mint != UNBOUND_MINT,
    ensures
        !bind_reward_ok(
            slots.update(
                reward_index as int,
                (RewardInfo {
                    authority: slots[reward_index as int].authority,
                    mint: reward_mint,
                    vault: reward_vault,
                }),
            ),
            reward_index,
            supported_again,
        ),
{
}

} // verus!
