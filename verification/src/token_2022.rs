//! The position-token lifecycle engine.
//!
//! A position is represented by a single-supply token: a mint created once,
//! loaded with exactly one unit that is delivered to the owner's holding
//! account, and finally burned when the position is torn down. The engine
//! drives the order-sensitive ledger operations of that lifecycle and is
//! verified against the ledger model of [`crate::ledger`]:
//! provisioning (allocate, write extensions, initialize), delivery (mint one
//! unit, then irreversibly revoke the mint authority), custody (freeze and
//! thaw the holder's account), transfer, and teardown (burn, close the
//! holding account, close the mint).
//!
//! Every operation either completes as a whole or reports an error with all
//! accounts unchanged, mirroring the host environment's atomic rollback.
//!
//! The position's derived signing authority is a pure function of the
//! position record's own address — the record signs for itself — so the
//! engine takes the position address where the deriving seeds would stand.

use vstd::prelude::*;

use anchor_spl::token_2022::spl_token_2022::extension::ExtensionType;
use anchor_spl::token_2022::spl_token_2022::state::Mint;

use crate::LifecycleError;
use crate::ledger::{
    Authority, HoldingAccount, HoldingState, MetadataPointer, MintAccount, MintExtensions,
    MintState, allocate_mint_account, burn_checked, close_holding_account, close_holding_ok,
    close_mint_account, create_holding_account, freeze_account, freeze_ok, init_close_authority,
    init_metadata_pointer, initialize_mint, mint_to, mint_to_ok, revoke_mint_authority,
    thaw_account, thaw_ok, transfer_checked, HOLDING_ACCOUNT_SPACE,
};
use crate::rent::{RentSchedule, spec_minimum_balance};

verus! {

/// The account size of a position mint: room for the close-authority
/// extension, plus the metadata-pointer extension when metadata is requested.
pub open spec fn mint_space(use_token_metadata_extension: bool) -> u64 {
    if use_token_metadata_extension {
        270
    } else {
        202
    }
}

/// Relies on `ExtensionType::try_calculate_account_len` of the token ledger's
/// interface crate: the account length of a mint with the close-authority
/// extension is the 166 base bytes plus a 36-byte entry, and the
/// metadata-pointer extension adds a 68-byte entry.
#[verifier::external_body]
fn mint_account_space(use_token_metadata_extension: bool) -> (r: Option<u64>)
    ensures
        r == Some(mint_space(use_token_metadata_extension)),
{
    let extension_types: &[ExtensionType] = if use_token_metadata_extension {
        &[ExtensionType::MintCloseAuthority, ExtensionType::MetadataPointer]
    } else {
        &[ExtensionType::MintCloseAuthority]
    };
    ExtensionType::try_calculate_account_len::<Mint>(extension_types).ok().map(|len| len as u64)
}

/// The extension set a provisioned position mint carries: the position's
/// derived authority may close the mint, and, when metadata is requested, a
/// metadata pointer with no external authority that points at the mint
/// itself.
pub open spec fn provisioned_extensions(
    position: u64,
    position_mint_address: u64,
    use_token_metadata_extension: bool,
) -> MintExtensions {
    MintExtensions {
        close_authority: Some(Authority::Controlled(position)),
        metadata_pointer: if use_token_metadata_extension {
            Some(
                MetadataPointer {
                    authority: Authority::Nobody,
                    metadata_address: Some(position_mint_address),
                },
            )
        } else {
            None
        },
    }
}

/// The state a freshly provisioned position mint is left in: zero supply,
/// zero decimals, mint and freeze authority both held by the position's
/// derived authority, and the extension set of `provisioned_extensions`.
pub open spec fn provisioned_mint_state(
    position: u64,
    position_mint_address: u64,
    rent: RentSchedule,
    use_token_metadata_extension: bool,
) -> MintState {
    MintState {
        lamports: spec_minimum_balance(rent, mint_space(use_token_metadata_extension)) as u64,
        supply: 0,
        decimals: 0,
        mint_authority: Authority::Controlled(position),
        freeze_authority: Authority::Controlled(position),
        extensions: provisioned_extensions(
            position,
            position_mint_address,
            use_token_metadata_extension,
        ),
    }
}

/// When provisioning succeeds: the mint account does not exist yet, the
/// required balance is representable, and the funder carries it.
pub open spec fn provision_ok(
    position_mint: MintAccount,
    funder_lamports: u64,
    rent: RentSchedule,
    use_token_metadata_extension: bool,
) -> bool {
    &&& position_mint is Unallocated
    &&& spec_minimum_balance(rent, mint_space(use_token_metadata_extension)) <= u64::MAX
    &&& spec_minimum_balance(rent, mint_space(use_token_metadata_extension)) <= funder_lamports
}

/// The exact outcome of provisioning, error selection included.
pub open spec fn spec_provision_result(
    position_mint: MintAccount,
    funder_lamports: u64,
    rent: RentSchedule,
    use_token_metadata_extension: bool,
) -> Result<(), LifecycleError> {
    if spec_minimum_balance(rent, mint_space(use_token_metadata_extension)) > u64::MAX {
        Err(LifecycleError::AllocationError)
    } else if !(position_mint is Unallocated) {
        Err(LifecycleError::ExternalLedgerRejected)
    } else if funder_lamports < spec_minimum_balance(
        rent,
        mint_space(use_token_metadata_extension),
    ) {
        Err(LifecycleError::AllocationError)
    } else {
        Ok(())
    }
}

/// Provisions the position mint: allocates the mint account sized for its
/// extensions, funded rent-exempt by the funder; sets the position's derived
/// authority as close authority; when requested, points the metadata pointer
/// at the mint itself; and initializes the mint with zero decimals and with
/// mint and freeze authority both held by the derived authority. The
/// extension writes precede initialization — the ledger admits no other
/// order — and afterwards the extension set is immutable.
pub fn initialize_position_mint_2022(
    position_mint_address: u64,
    position_mint: &mut MintAccount,
    funder_lamports: &mut u64,
    position: u64,
    rent: &RentSchedule,
    use_token_metadata_extension: bool,
) -> (r: Result<(), LifecycleError>)
    ensures
        r is Ok <==> provision_ok(
            *old(position_mint),
            *old(funder_lamports),
            *rent,
            use_token_metadata_extension,
        ),
        r matches Err(e) ==> (spec_provision_result(
            *old(position_mint),
            *old(funder_lamports),
            *rent,
            use_token_metadata_extension,
        ) matches Err(se) && e == se),
        r is Ok ==> *final(position_mint) == (MintAccount::Initialized(
            provisioned_mint_state(
                position,
                position_mint_address,
                *rent,
                use_token_metadata_extension,
            ),
        )) && *final(funder_lamports) == *old(funder_lamports) - spec_minimum_balance(
            *rent,
            mint_space(use_token_metadata_extension),
        ),
        r is Err ==> *final(position_mint) == *old(position_mint) && *final(funder_lamports)
            == *old(funder_lamports),
{
    let space = match mint_account_space(use_token_metadata_extension) {
        Some(space) => space,
        None => {
            return Err(LifecycleError::ExtensionConflict);
        },
    };
    let lamports = match rent.minimum_balance(space) {
        Some(lamports) => lamports,
        None => {
            return Err(LifecycleError::AllocationError);
        },
    };
    match allocate_mint_account(position_mint, funder_lamports, lamports, space) {
        Ok(()) => {},
        Err(e) => {
            return Err(e);
        },
    }
    match init_close_authority(position_mint, Authority::Controlled(position)) {
        Ok(()) => {},
        Err(e) => {
            return Err(e);
        },
    }
    if use_token_metadata_extension {
        match init_metadata_pointer(
            position_mint,
            Authority::Nobody,
            Some(position_mint_address),
        ) {
            Ok(()) => {},
            Err(e) => {
                return Err(e);
            },
        }
    }
    initialize_mint(position_mint, 0, position, Some(position))
}

/// When creating the owner's holding account succeeds: the account does not
/// exist yet, the mint is live, and the funder carries the representable
/// rent-exempt balance for the fixed holding-account size.
pub open spec fn holding_provision_ok(
    position_token_account: HoldingAccount,
    position_mint: MintAccount,
    funder_lamports: u64,
    rent: RentSchedule,
) -> bool {
    &&& position_token_account is Unallocated
    &&& position_mint is Initialized
    &&& spec_minimum_balance(rent, HOLDING_ACCOUNT_SPACE) <= u64::MAX
    &&& spec_minimum_balance(rent, HOLDING_ACCOUNT_SPACE) <= funder_lamports
}

/// The exact outcome of creating the holding account, error selection
/// included.
pub open spec fn spec_holding_provision_result(
    position_token_account: HoldingAccount,
    position_mint: MintAccount,
    funder_lamports: u64,
    rent: RentSchedule,
) -> Result<(), LifecycleError> {
    if spec_minimum_balance(rent, HOLDING_ACCOUNT_SPACE) > u64::MAX {
        Err(LifecycleError::AllocationError)
    } else if !(position_token_account is Unallocated && position_mint is Initialized) {
        Err(LifecycleError::ExternalLedgerRejected)
    } else if funder_lamports < spec_minimum_balance(rent, HOLDING_ACCOUNT_SPACE) {
        Err(LifecycleError::AllocationError)
    } else {
        Ok(())
    }
}

/// Creates the owner's holding account for the position mint, funded
/// rent-exempt by the funder. The fresh account holds nothing and is thawed.
pub fn initialize_position_token_account_2022(
    position_token_account: &mut HoldingAccount,
    position_mint_address: u64,
    position_mint: &MintAccount,
    funder_lamports: &mut u64,
    owner: u64,
    rent: &RentSchedule,
) -> (r: Result<(), LifecycleError>)
    ensures
        r is Ok <==> holding_provision_ok(
            *old(position_token_account),
            *position_mint,
            *old(funder_lamports),
            *rent,
        ),
        r matches Err(e) ==> (spec_holding_provision_result(
            *old(position_token_account),
            *position_mint,
            *old(funder_lamports),
            *rent,
        ) matches Err(se) && e == se),
        r is Ok ==> *final(position_token_account) == (HoldingAccount::Open(HoldingState {
            lamports: spec_minimum_balance(*rent, HOLDING_ACCOUNT_SPACE) as u64,
            owner,
            mint: position_mint_address,
            amount: 0,
            frozen: false,
        })) && *final(funder_lamports) == *old(funder_lamports) - spec_minimum_balance(
            *rent,
            HOLDING_ACCOUNT_SPACE,
        ),
        r is Err ==> *final(position_token_account) == *old(position_token_account)
            && *final(funder_lamports) == *old(funder_lamports),
{
    let lamports = match rent.minimum_balance(HOLDING_ACCOUNT_SPACE) {
        Some(lamports) => lamports,
        None => {
            return Err(LifecycleError::AllocationError);
        },
    };
    create_holding_account(
        position_token_account,
        funder_lamports,
        position_mint,
        position_mint_address,
        owner,
        lamports,
    )
}

/// When delivery succeeds: exactly the ledger's conditions for minting one
/// unit into the holding account under the position's derived authority.
pub open spec fn delivery_ok(
    position_mint: MintAccount,
    position_token_account: HoldingAccount,
    position_mint_address: u64,
    position: u64,
) -> bool {
    mint_to_ok(position_mint, position_token_account, position_mint_address, position, 1)
}

/// Delivers the position token: mints exactly one unit into the holding
/// account, signed by the position's derived authority, then immediately and
/// irreversibly revokes the mint authority. Afterwards the supply is fixed;
/// no principal can ever mint again. The two steps form one logical
/// transaction: whenever the mint step succeeds, the revocation provably
/// succeeds too, so no partial completion exists.
pub fn mint_position_token_2022_and_remove_authority(
    position: u64,
    position_mint_address: u64,
    position_mint: &mut MintAccount,
    position_token_account: &mut HoldingAccount,
) -> (r: Result<(), LifecycleError>)
    ensures
        r is Ok <==> delivery_ok(
            *old(position_mint),
            *old(position_token_account),
            position_mint_address,
            position,
        ),
        r is Ok ==> (*old(position_mint) matches MintAccount::Initialized(m) && *old(
            position_token_account,
        ) matches HoldingAccount::Open(h) && *final(position_mint) == (MintAccount::Initialized(
            MintState {
                supply: (m.supply + 1) as u64,
                mint_authority: Authority::Nobody,
                ..m
            },
        )) && *final(position_token_account) == (HoldingAccount::Open(
            HoldingState { amount: (h.amount + 1) as u64, ..h },
        ))),
        r is Ok && (*old(position_mint) matches MintAccount::Initialized(m) && m.supply == 0)
            ==> (*final(position_mint) matches MintAccount::Initialized(m2) && m2.supply == 1),
        r is Err ==> *final(position_mint) == *old(position_mint) && *final(position_token_account) == *old(position_token_account) && r == Err::<(), LifecycleError>(
            LifecycleError::ExternalLedgerRejected,
        ),
{
    match mint_to(
        position_mint,
        position_token_account,
        position_mint_address,
        position,
        1,
    ) {
        Ok(()) => {},
        Err(e) => {
            return Err(e);
        },
    }
    revoke_mint_authority(position_mint, position)
}

/// Freezes the holder's account under the position's derived authority,
/// blocking transfers. The ledger rejects freezing an account that is
/// already frozen.
pub fn freeze_user_position_token_2022(
    position_mint_address: u64,
    position_mint: &MintAccount,
    position_token_account: &mut HoldingAccount,
    position: u64,
) -> (r: Result<(), LifecycleError>)
    ensures
        r is Ok <==> freeze_ok(
            *position_mint,
            *old(position_token_account),
            position_mint_address,
            position,
        ),
        r is Ok ==> (*old(position_token_account) matches HoldingAccount::Open(h) && *final(position_token_account) == (HoldingAccount::Open(HoldingState { frozen: true, ..h }))),
        r is Err ==> *final(position_token_account) == *old(position_token_account) && r == Err::<
            (),
            LifecycleError,
        >(LifecycleError::ExternalLedgerRejected),
{
    freeze_account(position_mint, position_token_account, position_mint_address, position)
}

/// Thaws the holder's account under the position's derived authority,
/// lifting the transfer block. The ledger rejects thawing an account that is
/// not frozen.
pub fn unfreeze_user_position_token_2022(
    position_mint_address: u64,
    position_mint: &MintAccount,
    position_token_account: &mut HoldingAccount,
    position: u64,
) -> (r: Result<(), LifecycleError>)
    ensures
        r is Ok <==> thaw_ok(
            *position_mint,
            *old(position_token_account),
            position_mint_address,
            position,
        ),
        r is Ok ==> (*old(position_token_account) matches HoldingAccount::Open(h) && *final(position_token_account) == (HoldingAccount::Open(HoldingState { frozen: false, ..h }))),
        r is Err ==> *final(position_token_account) == *old(position_token_account) && r == Err::<
            (),
            LifecycleError,
        >(LifecycleError::ExternalLedgerRejected),
{
    thaw_account(position_mint, position_token_account, position_mint_address, position)
}

/// When transferring the position token succeeds: the ledger's conditions for
/// a decimal-checked transfer of one unit authorized by the holder — in
/// particular, both accounts thawed and the source owned by the signer. The
/// stated decimals are read from the mint, so they match by construction.
pub open spec fn position_transfer_ok(
    position_mint: MintAccount,
    position_token_account: HoldingAccount,
    destination_token_account: HoldingAccount,
    position_mint_address: u64,
    authority: u64,
) -> bool {
    &&& position_mint matches MintAccount::Initialized(m)
    &&& crate::ledger::transfer_checked_ok(
        position_mint,
        position_token_account,
        destination_token_account,
        position_mint_address,
        authority,
        1,
        m.decimals,
    )
}

/// Moves the single unit from the holder's account to a destination holding
/// account, authorized by the current holder — not by the position's derived
/// authority. Fails while the source or destination is frozen.
pub fn transfer_user_position_token_2022(
    authority: u64,
    position_mint_address: u64,
    position_mint: &MintAccount,
    position_token_account: &mut HoldingAccount,
    destination_token_account: &mut HoldingAccount,
) -> (r: Result<(), LifecycleError>)
    ensures
        r is Ok <==> position_transfer_ok(
            *position_mint,
            *old(position_token_account),
            *old(destination_token_account),
            position_mint_address,
            authority,
        ),
        r is Ok ==> (*old(position_token_account) matches HoldingAccount::Open(s) && *old(
            destination_token_account,
        ) matches HoldingAccount::Open(d) && *final(position_token_account)
            == (HoldingAccount::Open(HoldingState { amount: (s.amount - 1) as u64, ..s }))
            && *final(destination_token_account) == (HoldingAccount::Open(
            HoldingState { amount: (d.amount + 1) as u64, ..d },
        ))),
        r is Err ==> *final(position_token_account) == *old(position_token_account) && *final(destination_token_account) == *old(destination_token_account) && r == Err::<(), LifecycleError>(
            LifecycleError::ExternalLedgerRejected,
        ),
{
    let decimals = match position_mint {
        MintAccount::Initialized(m) => m.decimals,
        _ => {
            return Err(LifecycleError::ExternalLedgerRejected);
        },
    };
    transfer_checked(
        position_mint,
        position_token_account,
        destination_token_account,
        position_mint_address,
        authority,
        1,
        decimals,
    )
}

/// When teardown succeeds: the mint is live with supply exactly one and the
/// position's derived authority as close authority, and the holder's account
/// is an open, thawed account of this mint, owned by the signing holder and
/// holding exactly the one unit.
pub open spec fn teardown_ok(
    position_mint: MintAccount,
    position_token_account: HoldingAccount,
    position_mint_address: u64,
    token_authority: u64,
    position: u64,
) -> bool {
    &&& position_mint matches MintAccount::Initialized(m)
    &&& m.supply == 1
    &&& m.extensions.close_authority == Some(Authority::Controlled(position))
    &&& position_token_account matches HoldingAccount::Open(h)
    &&& h.mint == position_mint_address
    &&& h.owner == token_authority
    &&& h.amount == 1
    &&& !h.frozen
}

/// Tears the position token down, in the only order the ledger admits: burn
/// the single unit from the holder's account, close the now-empty holding
/// account, then close the mint itself, the last step signed by the
/// position's derived close authority. The freed balances of both accounts
/// go to the receiver. The conditions of all three steps are checked before
/// anything is touched, so a failed teardown leaves every account unchanged.
pub fn burn_and_close_user_position_token_2022(
    token_authority: u64,
    receiver_lamports: &mut u64,
    position_mint_address: u64,
    position_mint: &mut MintAccount,
    position_token_account: &mut HoldingAccount,
    position: u64,
) -> (r: Result<(), LifecycleError>)
    requires
        *old(position_mint) matches MintAccount::Initialized(m) ==> (*old(position_token_account)
            matches HoldingAccount::Open(h) ==> *old(receiver_lamports) + m.lamports + h.lamports
            <= u64::MAX),
    ensures
        r is Ok <==> teardown_ok(
            *old(position_mint),
            *old(position_token_account),
            position_mint_address,
            token_authority,
            position,
        ),
        r is Ok ==> (*old(position_mint) matches MintAccount::Initialized(m) && *old(
            position_token_account,
        ) matches HoldingAccount::Open(h) && *final(position_mint) == MintAccount::Closed
            && *final(position_token_account) == HoldingAccount::Closed && *final(receiver_lamports) == *old(receiver_lamports) + m.lamports + h.lamports),
        r is Err ==> *final(position_mint) == *old(position_mint) && *final(position_token_account) == *old(position_token_account) && *final(receiver_lamports) == *old(receiver_lamports)
            && r == Err::<(), LifecycleError>(LifecycleError::ExternalLedgerRejected),
{
    let (m, h) = match (&*position_mint, &*position_token_account) {
        (MintAccount::Initialized(m), HoldingAccount::Open(h)) => (*m, *h),
        _ => {
            return Err(LifecycleError::ExternalLedgerRejected);
        },
    };
    let close_authorized = match m.extensions.close_authority {
        Some(Authority::Controlled(k)) => k == position,
        _ => false,
    };
    if !(m.supply == 1 && close_authorized && h.mint == position_mint_address && h.owner
        == token_authority && h.amount == 1 && !h.frozen) {
        return Err(LifecycleError::ExternalLedgerRejected);
    }
    match burn_checked(
        position_mint,
        position_token_account,
        position_mint_address,
        token_authority,
        1,
        m.decimals,
    ) {
        Ok(()) => {},
        Err(e) => {
            return Err(e);
        },
    }
    match close_holding_account(position_token_account, receiver_lamports, token_authority) {
        Ok(()) => {},
        Err(e) => {
            return Err(e);
        },
    }
    close_mint_account(position_mint, receiver_lamports, position)
}

/// Closes an empty, thawed holding account, authorized by its owner; the
/// freed balance goes to the receiver.
pub fn close_empty_token_account_2022(
    token_authority: u64,
    token_account: &mut HoldingAccount,
    receiver_lamports: &mut u64,
) -> (r: Result<(), LifecycleError>)
    requires
        *old(token_account) matches HoldingAccount::Open(h) ==> *old(receiver_lamports)
            + h.lamports <= u64::MAX,
    ensures
        r is Ok <==> close_holding_ok(*old(token_account), token_authority),
        r is Ok ==> (*old(token_account) matches HoldingAccount::Open(h) && *final(token_account)
            == HoldingAccount::Closed && *final(receiver_lamports) == *old(receiver_lamports)
            + h.lamports),
        r is Err ==> *final(token_account) == *old(token_account) && *final(receiver_lamports)
            == *old(receiver_lamports) && r == Err::<(), LifecycleError>(
            LifecycleError::ExternalLedgerRejected,
        ),
{
    close_holding_account(token_account, receiver_lamports, token_authority)
}

/// Once the mint authority is `Nobody` — as delivery leaves it — no mint-to
/// invocation can succeed, whoever signs, whatever the destination and
/// amount: the supply is fixed forever.
pub proof fn sealed_mint_rejects_minting(
    position_mint: MintAccount,
    dest: HoldingAccount,
    mint_address: u64,
    signer: u64,
    amount: u64,
)
    requires
        position_mint matches MintAccount::Initialized(m) && m.mint_authority is Nobody,
    ensures
        !mint_to_ok(position_mint, dest, mint_address, signer, amount),
{
}

/// Freezing the holder's account blocks any transfer out of it, whoever asks
/// and wherever to, until it is thawed.
pub proof fn freeze_blocks_transfer(
    position_mint: MintAccount,
    source: HoldingState,
    dest: HoldingAccount,
    mint_address: u64,
    position: u64,
    authority: u64,
)
    requires
        freeze_ok(position_mint, HoldingAccount::Open(source), mint_address, position),
    ensures
        !position_transfer_ok(
            position_mint,
            HoldingAccount::Open(HoldingState { frozen: true, ..source }),
            dest,
            mint_address,
            authority,
        ),
{
}

/// Thawing the holder's account restores transfer: once thawed, a transfer
/// of the single unit by the owner to an open, thawed destination of the
/// same mint succeeds.
pub proof fn thaw_enables_transfer(
    position_mint: MintAccount,
    source: HoldingState,
    dest: HoldingAccount,
    mint_address: u64,
    position: u64,
    authority: u64,
)
    requires
        thaw_ok(position_mint, HoldingAccount::Open(source), mint_address, position),
        source.owner == authority,
        1 <= source.amount,
        dest matches HoldingAccount::Open(d) && d.mint == mint_address && !d.frozen && d.amount + 1
            <= u64::MAX,
    ensures
        position_transfer_ok(
            position_mint,
            HoldingAccount::Open(HoldingState { frozen: false, ..source }),
            dest,
            mint_address,
            authority,
        ),
{
}

/// Freezing is not idempotent: after a successful freeze, freezing the same
/// account again is rejected.
pub proof fn double_freeze_rejected(
    position_mint: MintAccount,
    acct: HoldingState,
    mint_address: u64,
    position: u64,
)
    requires
        freeze_ok(position_mint, HoldingAccount::Open(acct), mint_address, position),
    ensures
        !freeze_ok(
            position_mint,
            HoldingAccount::Open(HoldingState { frozen: true, ..acct }),
            mint_address,
            position,
        ),
{
}

/// Thawing is not idempotent: after a successful thaw, thawing the same
/// account again is rejected.
pub proof fn double_thaw_rejected(
    position_mint: MintAccount,
    acct: HoldingState,
    mint_address: u64,
    position: u64,
)
    requires
        thaw_ok(position_mint, HoldingAccount::Open(acct), mint_address, position),
    ensures
        !thaw_ok(
            position_mint,
            HoldingAccount::Open(HoldingState { frozen: false, ..acct }),
            mint_address,
            position,
        ),
{
}

/// Teardown is reachable only from the delivered, thawed state: whenever its
/// conditions hold, the supply is exactly one and the holder's account is
/// not frozen.
pub proof fn teardown_only_when_delivered_and_thawed(
    position_mint: MintAccount,
    position_token_account: HoldingAccount,
    position_mint_address: u64,
    token_authority: u64,
    position: u64,
)
    requires
        teardown_ok(
            position_mint,
            position_token_account,
            position_mint_address,
            token_authority,
            position,
        ),
    ensures
        position_mint matches MintAccount::Initialized(m) && m.supply == 1,
        position_token_account matches HoldingAccount::Open(h) && !h.frozen,
{
}

/// Teardown cannot run twice: from the closed accounts a completed teardown
/// leaves behind, its conditions never hold again, for any signer.
pub proof fn teardown_not_repeatable(
    position_mint_address: u64,
    token_authority: u64,
    position: u64,
)
    ensures
        !teardown_ok(
            MintAccount::Closed,
            HoldingAccount::Closed,
            position_mint_address,
            token_authority,
            position,
        ),
{
}

} // verus!
