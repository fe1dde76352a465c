//! Model of the external token ledger, as far as the position-token lifecycle
//! relies on it.
//!
//! The ledger itself is an external collaborator: every operation here states
//! the documented behaviour of the corresponding ledger instruction on the
//! accounts it touches — when it succeeds, what it changes, and that a failed
//! invocation changes nothing. The lifecycle engine composes these operations
//! and is verified against them.
//!
//! Accounts and principals are identified by plain addresses (`u64` values in
//! the model). A mint account moves through the stages
//! `Unallocated → Allocated → Initialized → Closed`; extensions are written
//! while the account is `Allocated` and are immutable once the mint is
//! initialized. The model covers mints that carry at least one extension (the
//! lifecycle engine always attaches the close-authority extension), so an
//! allocated account is finalized only when its space exactly fits the
//! extensions that were initialized.

use vstd::prelude::*;

use crate::LifecycleError;

verus! {

/// An authority over a mint or holding account. The transition
/// `Controlled(_) → Nobody` (revocation) is one-way: no ledger operation of
/// this model reinstates a revoked authority.
#[derive(Clone, Copy, Debug, PartialEq, Eq, Structural)]
pub enum Authority {
    /// No principal holds the authority; the guarded operation is permanently
    /// disabled.
    Nobody,
    /// The named principal alone may sign for the guarded operation.
    Controlled(u64),
}

/// The metadata-pointer extension of a mint: where descriptive metadata for
/// the token lives, and who may repoint it.
#[derive(Clone, Copy, Debug)]
pub struct MetadataPointer {
    /// Who may change the pointer; `Nobody` makes the pointer immutable.
    pub authority: Authority,
    /// The account that holds the metadata, if any. A self-describing mint
    /// points at its own address.
    pub metadata_address: Option<u64>,
}

/// The extension set of a mint account. A field is `Some` exactly when that
/// extension has been initialized; the set cannot grow once the mint is
/// initialized.
#[derive(Clone, Copy, Debug)]
pub struct MintExtensions {
    /// The close-authority extension: who may close the mint account.
    pub close_authority: Option<Authority>,
    /// The metadata-pointer extension.
    pub metadata_pointer: Option<MetadataPointer>,
}

/// A mint account that has been allocated but whose base mint is not yet
/// initialized: the stage in which extensions are written.
#[derive(Clone, Copy, Debug)]
pub struct AllocatedMint {
    /// The balance that funded the allocation.
    pub lamports: u64,
    /// The allocated size in bytes.
    pub space: u64,
    /// The extensions initialized so far.
    pub extensions: MintExtensions,
}

/// An initialized mint.
#[derive(Clone, Copy, Debug)]
pub struct MintState {
    /// The balance held by the mint account.
    pub lamports: u64,
    /// Total number of units in existence.
    pub supply: u64,
    /// Number of decimal places of the token.
    pub decimals: u8,
    /// Who may mint further units.
    pub mint_authority: Authority,
    /// Who may freeze and thaw holding accounts of this mint.
    pub freeze_authority: Authority,
    /// The extension set fixed at initialization.
    pub extensions: MintExtensions,
}

/// A mint account of the ledger, through its lifecycle stages.
#[derive(Clone, Copy, Debug)]
pub enum MintAccount {
    /// The account does not exist yet.
    Unallocated,
    /// Allocated and funded; extensions may be initialized.
    Allocated(AllocatedMint),
    /// The mint is initialized and live.
    Initialized(MintState),
    /// The account was closed; it no longer exists.
    Closed,
}

/// A live holding account: custodies units of one mint for one owner.
#[derive(Clone, Copy, Debug)]
pub struct HoldingState {
    /// The balance held by the account itself.
    pub lamports: u64,
    /// The owner principal; only it may transfer, burn or close.
    pub owner: u64,
    /// The address of the mint whose units the account holds.
    pub mint: u64,
    /// The number of units held.
    pub amount: u64,
    /// Whether the account is transfer-blocked.
    pub frozen: bool,
}

/// A holding account of the ledger, through its lifecycle stages.
#[derive(Clone, Copy, Debug)]
pub enum HoldingAccount {
    /// The account does not exist yet.
    Unallocated,
    /// The account is live.
    Open(HoldingState),
    /// The account was closed; it no longer exists.
    Closed,
}

/// Size in bytes of a mint account carrying at least one extension, before
/// any extension entry: the base mint record padded to the base account
/// length, plus the account-type tag.
pub const MINT_BASE_SPACE: u64 = 166;

/// Size in bytes of the close-authority extension entry: a four-byte
/// type-and-length header plus one stored address.
pub const CLOSE_AUTHORITY_TLV_SPACE: u64 = 36;

/// Size in bytes of the metadata-pointer extension entry: a four-byte
/// type-and-length header plus two stored addresses.
pub const METADATA_POINTER_TLV_SPACE: u64 = 68;

/// Size in bytes of a holding account: the base record, the account-type tag
/// and the immutable-owner extension entry.
pub const HOLDING_ACCOUNT_SPACE: u64 = 170;

/// The exact account size an extended mint with the given extension set
/// occupies; the ledger initializes such a mint only in an account of
/// exactly this size.
pub open spec fn extensions_space(e: MintExtensions) -> int {
    MINT_BASE_SPACE + (if e.close_authority is Some {
        CLOSE_AUTHORITY_TLV_SPACE as int
    } else {
        0
    }) + (if e.metadata_pointer is Some {
        METADATA_POINTER_TLV_SPACE as int
    } else {
        0
    })
}

/// The empty extension set of a freshly allocated account.
pub open spec fn no_extensions() -> MintExtensions {
    MintExtensions { close_authority: None, metadata_pointer: None }
}

/// When the system ledger accepts a create-account invocation for a mint:
/// the account must not exist yet and the funder must carry the funding.
pub open spec fn allocate_mint_ok(mint: MintAccount, funder_lamports: u64, lamports: u64) -> bool {
    &&& mint is Unallocated
    &&& lamports <= funder_lamports
}

/// Models the system ledger's create-account invocation: allocates the mint
/// account with `space` bytes, moving `lamports` from the funder into it.
pub fn allocate_mint_account(
    mint: &mut MintAccount,
    funder_lamports: &mut u64,
    lamports: u64,
    space: u64,
) -> (r: Result<(), LifecycleError>)
    ensures
        r is Ok <==> allocate_mint_ok(*old(mint), *old(funder_lamports), lamports),
        r is Ok ==> *final(mint) == (MintAccount::Allocated(AllocatedMint {
            lamports,
            space,
            extensions: no_extensions(),
        })) && *final(funder_lamports) == *old(funder_lamports) - lamports,
        r is Err ==> *final(mint) == *old(mint) && *final(funder_lamports) == *old(
            funder_lamports,
        ),
        r is Err ==> r == Err::<(), LifecycleError>(
            if *old(mint) is Unallocated {
                LifecycleError::AllocationError
            } else {
                LifecycleError::ExternalLedgerRejected
            },
        ),
{
    match mint {
        MintAccount::Unallocated => {
            if lamports <= *funder_lamports {
                *funder_lamports = *funder_lamports - lamports;
                *mint = MintAccount::Allocated(AllocatedMint {
                    lamports,
                    space,
                    extensions: MintExtensions { close_authority: None, metadata_pointer: None },
                });
                Ok(())
            } else {
                Err(LifecycleError::AllocationError)
            }
        },
        _ => Err(LifecycleError::ExternalLedgerRejected),
    }
}

/// When the ledger accepts initializing the close-authority extension: the
/// account is allocated, the base mint is not yet initialized, the extension
/// is not yet present, and the allocation has room for its entry.
pub open spec fn init_close_authority_ok(mint: MintAccount) -> bool {
    &&& mint matches MintAccount::Allocated(a)
    &&& a.extensions.close_authority is None
    &&& extensions_space(a.extensions) + CLOSE_AUTHORITY_TLV_SPACE <= a.space
}

/// Models the ledger's initialize-mint-close-authority instruction: records
/// who may later close the mint account. Must run before the mint itself is
/// initialized.
pub fn init_close_authority(mint: &mut MintAccount, close_authority: Authority) -> (r: Result<
    (),
    LifecycleError,
>)
    ensures
        r is Ok <==> init_close_authority_ok(*old(mint)),
        r is Ok ==> (*old(mint) matches MintAccount::Allocated(a) && *final(mint)
            == (MintAccount::Allocated(AllocatedMint {
            extensions: MintExtensions {
                close_authority: Some(close_authority),
                ..a.extensions
            },
            ..a
        }))),
        r is Err ==> *final(mint) == *old(mint) && r == Err::<(), LifecycleError>(
            LifecycleError::ExternalLedgerRejected,
        ),
{
    match mint {
        MintAccount::Allocated(a) => {
            match a.extensions.close_authority {
                None => {
                    let used = if a.extensions.metadata_pointer.is_some() {
                        MINT_BASE_SPACE + METADATA_POINTER_TLV_SPACE
                    } else {
                        MINT_BASE_SPACE
                    };
                    if used + CLOSE_AUTHORITY_TLV_SPACE <= a.space {
                        a.extensions.close_authority = Some(close_authority);
                        Ok(())
                    } else {
                        Err(LifecycleError::ExternalLedgerRejected)
                    }
                },
                Some(_) => Err(LifecycleError::ExternalLedgerRejected),
            }
        },
        _ => Err(LifecycleError::ExternalLedgerRejected),
    }
}

/// When the ledger accepts initializing the metadata-pointer extension.
pub open spec fn init_metadata_pointer_ok(mint: MintAccount) -> bool {
    &&& mint matches MintAccount::Allocated(a)
    &&& a.extensions.metadata_pointer is None
    &&& extensions_space(a.extensions) + METADATA_POINTER_TLV_SPACE <= a.space
}

/// Models the ledger's initialize-metadata-pointer instruction: records where
/// the token's descriptive metadata lives. Must run before the mint itself is
/// initialized.
pub fn init_metadata_pointer(
    mint: &mut MintAccount,
    authority: Authority,
    metadata_address: Option<u64>,
) -> (r: Result<(), LifecycleError>)
    ensures
        r is Ok <==> init_metadata_pointer_ok(*old(mint)),
        r is Ok ==> (*old(mint) matches MintAccount::Allocated(a) && *final(mint)
            == (MintAccount::Allocated(AllocatedMint {
            extensions: MintExtensions {
                metadata_pointer: Some(MetadataPointer { authority, metadata_address }),
                ..a.extensions
            },
            ..a
        }))),
        r is Err ==> *final(mint) == *old(mint) && r == Err::<(), LifecycleError>(
            LifecycleError::ExternalLedgerRejected,
        ),
{
    match mint {
        MintAccount::Allocated(a) => {
            match a.extensions.metadata_pointer {
                None => {
                    let used = if a.extensions.close_authority.is_some() {
                        MINT_BASE_SPACE + CLOSE_AUTHORITY_TLV_SPACE
                    } else {
                        MINT_BASE_SPACE
                    };
                    if used + METADATA_POINTER_TLV_SPACE <= a.space {
                        a.extensions.metadata_pointer = Some(
                            MetadataPointer { authority, metadata_address },
                        );
                        Ok(())
                    } else {
                        Err(LifecycleError::ExternalLedgerRejected)
                    }
                },
                Some(_) => Err(LifecycleError::ExternalLedgerRejected),
            }
        },
        _ => Err(LifecycleError::ExternalLedgerRejected),
    }
}

/// When the ledger accepts initializing the base mint: the account is
/// allocated and every allocated byte is accounted for by the extensions
/// already initialized — extensions can no longer be added afterwards.
pub open spec fn initialize_mint_ok(mint: MintAccount) -> bool {
    &&& mint matches MintAccount::Allocated(a)
    &&& a.space == extensions_space(a.extensions)
}

/// Models the ledger's initialize-mint instruction: finalizes the mint with
/// zero supply and the given decimals and authorities. The extension set is
/// immutable from here on.
pub fn initialize_mint(
    mint: &mut MintAccount,
    decimals: u8,
    mint_authority: u64,
    freeze_authority: Option<u64>,
) -> (r: Result<(), LifecycleError>)
    ensures
        r is Ok <==> initialize_mint_ok(*old(mint)),
        r is Ok ==> (*old(mint) matches MintAccount::Allocated(a) && *final(mint)
            == (MintAccount::Initialized(MintState {
            lamports: a.lamports,
            supply: 0,
            decimals,
            mint_authority: Authority::Controlled(mint_authority),
            freeze_authority: match freeze_authority {
                Some(k) => Authority::Controlled(k),
                None => Authority::Nobody,
            },
            extensions: a.extensions,
        }))),
        r is Err ==> *final(mint) == *old(mint) && r == Err::<(), LifecycleError>(
            LifecycleError::ExternalLedgerRejected,
        ),
{
    match mint {
        MintAccount::Allocated(a) => {
            let mut used = MINT_BASE_SPACE;
            if a.extensions.close_authority.is_some() {
                used = used + CLOSE_AUTHORITY_TLV_SPACE;
            }
            if a.extensions.metadata_pointer.is_some() {
                used = used + METADATA_POINTER_TLV_SPACE;
            }
            if a.space == used {
                let fa = match freeze_authority {
                    Some(k) => Authority::Controlled(k),
                    None => Authority::Nobody,
                };
                *mint = MintAccount::Initialized(MintState {
                    lamports: a.lamports,
                    supply: 0,
                    decimals,
                    mint_authority: Authority::Controlled(mint_authority),
                    freeze_authority: fa,
                    extensions: a.extensions,
                });
                Ok(())
            } else {
                Err(LifecycleError::ExternalLedgerRejected)
            }
        },
        _ => Err(LifecycleError::ExternalLedgerRejected),
    }
}

/// When the ledger accepts creating a holding account: the account must not
/// exist yet, the mint must be live, and the funder must cover the
/// rent-exempt balance for the fixed holding-account size.
pub open spec fn create_holding_ok(
    acct: HoldingAccount,
    mint: MintAccount,
    funder_lamports: u64,
    lamports: u64,
) -> bool {
    &&& acct is Unallocated
    &&& mint is Initialized
    &&& lamports <= funder_lamports
}

/// Models the associated-token invocation that creates a holding account for
/// `owner` on the mint at `mint_address`, funded with `lamports`. A fresh
/// account holds nothing and is thawed.
pub fn create_holding_account(
    acct: &mut HoldingAccount,
    funder_lamports: &mut u64,
    mint: &MintAccount,
    mint_address: u64,
    owner: u64,
    lamports: u64,
) -> (r: Result<(), LifecycleError>)
    ensures
        r is Ok <==> create_holding_ok(*old(acct), *mint, *old(funder_lamports), lamports),
        r is Ok ==> *final(acct) == (HoldingAccount::Open(HoldingState {
            lamports,
            owner,
            mint: mint_address,
            amount: 0,
            frozen: false,
        })) && *final(funder_lamports) == *old(funder_lamports) - lamports,
        r is Err ==> *final(acct) == *old(acct) && *final(funder_lamports) == *old(
            funder_lamports,
        ),
        r is Err ==> r == Err::<(), LifecycleError>(
            if *old(acct) is Unallocated && *mint is Initialized {
                LifecycleError::AllocationError
            } else {
                LifecycleError::ExternalLedgerRejected
            },
        ),
{
    match acct {
        HoldingAccount::Unallocated => {
            match mint {
                MintAccount::Initialized(_) => {
                    if lamports <= *funder_lamports {
                        *funder_lamports = *funder_lamports - lamports;
                        *acct = HoldingAccount::Open(HoldingState {
                            lamports,
                            owner,
                            mint: mint_address,
                            amount: 0,
                            frozen: false,
                        });
                        Ok(())
                    } else {
                        Err(LifecycleError::AllocationError)
                    }
                },
                _ => Err(LifecycleError::ExternalLedgerRejected),
            }
        },
        _ => Err(LifecycleError::ExternalLedgerRejected),
    }
}

/// When the ledger accepts a mint-to invocation: the mint is live, the signer
/// holds the mint authority, the destination is an open, thawed account of
/// this mint, and neither the supply nor the destination balance overflows.
pub open spec fn mint_to_ok(
    mint: MintAccount,
    dest: HoldingAccount,
    mint_address: u64,
    signer: u64,
    amount: u64,
) -> bool {
    &&& mint matches MintAccount::Initialized(m)
    &&& m.mint_authority == Authority::Controlled(signer)
    &&& m.supply + amount <= u64::MAX
    &&& dest matches HoldingAccount::Open(h)
    &&& h.mint == mint_address
    &&& !h.frozen
    &&& h.amount + amount <= u64::MAX
}

/// Models the ledger's mint-to instruction: creates `amount` new units in the
/// destination account, signed by the mint authority.
pub fn mint_to(
    mint: &mut MintAccount,
    dest: &mut HoldingAccount,
    mint_address: u64,
    signer: u64,
    amount: u64,
) -> (r: Result<(), LifecycleError>)
    ensures
        r is Ok <==> mint_to_ok(*old(mint), *old(dest), mint_address, signer, amount),
        r is Ok ==> (*old(mint) matches MintAccount::Initialized(m) && *old(dest)
            matches HoldingAccount::Open(h) && *final(mint) == (MintAccount::Initialized(
            MintState { supply: (m.supply + amount) as u64, ..m },
        )) && *final(dest) == (HoldingAccount::Open(
            HoldingState { amount: (h.amount + amount) as u64, ..h },
        ))),
        r is Err ==> *final(mint) == *old(mint) && *final(dest) == *old(dest) && r == Err::<
            (),
            LifecycleError,
        >(LifecycleError::ExternalLedgerRejected),
{
    match (&*mint, &*dest) {
        (MintAccount::Initialized(m), HoldingAccount::Open(h)) => {
            let authorized = match m.mint_authority {
                Authority::Controlled(k) => k == signer,
                Authority::Nobody => false,
            };
            if authorized && h.mint == mint_address && !h.frozen {
                match (m.supply.checked_add(amount), h.amount.checked_add(amount)) {
                    (Some(new_supply), Some(new_amount)) => {
                        *mint = MintAccount::Initialized(MintState { supply: new_supply, ..*m });
                        *dest = HoldingAccount::Open(HoldingState { amount: new_amount, ..*h });
                        Ok(())
                    },
                    _ => Err(LifecycleError::ExternalLedgerRejected),
                }
            } else {
                Err(LifecycleError::ExternalLedgerRejected)
            }
        },
        _ => Err(LifecycleError::ExternalLedgerRejected),
    }
}

/// When the ledger accepts revoking the mint authority: the mint is live and
/// the signer holds the authority.
pub open spec fn revoke_mint_authority_ok(mint: MintAccount, signer: u64) -> bool {
    &&& mint matches MintAccount::Initialized(m)
    &&& m.mint_authority == Authority::Controlled(signer)
}

/// Models the ledger's set-authority instruction in its revoking form: the
/// mint authority becomes `Nobody`. No ledger operation reverses this; the
/// supply is fixed from here on.
pub fn revoke_mint_authority(mint: &mut MintAccount, signer: u64) -> (r: Result<
    (),
    LifecycleError,
>)
    ensures
        r is Ok <==> revoke_mint_authority_ok(*old(mint), signer),
        r is Ok ==> (*old(mint) matches MintAccount::Initialized(m) && *final(mint)
            == (MintAccount::Initialized(MintState { mint_authority: Authority::Nobody, ..m }))),
        r is Err ==> *final(mint) == *old(mint) && r == Err::<(), LifecycleError>(
            LifecycleError::ExternalLedgerRejected,
        ),
{
    match mint {
        MintAccount::Initialized(m) => {
            let authorized = match m.mint_authority {
                Authority::Controlled(k) => k == signer,
                Authority::Nobody => false,
            };
            if authorized {
                m.mint_authority = Authority::Nobody;
                Ok(())
            } else {
                Err(LifecycleError::ExternalLedgerRejected)
            }
        },
        _ => Err(LifecycleError::ExternalLedgerRejected),
    }
}

/// When the ledger accepts freezing a holding account: the mint is live, the
/// signer holds the freeze authority, the account is an open account of this
/// mint, and it is not already frozen — freezing is not idempotent.
pub open spec fn freeze_ok(
    mint: MintAccount,
    acct: HoldingAccount,
    mint_address: u64,
    signer: u64,
) -> bool {
    &&& mint matches MintAccount::Initialized(m)
    &&& m.freeze_authority == Authority::Controlled(signer)
    &&& acct matches HoldingAccount::Open(h)
    &&& h.mint == mint_address
    &&& !h.frozen
}

/// Models the ledger's freeze-account instruction: blocks transfers, burns
/// and closure of the account until it is thawed.
pub fn freeze_account(
    mint: &MintAccount,
    acct: &mut HoldingAccount,
    mint_address: u64,
    signer: u64,
) -> (r: Result<(), LifecycleError>)
    ensures
        r is Ok <==> freeze_ok(*mint, *old(acct), mint_address, signer),
        r is Ok ==> (*old(acct) matches HoldingAccount::Open(h) && *final(acct)
            == (HoldingAccount::Open(HoldingState { frozen: true, ..h }))),
        r is Err ==> *final(acct) == *old(acct) && r == Err::<(), LifecycleError>(
            LifecycleError::ExternalLedgerRejected,
        ),
{
    match (mint, &*acct) {
        (MintAccount::Initialized(m), HoldingAccount::Open(h)) => {
            let authorized = match m.freeze_authority {
                Authority::Controlled(k) => k == signer,
                Authority::Nobody => false,
            };
            if authorized && h.mint == mint_address && !h.frozen {
                *acct = HoldingAccount::Open(HoldingState { frozen: true, ..*h });
                Ok(())
            } else {
                Err(LifecycleError::ExternalLedgerRejected)
            }
        },
        _ => Err(LifecycleError::ExternalLedgerRejected),
    }
}

/// When the ledger accepts thawing a holding account: as for freezing, but
/// the account must currently be frozen — thawing is not idempotent either.
pub open spec fn thaw_ok(
    mint: MintAccount,
    acct: HoldingAccount,
    mint_address: u64,
    signer: u64,
) -> bool {
    &&& mint matches MintAccount::Initialized(m)
    &&& m.freeze_authority == Authority::Controlled(signer)
    &&& acct matches HoldingAccount::Open(h)
    &&& h.mint == mint_address
    &&& h.frozen
}

/// Models the ledger's thaw-account instruction: lifts the transfer block.
pub fn thaw_account(
    mint: &MintAccount,
    acct: &mut HoldingAccount,
    mint_address: u64,
    signer: u64,
) -> (r: Result<(), LifecycleError>)
    ensures
        r is Ok <==> thaw_ok(*mint, *old(acct), mint_address, signer),
        r is Ok ==> (*old(acct) matches HoldingAccount::Open(h) && *final(acct)
            == (HoldingAccount::Open(HoldingState { frozen: false, ..h }))),
        r is Err ==> *final(acct) == *old(acct) && r == Err::<(), LifecycleError>(
            LifecycleError::ExternalLedgerRejected,
        ),
{
    match (mint, &*acct) {
        (MintAccount::Initialized(m), HoldingAccount::Open(h)) => {
            let authorized = match m.freeze_authority {
                Authority::Controlled(k) => k == signer,
                Authority::Nobody => false,
            };
            if authorized && h.mint == mint_address && h.frozen {
                *acct = HoldingAccount::Open(HoldingState { frozen: false, ..*h });
                Ok(())
            } else {
                Err(LifecycleError::ExternalLedgerRejected)
            }
        },
        _ => Err(LifecycleError::ExternalLedgerRejected),
    }
}

/// When the ledger accepts a decimal-checked transfer: the mint is live and
/// the stated decimals match it, both accounts are open, thawed accounts of
/// this mint, the signer owns the source, the source covers the amount and
/// the destination balance does not overflow.
pub open spec fn transfer_checked_ok(
    mint: MintAccount,
    source: HoldingAccount,
    dest: HoldingAccount,
    mint_address: u64,
    signer: u64,
    amount: u64,
    decimals: u8,
) -> bool {
    &&& mint matches MintAccount::Initialized(m)
    &&& m.decimals == decimals
    &&& source matches HoldingAccount::Open(s)
    &&& s.mint == mint_address
    &&& s.owner == signer
    &&& !s.frozen
    &&& amount <= s.amount
    &&& dest matches HoldingAccount::Open(d)
    &&& d.mint == mint_address
    &&& !d.frozen
    &&& d.amount + amount <= u64::MAX
}

/// Models the ledger's transfer-checked instruction: moves `amount` units
/// from source to destination, authorized by the source's owner.
pub fn transfer_checked(
    mint: &MintAccount,
    source: &mut HoldingAccount,
    dest: &mut HoldingAccount,
    mint_address: u64,
    signer: u64,
    amount: u64,
    decimals: u8,
) -> (r: Result<(), LifecycleError>)
    ensures
        r is Ok <==> transfer_checked_ok(
            *mint,
            *old(source),
            *old(dest),
            mint_address,
            signer,
            amount,
            decimals,
        ),
        r is Ok ==> (*old(source) matches HoldingAccount::Open(s) && *old(dest)
            matches HoldingAccount::Open(d) && *final(source) == (HoldingAccount::Open(
            HoldingState { amount: (s.amount - amount) as u64, ..s },
        )) && *final(dest) == (HoldingAccount::Open(
            HoldingState { amount: (d.amount + amount) as u64, ..d },
        ))),
        r is Err ==> *final(source) == *old(source) && *final(dest) == *old(dest) && r == Err::<
            (),
            LifecycleError,
        >(LifecycleError::ExternalLedgerRejected),
{
    match (mint, &*source, &*dest) {
        (MintAccount::Initialized(m), HoldingAccount::Open(s), HoldingAccount::Open(d)) => {
            if m.decimals == decimals && s.mint == mint_address && s.owner == signer && !s.frozen
                && amount <= s.amount && d.mint == mint_address && !d.frozen {
                match d.amount.checked_add(amount) {
                    Some(new_dest_amount) => {
                        let new_source_amount = s.amount - amount;
                        *source = HoldingAccount::Open(
                            HoldingState { amount: new_source_amount, ..*s },
                        );
                        *dest = HoldingAccount::Open(HoldingState { amount: new_dest_amount, ..*d });
                        Ok(())
                    },
                    None => Err(LifecycleError::ExternalLedgerRejected),
                }
            } else {
                Err(LifecycleError::ExternalLedgerRejected)
            }
        },
        _ => Err(LifecycleError::ExternalLedgerRejected),
    }
}

/// When the ledger accepts a decimal-checked burn: the mint is live and the
/// stated decimals match it, the account is an open, thawed account of this
/// mint owned by the signer, and both the account balance and the supply
/// cover the amount.
pub open spec fn burn_checked_ok(
    mint: MintAccount,
    acct: HoldingAccount,
    mint_address: u64,
    signer: u64,
    amount: u64,
    decimals: u8,
) -> bool {
    &&& mint matches MintAccount::Initialized(m)
    &&& m.decimals == decimals
    &&& amount <= m.supply
    &&& acct matches HoldingAccount::Open(h)
    &&& h.mint == mint_address
    &&& h.owner == signer
    &&& !h.frozen
    &&& amount <= h.amount
}

/// Models the ledger's burn-checked instruction: destroys `amount` units held
/// by the account, reducing the supply accordingly.
pub fn burn_checked(
    mint: &mut MintAccount,
    acct: &mut HoldingAccount,
    mint_address: u64,
    signer: u64,
    amount: u64,
    decimals: u8,
) -> (r: Result<(), LifecycleError>)
    ensures
        r is Ok <==> burn_checked_ok(
            *old(mint),
            *old(acct),
            mint_address,
            signer,
            amount,
            decimals,
        ),
        r is Ok ==> (*old(mint) matches MintAccount::Initialized(m) && *old(acct)
            matches HoldingAccount::Open(h) && *final(mint) == (MintAccount::Initialized(
            MintState { supply: (m.supply - amount) as u64, ..m },
        )) && *final(acct) == (HoldingAccount::Open(
            HoldingState { amount: (h.amount - amount) as u64, ..h },
        ))),
        r is Err ==> *final(mint) == *old(mint) && *final(acct) == *old(acct) && r == Err::<
            (),
            LifecycleError,
        >(LifecycleError::ExternalLedgerRejected),
{
    match (&*mint, &*acct) {
        (MintAccount::Initialized(m), HoldingAccount::Open(h)) => {
            if m.decimals == decimals && amount <= m.supply && h.mint == mint_address && h.owner
                == signer && !h.frozen && amount <= h.amount {
                *mint = MintAccount::Initialized(MintState { supply: m.supply - amount, ..*m });
                *acct = HoldingAccount::Open(HoldingState { amount: h.amount - amount, ..*h });
                Ok(())
            } else {
                Err(LifecycleError::ExternalLedgerRejected)
            }
        },
        _ => Err(LifecycleError::ExternalLedgerRejected),
    }
}

/// When the ledger accepts closing a holding account: the account is open,
/// empty and thawed, and the signer owns it.
pub open spec fn close_holding_ok(acct: HoldingAccount, signer: u64) -> bool {
    &&& acct matches HoldingAccount::Open(h)
    &&& h.owner == signer
    &&& h.amount == 0
    &&& !h.frozen
}

/// Models the ledger's close-account instruction on a holding account: the
/// account ceases to exist and its balance moves to the receiver.
pub fn close_holding_account(
    acct: &mut HoldingAccount,
    receiver_lamports: &mut u64,
    signer: u64,
) -> (r: Result<(), LifecycleError>)
    requires
        *old(acct) matches HoldingAccount::Open(h) ==> *old(receiver_lamports) + h.lamports
            <= u64::MAX,
    ensures
        r is Ok <==> close_holding_ok(*old(acct), signer),
        r is Ok ==> (*old(acct) matches HoldingAccount::Open(h) && *final(acct)
            == HoldingAccount::Closed && *final(receiver_lamports) == *old(receiver_lamports)
            + h.lamports),
        r is Err ==> *final(acct) == *old(acct) && *final(receiver_lamports) == *old(
            receiver_lamports,
        ) && r == Err::<(), LifecycleError>(LifecycleError::ExternalLedgerRejected),
{
    match &*acct {
        HoldingAccount::Open(h) => {
            if h.owner == signer && h.amount == 0 && !h.frozen {
                *receiver_lamports = *receiver_lamports + h.lamports;
                *acct = HoldingAccount::Closed;
                Ok(())
            } else {
                Err(LifecycleError::ExternalLedgerRejected)
            }
        },
        _ => Err(LifecycleError::ExternalLedgerRejected),
    }
}

/// When the ledger accepts closing a mint account: the mint is live, its
/// supply is zero, it carries the close-authority extension and the signer
/// holds that authority.
pub open spec fn close_mint_ok(mint: MintAccount, signer: u64) -> bool {
    &&& mint matches MintAccount::Initialized(m)
    &&& m.supply == 0
    &&& m.extensions.close_authority == Some(Authority::Controlled(signer))
}

/// Models the ledger's close-account instruction on a mint account: the mint
/// ceases to exist and its balance moves to the receiver. Only a mint whose
/// supply has gone back to zero can be closed.
pub fn close_mint_account(
    mint: &mut MintAccount,
    receiver_lamports: &mut u64,
    signer: u64,
) -> (r: Result<(), LifecycleError>)
    requires
        *old(mint) matches MintAccount::Initialized(m) ==> *old(receiver_lamports) + m.lamports
            <= u64::MAX,
    ensures
        r is Ok <==> close_mint_ok(*old(mint), signer),
        r is Ok ==> (*old(mint) matches MintAccount::Initialized(m) && *final(mint)
            == MintAccount::Closed && *final(receiver_lamports) == *old(receiver_lamports)
            + m.lamports),
        r is Err ==> *final(mint) == *old(mint) && *final(receiver_lamports) == *old(
            receiver_lamports,
        ) && r == Err::<(), LifecycleError>(LifecycleError::ExternalLedgerRejected),
{
    match &*mint {
        MintAccount::Initialized(m) => {
            let authorized = match m.extensions.close_authority {
                Some(Authority::Controlled(k)) => k == signer,
                _ => false,
            };
            if authorized && m.supply == 0 {
                *receiver_lamports = *receiver_lamports + m.lamports;
                *mint = MintAccount::Closed;
                Ok(())
            } else {
                Err(LifecycleError::ExternalLedgerRejected)
            }
        },
        _ => Err(LifecycleError::ExternalLedgerRejected),
    }
}

} // verus!
