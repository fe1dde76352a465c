use position_token::LifecycleError;
use position_token::ledger::{
    Authority, HoldingAccount, HoldingState, MintAccount, close_mint_account, initialize_mint,
    mint_to,
};
use position_token::rent::RentSchedule;
use position_token::token_2022::{
    burn_and_close_user_position_token_2022, close_empty_token_account_2022,
    freeze_user_position_token_2022, initialize_position_mint_2022,
    initialize_position_token_account_2022, mint_position_token_2022_and_remove_authority,
    transfer_user_position_token_2022, unfreeze_user_position_token_2022,
};

const POSITION: u64 = 11;
const MINT_ADDRESS: u64 = 22;
const OWNER_X: u64 = 33;
const OWNER_Y: u64 = 44;

fn rent() -> RentSchedule {
    RentSchedule { base_lamports: 1000, lamports_per_byte: 10 }
}

fn provisioned_mint(use_metadata: bool) -> MintAccount {
    let mut mint = MintAccount::Unallocated;
    let mut funder: u64 = 1_000_000;
    let r = initialize_position_mint_2022(
        MINT_ADDRESS,
        &mut mint,
        &mut funder,
        POSITION,
        &rent(),
        use_metadata,
    );
    assert_eq!(r, Ok(()));
    mint
}

fn delivered(owner: u64) -> (MintAccount, HoldingAccount) {
    let mut mint = provisioned_mint(true);
    let mut holding = HoldingAccount::Unallocated;
    let mut funder: u64 = 1_000_000;
    let r = initialize_position_token_account_2022(
        &mut holding,
        MINT_ADDRESS,
        &mint,
        &mut funder,
        owner,
        &rent(),
    );
    assert_eq!(r, Ok(()));
    let r = mint_position_token_2022_and_remove_authority(
        POSITION,
        MINT_ADDRESS,
        &mut mint,
        &mut holding,
    );
    assert_eq!(r, Ok(()));
    (mint, holding)
}

#[test]
fn provisioning_leaves_supply_zero_and_position_authorities() {
    let mint = provisioned_mint(false);
    match mint {
        MintAccount::Initialized(m) => {
            assert_eq!(m.supply, 0);
            assert_eq!(m.decimals, 0);
            assert_eq!(m.mint_authority, Authority::Controlled(POSITION));
            assert_eq!(m.freeze_authority, Authority::Controlled(POSITION));
            assert_eq!(m.extensions.close_authority, Some(Authority::Controlled(POSITION)));
            assert!(m.extensions.metadata_pointer.is_none());
            // space 202, so the schedule asks 1000 + 10 * 202
            assert_eq!(m.lamports, 3020);
        },
        _ => panic!("mint not initialized"),
    }
}

#[test]
fn provisioning_with_metadata_points_the_mint_at_itself() {
    let mint = provisioned_mint(true);
    match mint {
        MintAccount::Initialized(m) => {
            let pointer = m.extensions.metadata_pointer.expect("metadata pointer missing");
            assert!(matches!(pointer.authority, Authority::Nobody));
            assert_eq!(pointer.metadata_address, Some(MINT_ADDRESS));
            // space 270, so the schedule asks 1000 + 10 * 270
            assert_eq!(m.lamports, 3700);
        },
        _ => panic!("mint not initialized"),
    }
}

#[test]
fn provisioning_rejects_insufficient_funding() {
    let mut mint = MintAccount::Unallocated;
    let mut funder: u64 = 10;
    let r = initialize_position_mint_2022(
        MINT_ADDRESS,
        &mut mint,
        &mut funder,
        POSITION,
        &rent(),
        false,
    );
    assert_eq!(r, Err(LifecycleError::AllocationError));
    assert!(matches!(mint, MintAccount::Unallocated));
    assert_eq!(funder, 10);
}

#[test]
fn provisioning_rejects_an_existing_account() {
    let mut mint = provisioned_mint(false);
    let mut funder: u64 = 1_000_000;
    let r = initialize_position_mint_2022(
        MINT_ADDRESS,
        &mut mint,
        &mut funder,
        POSITION,
        &rent(),
        false,
    );
    assert_eq!(r, Err(LifecycleError::ExternalLedgerRejected));
}

#[test]
fn extension_setup_cannot_be_skipped_before_finalize() {
    // Allocate room for the metadata pointer but never initialize it: the
    // ledger rejects finalizing a mint whose space is not fully accounted for.
    let mut fresh = MintAccount::Unallocated;
    let mut funder: u64 = 1_000_000;
    let r = position_token::ledger::allocate_mint_account(&mut fresh, &mut funder, 3700, 270);
    assert_eq!(r, Ok(()));
    let r = position_token::ledger::init_close_authority(
        &mut fresh,
        Authority::Controlled(POSITION),
    );
    assert_eq!(r, Ok(()));
    let r = initialize_mint(&mut fresh, 0, POSITION, Some(POSITION));
    assert_eq!(r, Err(LifecycleError::ExternalLedgerRejected));
}

#[test]
fn extensions_cannot_be_added_after_initialization() {
    let mut mint = provisioned_mint(false);
    let r = position_token::ledger::init_metadata_pointer(
        &mut mint,
        Authority::Nobody,
        Some(MINT_ADDRESS),
    );
    assert_eq!(r, Err(LifecycleError::ExternalLedgerRejected));
}

#[test]
fn delivery_fixes_the_supply_at_one() {
    let (mint, holding) = delivered(OWNER_X);
    match mint {
        MintAccount::Initialized(m) => {
            assert_eq!(m.supply, 1);
            assert!(matches!(m.mint_authority, Authority::Nobody));
        },
        _ => panic!("mint not initialized"),
    }
    match holding {
        HoldingAccount::Open(h) => {
            assert_eq!(h.amount, 1);
            assert_eq!(h.owner, OWNER_X);
            assert!(!h.frozen);
        },
        _ => panic!("holding account not open"),
    }
}

#[test]
fn minting_after_delivery_is_rejected() {
    let (mut mint, mut holding) = delivered(OWNER_X);
    // a second delivery attempt
    let r = mint_position_token_2022_and_remove_authority(
        POSITION,
        MINT_ADDRESS,
        &mut mint,
        &mut holding,
    );
    assert_eq!(r, Err(LifecycleError::ExternalLedgerRejected));
    // a direct mint attempt by any signer, the former authority included
    let r = mint_to(&mut mint, &mut holding, MINT_ADDRESS, POSITION, 1);
    assert_eq!(r, Err(LifecycleError::ExternalLedgerRejected));
    match mint {
        MintAccount::Initialized(m) => assert_eq!(m.supply, 1),
        _ => panic!("mint not initialized"),
    }
}

fn open_destination(owner: u64) -> HoldingAccount {
    HoldingAccount::Open(HoldingState {
        lamports: 2700,
        owner,
        mint: MINT_ADDRESS,
        amount: 0,
        frozen: false,
    })
}

#[test]
fn freeze_blocks_transfer_and_thaw_restores_it() {
    let (mint, mut holding) = delivered(OWNER_X);
    let mut dest = open_destination(OWNER_Y);

    let r = freeze_user_position_token_2022(MINT_ADDRESS, &mint, &mut holding, POSITION);
    assert_eq!(r, Ok(()));
    match holding {
        HoldingAccount::Open(h) => assert!(h.frozen),
        _ => panic!("holding account not open"),
    }

    let r = transfer_user_position_token_2022(OWNER_X, MINT_ADDRESS, &mint, &mut holding, &mut dest);
    assert_eq!(r, Err(LifecycleError::ExternalLedgerRejected));

    let r = unfreeze_user_position_token_2022(MINT_ADDRESS, &mint, &mut holding, POSITION);
    assert_eq!(r, Ok(()));

    let r = transfer_user_position_token_2022(OWNER_X, MINT_ADDRESS, &mint, &mut holding, &mut dest);
    assert_eq!(r, Ok(()));
    match (holding, dest) {
        (HoldingAccount::Open(src), HoldingAccount::Open(dst)) => {
            assert_eq!(src.amount, 0);
            assert_eq!(dst.amount, 1);
            assert_eq!(dst.owner, OWNER_Y);
        },
        _ => panic!("holding accounts not open"),
    }
}

#[test]
fn double_freeze_is_rejected() {
    let (mint, mut holding) = delivered(OWNER_X);
    assert_eq!(
        freeze_user_position_token_2022(MINT_ADDRESS, &mint, &mut holding, POSITION),
        Ok(()),
    );
    assert_eq!(
        freeze_user_position_token_2022(MINT_ADDRESS, &mint, &mut holding, POSITION),
        Err(LifecycleError::ExternalLedgerRejected),
    );
}

#[test]
fn double_thaw_is_rejected() {
    let (mint, mut holding) = delivered(OWNER_X);
    assert_eq!(
        freeze_user_position_token_2022(MINT_ADDRESS, &mint, &mut holding, POSITION),
        Ok(()),
    );
    assert_eq!(
        unfreeze_user_position_token_2022(MINT_ADDRESS, &mint, &mut holding, POSITION),
        Ok(()),
    );
    assert_eq!(
        unfreeze_user_position_token_2022(MINT_ADDRESS, &mint, &mut holding, POSITION),
        Err(LifecycleError::ExternalLedgerRejected),
    );
}

#[test]
fn only_the_owner_may_transfer() {
    let (mint, mut holding) = delivered(OWNER_X);
    let mut dest = open_destination(OWNER_Y);
    let r = transfer_user_position_token_2022(OWNER_Y, MINT_ADDRESS, &mint, &mut holding, &mut dest);
    assert_eq!(r, Err(LifecycleError::ExternalLedgerRejected));
}

#[test]
fn teardown_closes_both_accounts_and_returns_rent() {
    let (mut mint, mut holding) = delivered(OWNER_X);
    let mint_lamports = match mint {
        MintAccount::Initialized(m) => m.lamports,
        _ => panic!("mint not initialized"),
    };
    let holding_lamports = match holding {
        HoldingAccount::Open(h) => h.lamports,
        _ => panic!("holding account not open"),
    };
    let mut receiver: u64 = 5;
    let r = burn_and_close_user_position_token_2022(
        OWNER_X,
        &mut receiver,
        MINT_ADDRESS,
        &mut mint,
        &mut holding,
        POSITION,
    );
    assert_eq!(r, Ok(()));
    assert!(matches!(mint, MintAccount::Closed));
    assert!(matches!(holding, HoldingAccount::Closed));
    assert_eq!(receiver, 5 + mint_lamports + holding_lamports);
}

#[test]
fn teardown_is_rejected_while_frozen() {
    let (mut mint, mut holding) = delivered(OWNER_X);
    assert_eq!(
        freeze_user_position_token_2022(MINT_ADDRESS, &mint, &mut holding, POSITION),
        Ok(()),
    );
    let mut receiver: u64 = 0;
    let r = burn_and_close_user_position_token_2022(
        OWNER_X,
        &mut receiver,
        MINT_ADDRESS,
        &mut mint,
        &mut holding,
        POSITION,
    );
    assert_eq!(r, Err(LifecycleError::ExternalLedgerRejected));
    assert!(matches!(mint, MintAccount::Initialized(_)));
    assert!(matches!(holding, HoldingAccount::Open(_)));
    assert_eq!(receiver, 0);
}

#[test]
fn teardown_twice_fails_on_the_second_call() {
    let (mut mint, mut holding) = delivered(OWNER_X);
    let mut receiver: u64 = 0;
    assert_eq!(
        burn_and_close_user_position_token_2022(
            OWNER_X,
            &mut receiver,
            MINT_ADDRESS,
            &mut mint,
            &mut holding,
            POSITION,
        ),
        Ok(()),
    );
    let before = receiver;
    assert_eq!(
        burn_and_close_user_position_token_2022(
            OWNER_X,
            &mut receiver,
            MINT_ADDRESS,
            &mut mint,
            &mut holding,
            POSITION,
        ),
        Err(LifecycleError::ExternalLedgerRejected),
    );
    assert_eq!(receiver, before);
}

#[test]
fn closing_the_mint_directly_requires_zero_supply() {
    let (mut mint, _holding) = delivered(OWNER_X);
    let mut receiver: u64 = 0;
    let r = close_mint_account(&mut mint, &mut receiver, POSITION);
    assert_eq!(r, Err(LifecycleError::ExternalLedgerRejected));
}

#[test]
fn close_empty_account_requires_it_to_be_empty() {
    let (_mint, mut holding) = delivered(OWNER_X);
    let mut receiver: u64 = 0;
    let r = close_empty_token_account_2022(OWNER_X, &mut holding, &mut receiver);
    assert_eq!(r, Err(LifecycleError::ExternalLedgerRejected));

    let mut empty = open_destination(OWNER_Y);
    let r = close_empty_token_account_2022(OWNER_Y, &mut empty, &mut receiver);
    assert_eq!(r, Ok(()));
    assert!(matches!(empty, HoldingAccount::Closed));
    assert_eq!(receiver, 2700);
}

#[test]
fn full_position_lifecycle_scenario() {
    // provision with metadata, deliver to X, freeze, failed transfer, thaw,
    // transfer to Y, teardown by Y: the mint account no longer exists.
    let mut mint = provisioned_mint(true);
    let mut holding_x = HoldingAccount::Unallocated;
    let mut funder: u64 = 1_000_000;
    assert_eq!(
        initialize_position_token_account_2022(
            &mut holding_x,
            MINT_ADDRESS,
            &mint,
            &mut funder,
            OWNER_X,
            &rent(),
        ),
        Ok(()),
    );
    assert_eq!(
        mint_position_token_2022_and_remove_authority(
            POSITION,
            MINT_ADDRESS,
            &mut mint,
            &mut holding_x,
        ),
        Ok(()),
    );
    assert_eq!(
        freeze_user_position_token_2022(MINT_ADDRESS, &mint, &mut holding_x, POSITION),
        Ok(()),
    );
    let mut holding_y = HoldingAccount::Unallocated;
    assert_eq!(
        initialize_position_token_account_2022(
            &mut holding_y,
            MINT_ADDRESS,
            &mint,
            &mut funder,
            OWNER_Y,
            &rent(),
        ),
        Ok(()),
    );
    assert_eq!(
        transfer_user_position_token_2022(
            OWNER_X,
            MINT_ADDRESS,
            &mint,
            &mut holding_x,
            &mut holding_y,
        ),
        Err(LifecycleError::ExternalLedgerRejected),
    );
    assert_eq!(
        unfreeze_user_position_token_2022(MINT_ADDRESS, &mint, &mut holding_x, POSITION),
        Ok(()),
    );
    assert_eq!(
        transfer_user_position_token_2022(
            OWNER_X,
            MINT_ADDRESS,
            &mint,
            &mut holding_x,
            &mut holding_y,
        ),
        Ok(()),
    );
    let mut receiver: u64 = 0;
    assert_eq!(
        burn_and_close_user_position_token_2022(
            OWNER_Y,
            &mut receiver,
            MINT_ADDRESS,
            &mut mint,
            &mut holding_y,
            POSITION,
        ),
        Ok(()),
    );
    assert!(matches!(mint, MintAccount::Closed));
    assert!(matches!(holding_y, HoldingAccount::Closed));
}

#[test]
fn rent_minimum_balance_is_linear_in_space() {
    let schedule = RentSchedule { base_lamports: 7, lamports_per_byte: 3 };
    assert_eq!(schedule.minimum_balance(0), Some(7));
    assert_eq!(schedule.minimum_balance(100), Some(307));
    let saturating = RentSchedule { base_lamports: 1, lamports_per_byte: u64::MAX };
    assert_eq!(saturating.minimum_balance(2), None);
}
