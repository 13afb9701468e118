use commitment_core::allocation::AllocationTracking;
use commitment_core::commitment::{Commitment, CommitmentStatus};
use commitment_core::dummy::DummyTokenContract;
use commitment_core::errors::LedgerError;
use commitment_core::identity::Identity;
use commitment_core::ledger::{CommitmentLedger, LedgerEvent};
use commitment_core::rules::{CommitmentRules, CommitmentType};
use commitment_core::token::{OwnershipToken, TokenEvent, TokenMetadata, TokenRegistry};
use commitment_core::transfer::{TransferOrder, TransferOutcome};

/// The time of the cases below: late enough for commitments made long before.
const NOW: u64 = 1_000_000;

fn core_address() -> Identity {
    Identity::contract(1, 1)
}

fn nft_address() -> Identity {
    Identity::contract(1, 2)
}

fn token_address() -> Identity {
    Identity::contract(1, 3)
}

fn generate(n: u128) -> Identity {
    Identity::account(2, n)
}

fn create_test_commitment(id: u64, owner: Identity, expired: bool) -> Commitment {
    let now = NOW;
    let (created_at, expires_at) = if expired { (now - 10000, now - 100) } else { (now, now + 10000) };

    Commitment {
        commitment_id: id,
        owner,
        nft_token_id: 1,
        rules: CommitmentRules {
            duration_days: 7,
            max_loss_percent: 20,
            commitment_type: CommitmentType::Balanced,
            early_exit_penalty: 5,
            min_fee_threshold: 0,
        },
        amount: 1000,
        asset_address: generate(77),
        created_at,
        expires_at,
        current_value: 1000,
        status: CommitmentStatus::Active,
    }
}

/// A registry that holds the tokens 1 to `count`, each active and linked to
/// the commitment of the same number, and in which the ledger may mint.
fn registry_with_tokens(admin: Identity, owner: Identity, count: u32) -> TokenRegistry {
    let mut tokens = Vec::new();
    for token_id in 1..=count {
        tokens.push(OwnershipToken {
            token_id,
            owner,
            metadata: TokenMetadata {
                commitment_id: u64::from(token_id),
                duration_days: 1,
                max_loss_percent: 10,
                commitment_type: CommitmentType::Safe,
                initial_amount: 1000,
                asset_address: token_address(),
                created_at: 0,
                expires_at: 86400,
            },
            active: true,
        });
    }
    TokenRegistry::restore(Some(admin), vec![core_address()], tokens).unwrap()
}

/// A ledger that holds `commitments`, none of which has placed anything.
fn ledger_with(admin: Identity, commitments: Vec<Commitment>) -> CommitmentLedger {
    let trackings = commitments.iter().map(|_| AllocationTracking::new()).collect();
    CommitmentLedger::restore(
        core_address(),
        Some(admin),
        Some(nft_address()),
        Vec::new(),
        commitments,
        trackings,
    )
    .unwrap()
}

fn status_of(ledger: &CommitmentLedger, id: u64) -> CommitmentStatus {
    ledger.get_commitment(id).unwrap().status
}

#[test]
fn test_initialize() {
    let admin = generate(1);
    let nft_contract = generate(2);
    let mut ledger = CommitmentLedger::new(core_address());

    ledger.initialize(admin, nft_contract).unwrap();

    let stored_admin = ledger.admin().unwrap();
    let stored_nft = ledger.token_registry().unwrap();

    assert_eq!(stored_admin, admin);
    assert_eq!(stored_nft, nft_contract);
}

#[test]
fn test_settlement_flow_basic() {
    let owner = generate(1);
    let admin = generate(2);
    let now = NOW;

    let commitment = Commitment {
        commitment_id: 1,
        owner,
        nft_token_id: 101,
        rules: CommitmentRules {
            duration_days: 1,
            max_loss_percent: 10,
            commitment_type: CommitmentType::Safe,
            early_exit_penalty: 5,
            min_fee_threshold: 0,
        },
        amount: 5000,
        asset_address: token_address(),
        created_at: now - 100000,
        expires_at: now - 1000,
        current_value: 5500,
        status: CommitmentStatus::Active,
    };

    let mut ledger = ledger_with(admin, vec![commitment]);
    let mut tokens = registry_with_tokens(admin, owner, 101);

    let order = ledger.settlement_order(&tokens, 1, now).unwrap();
    let done = DummyTokenContract::transfer(order.from, order.to, order.amount);
    ledger.settle(&mut tokens, 1, now, done).unwrap();

    assert_eq!(ledger.commitments().len(), 1);
    assert_eq!(ledger.commitments()[0].status, CommitmentStatus::Settled);
}

#[test]
fn test_settlement_rejects_active_commitment() {
    let owner = generate(1);
    let admin = generate(2);

    let commitment = create_test_commitment(1, owner, false);
    let mut ledger = ledger_with(admin, vec![commitment]);
    let mut tokens = registry_with_tokens(admin, owner, 1);

    let result = ledger.settle(&mut tokens, 1, NOW, TransferOutcome::Completed);
    assert_eq!(result, Err(LedgerError::NotYetExpired));
    assert_eq!(status_of(&ledger, 1), CommitmentStatus::Active);
    assert_eq!(tokens.is_active(1), Ok(true));
}

#[test]
fn test_settlement_commitment_not_found() {
    let admin = generate(2);
    let mut ledger = CommitmentLedger::new(core_address());
    ledger.initialize(admin, nft_address()).unwrap();
    let mut tokens = registry_with_tokens(admin, admin, 1);

    let result = ledger.settle(&mut tokens, 1, NOW, TransferOutcome::Completed);
    assert_eq!(result, Err(LedgerError::NotFound));
    assert_eq!(ledger.settle(&mut tokens, 0, NOW, TransferOutcome::Completed), Err(LedgerError::NotFound));
}

#[test]
fn test_settlement_already_settled() {
    let owner = generate(1);
    let admin = generate(2);

    let mut commitment = create_test_commitment(1, owner, true);
    commitment.status = CommitmentStatus::Settled;
    let mut ledger = ledger_with(admin, vec![commitment]);
    let mut tokens = registry_with_tokens(admin, owner, 1);

    let result = ledger.settle(&mut tokens, 1, NOW, TransferOutcome::Completed);
    assert_eq!(result, Err(LedgerError::AlreadySettled));
    assert!(ledger.events().is_empty());
    assert!(tokens.events().is_empty());
}

#[test]
fn test_expiration_check_expired() {
    let admin = generate(2);
    let owner = generate(1);

    let commitment = create_test_commitment(1, owner, true);
    let ledger = ledger_with(admin, vec![commitment]);

    let is_violated = ledger.check_violations(1, NOW).unwrap();
    assert!(is_violated);
}

#[test]
fn test_expiration_check_not_expired() {
    let admin = generate(2);
    let owner = generate(1);

    let commitment = create_test_commitment(1, owner, false);
    let ledger = ledger_with(admin, vec![commitment]);

    let is_violated = ledger.check_violations(1, NOW).unwrap();
    assert!(!is_violated);
}

#[test]
fn test_asset_transfer_on_settlement() {
    let owner = generate(1);
    let admin = generate(2);
    let settlement_amount = 7500i128;
    let now = NOW;

    let commitment = Commitment {
        commitment_id: 1,
        owner,
        nft_token_id: 102,
        rules: CommitmentRules {
            duration_days: 5,
            max_loss_percent: 15,
            commitment_type: CommitmentType::Aggressive,
            early_exit_penalty: 10,
            min_fee_threshold: 0,
        },
        amount: 5000,
        asset_address: token_address(),
        created_at: now - 500000,
        expires_at: now - 10000,
        current_value: settlement_amount,
        status: CommitmentStatus::Active,
    };

    let mut ledger = ledger_with(admin, vec![commitment]);
    let mut tokens = registry_with_tokens(admin, owner, 102);

    let order = ledger.settlement_order(&tokens, 1, now).unwrap();
    assert_eq!(
        order,
        TransferOrder {
            asset: token_address(),
            from: core_address(),
            to: owner,
            amount: settlement_amount
        }
    );
    ledger.settle(&mut tokens, 1, now, TransferOutcome::Completed).unwrap();

    assert_eq!(ledger.commitments()[0].status, CommitmentStatus::Settled);
    assert_eq!(ledger.commitments()[0].current_value, settlement_amount);
}

#[test]
fn test_settlement_with_different_values() {
    let owner = generate(1);
    let admin = generate(2);
    let now = NOW + 2592000;

    let commitment_gain = Commitment {
        commitment_id: 1,
        owner,
        nft_token_id: 201,
        rules: CommitmentRules {
            duration_days: 30,
            max_loss_percent: 5,
            commitment_type: CommitmentType::Safe,
            early_exit_penalty: 2,
            min_fee_threshold: 0,
        },
        amount: 10000,
        asset_address: generate(78),
        created_at: now - 2592000,
        expires_at: now - 1,
        current_value: 11000,
        status: CommitmentStatus::Active,
    };

    let mut ledger = ledger_with(admin, vec![commitment_gain]);
    let mut tokens = registry_with_tokens(admin, owner, 201);

    ledger.settle(&mut tokens, 1, now, TransferOutcome::Completed).unwrap();

    assert_eq!(ledger.commitments()[0].current_value, 11000);
    assert_eq!(ledger.commitments()[0].status, CommitmentStatus::Settled);
}

#[test]
fn test_cross_contract_nft_settlement() {
    let owner = generate(1);
    let admin = generate(2);
    let nft_token_id = 999u32;
    let now = NOW;

    let commitment = Commitment {
        commitment_id: 1,
        owner,
        nft_token_id,
        rules: CommitmentRules {
            duration_days: 1,
            max_loss_percent: 10,
            commitment_type: CommitmentType::Safe,
            early_exit_penalty: 5,
            min_fee_threshold: 0,
        },
        amount: 2000,
        asset_address: token_address(),
        created_at: now - 100000,
        expires_at: now - 1000,
        current_value: 2000,
        status: CommitmentStatus::Active,
    };

    let mut ledger = ledger_with(admin, vec![commitment]);
    let mut tokens = registry_with_tokens(admin, owner, 999);

    ledger.settle(&mut tokens, 1, now, TransferOutcome::Completed).unwrap();

    assert_eq!(ledger.commitments()[0].status, CommitmentStatus::Settled);
    assert_eq!(ledger.commitments()[0].nft_token_id, nft_token_id);
    assert_eq!(tokens.is_active(nft_token_id), Ok(false));
    assert_eq!(tokens.is_active(nft_token_id - 1), Ok(true));
    assert_eq!(tokens.events(), &vec![TokenEvent::Settled { token_id: 999, timestamp: now }]);
}

#[test]
fn test_settlement_removes_commitment_status() {
    let owner = generate(1);
    let admin = generate(2);
    let now = NOW;

    let commitment1 = Commitment {
        commitment_id: 1,
        owner,
        nft_token_id: 301,
        rules: CommitmentRules {
            duration_days: 1,
            max_loss_percent: 10,
            commitment_type: CommitmentType::Safe,
            early_exit_penalty: 5,
            min_fee_threshold: 0,
        },
        amount: 1000,
        asset_address: generate(78),
        created_at: now - 100000,
        expires_at: now - 1000,
        current_value: 1000,
        status: CommitmentStatus::Active,
    };

    let commitment2 = Commitment {
        commitment_id: 2,
        owner,
        nft_token_id: 302,
        rules: CommitmentRules {
            duration_days: 30,
            max_loss_percent: 20,
            commitment_type: CommitmentType::Aggressive,
            early_exit_penalty: 10,
            min_fee_threshold: 0,
        },
        amount: 2000,
        asset_address: generate(79),
        created_at: now,
        expires_at: now + 2592000,
        current_value: 2000,
        status: CommitmentStatus::Active,
    };

    let mut ledger = ledger_with(admin, vec![commitment1, commitment2]);
    let mut tokens = registry_with_tokens(admin, owner, 302);

    ledger.settle(&mut tokens, 1, now, TransferOutcome::Completed).unwrap();

    assert_eq!(ledger.commitments().len(), 2);
    assert_eq!(ledger.commitments()[0].status, CommitmentStatus::Settled);
    assert_eq!(ledger.commitments()[1].status, CommitmentStatus::Active);
    assert_eq!(tokens.is_active(301), Ok(false));
    assert_eq!(tokens.is_active(302), Ok(true));
}

// A ledger and a registry set up for each other, with one allocator.

struct World {
    ledger: CommitmentLedger,
    tokens: TokenRegistry,
    admin: Identity,
    owner: Identity,
    allocator: Identity,
    pool: Identity,
    asset: Identity,
}

fn world() -> World {
    let admin = generate(100);
    let allocator = Identity::contract(3, 1);
    let mut ledger = CommitmentLedger::new(core_address());
    ledger.initialize(admin, nft_address()).unwrap();
    ledger.add_authorized_allocator(admin, allocator).unwrap();
    let mut tokens = TokenRegistry::new();
    tokens.initialize(admin).unwrap();
    tokens.add_authorized_minter(admin, core_address()).unwrap();
    World {
        ledger,
        tokens,
        admin,
        owner: generate(101),
        allocator,
        pool: Identity::contract(3, 2),
        asset: Identity::contract(3, 3),
    }
}

fn balanced_rules() -> CommitmentRules {
    CommitmentRules {
        duration_days: 30,
        max_loss_percent: 10,
        commitment_type: CommitmentType::parse("balanced").unwrap(),
        early_exit_penalty: 5,
        min_fee_threshold: 0,
    }
}

fn commit(w: &mut World, amount: i128, now: u64) -> u64 {
    w.ledger.create_commitment(&mut w.tokens, w.owner, amount, w.asset, balanced_rules(), now).unwrap()
}

#[test]
fn created_commitment_is_active_and_worth_its_principal() {
    let mut w = world();
    let id = commit(&mut w, 1000, 500);
    assert_eq!(id, 1);

    let record = w.ledger.get_commitment(id).unwrap();
    assert_eq!(record.commitment_id, 1);
    assert_eq!(record.owner, w.owner);
    assert_eq!(record.status, CommitmentStatus::Active);
    assert_eq!(record.amount, 1000);
    assert_eq!(record.current_value, 1000);
    assert_eq!(record.created_at, 500);
    assert_eq!(record.expires_at, 500 + 30 * 86400);
    assert_eq!(record.asset_address, w.asset);
    assert_eq!(record.rules, balanced_rules());
    assert_eq!(record.nft_token_id, 1);

    // Exactly one token was minted, bound to the terms of the commitment.
    assert_eq!(w.tokens.total_supply(), 1);
    let token = w.tokens.get_token(1).unwrap();
    assert_eq!(token.owner, w.owner);
    assert!(token.active);
    assert_eq!(token.metadata.commitment_id, 1);
    assert_eq!(token.metadata.duration_days, 30);
    assert_eq!(token.metadata.max_loss_percent, 10);
    assert_eq!(token.metadata.commitment_type, CommitmentType::Balanced);
    assert_eq!(token.metadata.initial_amount, 1000);
    assert_eq!(token.metadata.asset_address, w.asset);
    assert_eq!(token.metadata.created_at, 500);
    assert_eq!(token.metadata.expires_at, record.expires_at);

    assert_eq!(
        w.ledger.events(),
        &vec![LedgerEvent::Created {
            commitment_id: 1,
            owner: w.owner,
            amount: 1000,
            token_id: 1,
            timestamp: 500
        }]
    );

    let second = commit(&mut w, 5, 600);
    assert_eq!(second, 2);
    assert_eq!(w.ledger.get_commitment(2).unwrap().nft_token_id, 2);
    assert_eq!(w.ledger.commitment_count(), 2);
}

#[test]
fn create_commitment_refuses_bad_amounts_and_rules() {
    let mut w = world();
    let rules = balanced_rules();

    let r = w.ledger.create_commitment(&mut w.tokens, w.owner, 0, w.asset, rules, 0);
    assert_eq!(r, Err(LedgerError::InvalidAmount));
    let r = w.ledger.create_commitment(&mut w.tokens, w.owner, -5, w.asset, rules, 0);
    assert_eq!(r, Err(LedgerError::InvalidAmount));

    let no_days = CommitmentRules { duration_days: 0, ..rules };
    let r = w.ledger.create_commitment(&mut w.tokens, w.owner, 1000, w.asset, no_days, 0);
    assert_eq!(r, Err(LedgerError::InvalidRules));

    let too_lossy = CommitmentRules { max_loss_percent: 101, ..rules };
    let r = w.ledger.create_commitment(&mut w.tokens, w.owner, 1000, w.asset, too_lossy, 0);
    assert_eq!(r, Err(LedgerError::InvalidRules));

    let full_loss = CommitmentRules { max_loss_percent: 100, ..rules };
    let r = w.ledger.create_commitment(&mut w.tokens, w.owner, 1000, w.asset, full_loss, u64::MAX);
    assert_eq!(r, Err(LedgerError::InvalidRules));

    // Nothing was made and no counter moved.
    assert_eq!(w.ledger.commitment_count(), 0);
    assert_eq!(w.tokens.total_supply(), 0);
    assert!(w.ledger.events().is_empty());
    assert!(w.tokens.events().is_empty());

    let r = w.ledger.create_commitment(&mut w.tokens, w.owner, 1000, w.asset, full_loss, 0);
    assert_eq!(r, Ok(1));
}

#[test]
fn create_commitment_needs_the_minting_role() {
    let mut w = world();
    w.tokens.remove_authorized_minter(w.admin, core_address()).unwrap();
    let r = w.ledger.create_commitment(&mut w.tokens, w.owner, 1000, w.asset, balanced_rules(), 0);
    assert_eq!(r, Err(LedgerError::Unauthorized));
    assert_eq!(w.ledger.commitment_count(), 0);
    assert_eq!(w.tokens.total_supply(), 0);
}

#[test]
fn get_commitment_of_an_unknown_id_is_not_found() {
    let mut w = world();
    commit(&mut w, 1000, 0);
    assert_eq!(w.ledger.get_commitment(0), Err(LedgerError::NotFound));
    assert_eq!(w.ledger.get_commitment(2), Err(LedgerError::NotFound));
    assert_eq!(w.ledger.check_violations(2, 0), Err(LedgerError::NotFound));
    assert_eq!(w.ledger.get_violation_details(2, 0), Err(LedgerError::NotFound));
    assert_eq!(w.ledger.update_value(w.allocator, 2, 5), Err(LedgerError::NotFound));
}

#[test]
fn violations_of_a_balanced_commitment_after_fifteen_days() {
    let mut w = world();
    let created_at = 1_700_000_000;
    let id = commit(&mut w, 1000, created_at);
    let now = created_at + 15 * 86400;

    w.ledger.update_value(w.allocator, id, 950).unwrap();
    assert_eq!(w.ledger.check_violations(id, now), Ok(false));
    let details = w.ledger.get_violation_details(id, now).unwrap();
    assert!(!details.has_violation);
    assert!(!details.loss_violated);
    assert!(!details.duration_violated);
    assert_eq!(details.loss_percent, 5);
    assert_eq!(details.time_remaining, 15 * 86400);

    w.ledger.update_value(w.allocator, id, 850).unwrap();
    assert_eq!(w.ledger.check_violations(id, now), Ok(true));
    let details = w.ledger.get_violation_details(id, now).unwrap();
    assert!(details.has_violation);
    assert!(details.loss_violated);
    assert!(!details.duration_violated);
    assert_eq!(details.loss_percent, 15);

    // The status did not move: a violation shows only when asked for.
    assert_eq!(status_of(&w.ledger, id), CommitmentStatus::Active);
}

#[test]
fn loss_exactly_at_the_limit_is_no_violation() {
    let mut w = world();
    let id = commit(&mut w, 1000, 0);

    w.ledger.update_value(w.allocator, id, 900).unwrap();
    assert_eq!(w.ledger.get_violation_details(id, 1).unwrap().loss_percent, 10);
    assert_eq!(w.ledger.check_violations(id, 1), Ok(false));

    // The loss stays at ten percent down to 891, and is eleven at 890.
    w.ledger.update_value(w.allocator, id, 891).unwrap();
    assert_eq!(w.ledger.get_violation_details(id, 1).unwrap().loss_percent, 10);
    assert_eq!(w.ledger.check_violations(id, 1), Ok(false));
    w.ledger.update_value(w.allocator, id, 890).unwrap();
    assert_eq!(w.ledger.get_violation_details(id, 1).unwrap().loss_percent, 11);
    assert_eq!(w.ledger.check_violations(id, 1), Ok(true));
}

#[test]
fn one_unit_below_the_limit_violates_where_a_unit_is_a_percent() {
    let mut w = world();
    let id = commit(&mut w, 100, 0);
    w.ledger.update_value(w.allocator, id, 90).unwrap();
    assert_eq!(w.ledger.check_violations(id, 1), Ok(false));
    w.ledger.update_value(w.allocator, id, 89).unwrap();
    assert_eq!(w.ledger.check_violations(id, 1), Ok(true));
}

#[test]
fn duration_is_violated_from_the_expiry_time_on() {
    let mut w = world();
    let id = commit(&mut w, 1000, 100);
    let expires_at = w.ledger.get_commitment(id).unwrap().expires_at;

    let before = w.ledger.get_violation_details(id, expires_at - 1).unwrap();
    assert!(!before.duration_violated);
    assert!(!before.has_violation);
    assert_eq!(before.time_remaining, 1);
    assert_eq!(w.ledger.check_violations(id, expires_at - 1), Ok(false));

    let at = w.ledger.get_violation_details(id, expires_at).unwrap();
    assert!(at.duration_violated);
    assert!(at.has_violation);
    assert_eq!(at.time_remaining, 0);
    assert_eq!(w.ledger.check_violations(id, expires_at), Ok(true));

    let after = w.ledger.get_violation_details(id, u64::MAX).unwrap();
    assert!(after.duration_violated);
    assert_eq!(after.time_remaining, 0);
}

#[test]
fn resolved_commitment_reports_no_violation() {
    let mut w = world();
    let id = commit(&mut w, 1000, 0);
    w.ledger.update_value(w.allocator, id, 100).unwrap();
    let expires_at = w.ledger.get_commitment(id).unwrap().expires_at;
    assert_eq!(w.ledger.check_violations(id, expires_at), Ok(true));

    w.ledger.settle(&mut w.tokens, id, expires_at, TransferOutcome::Completed).unwrap();

    assert_eq!(w.ledger.check_violations(id, expires_at), Ok(false));
    let details = w.ledger.get_violation_details(id, expires_at).unwrap();
    assert!(!details.has_violation);
    assert!(details.loss_violated);
    assert!(details.duration_violated);
    assert_eq!(details.loss_percent, 90);
}

#[test]
fn update_value_is_for_allocators_only() {
    let mut w = world();
    let id = commit(&mut w, 1000, 0);
    assert_eq!(w.ledger.update_value(w.owner, id, 1), Err(LedgerError::Unauthorized));
    assert_eq!(w.ledger.update_value(w.admin, id, 1), Err(LedgerError::Unauthorized));
    assert_eq!(w.ledger.get_commitment(id).unwrap().current_value, 1000);
    assert_eq!(w.ledger.update_value(w.allocator, id, -3), Ok(()));
    assert_eq!(w.ledger.get_commitment(id).unwrap().current_value, -3);
    assert_eq!(status_of(&w.ledger, id), CommitmentStatus::Active);
}

#[test]
fn unauthorized_allocate_changes_nothing() {
    let mut w = world();
    let id = commit(&mut w, 1000, 0);
    let stranger = Identity::contract(9, 9);

    let r = w.ledger.allocate(stranger, id, w.pool, 100, 10, TransferOutcome::Completed);
    assert_eq!(r, Err(LedgerError::Unauthorized));
    assert_eq!(w.ledger.allocation_order(stranger, id, w.pool, 100), Err(LedgerError::Unauthorized));

    let tracking = w.ledger.get_allocation_tracking(id);
    assert_eq!(tracking.total_allocated, 0);
    assert!(tracking.allocations.is_empty());
}

#[test]
fn allocate_records_the_placement() {
    let mut w = world();
    let id = commit(&mut w, 1000, 0);

    let order = w.ledger.allocation_order(w.allocator, id, w.pool, 400).unwrap();
    assert_eq!(
        order,
        TransferOrder { asset: w.asset, from: core_address(), to: w.pool, amount: 400 }
    );
    w.ledger.allocate(w.allocator, id, w.pool, 400, 10, TransferOutcome::Completed).unwrap();
    w.ledger.allocate(w.allocator, id, w.pool, 600, 11, TransferOutcome::Completed).unwrap();

    let tracking = w.ledger.get_allocation_tracking(id);
    assert_eq!(tracking.total_allocated, 1000);
    assert_eq!(tracking.allocations.len(), 2);
    assert_eq!(tracking.allocations[0].commitment_id, id);
    assert_eq!(tracking.allocations[0].target_pool, w.pool);
    assert_eq!(tracking.allocations[0].amount, 400);
    assert_eq!(tracking.allocations[0].timestamp, 10);
    assert_eq!(tracking.allocations[1].amount, 600);
    assert_eq!(tracking.allocations[1].timestamp, 11);

    let events = w.ledger.events();
    assert_eq!(
        events[1],
        LedgerEvent::Allocated { commitment_id: id, target_pool: w.pool, amount: 400, timestamp: 10 }
    );

    // Nothing is left to place.
    let r = w.ledger.allocate(w.allocator, id, w.pool, 1, 12, TransferOutcome::Completed);
    assert_eq!(r, Err(LedgerError::InsufficientBalance));
}

#[test]
fn allocate_refusals_in_order() {
    let mut w = world();
    let id = commit(&mut w, 1000, 0);
    let done = TransferOutcome::Completed;

    assert_eq!(w.ledger.allocate(w.allocator, 5, w.pool, 100, 1, done), Err(LedgerError::InactiveCommitment));
    assert_eq!(w.ledger.allocate(w.allocator, 0, w.pool, 100, 1, done), Err(LedgerError::InactiveCommitment));
    assert_eq!(w.ledger.allocate(w.allocator, id, w.pool, 0, 1, done), Err(LedgerError::InvalidAmount));
    assert_eq!(w.ledger.allocate(w.allocator, id, w.pool, -4, 1, done), Err(LedgerError::InvalidAmount));
    assert_eq!(w.ledger.allocate(w.allocator, id, w.pool, 1001, 1, done), Err(LedgerError::InsufficientBalance));
    assert_eq!(
        w.ledger.allocate(w.allocator, id, w.pool, 1000, 1, TransferOutcome::Failed),
        Err(LedgerError::TransferFailed)
    );
    // A refusal found before the transfer is reported before its failure.
    assert_eq!(
        w.ledger.allocate(w.allocator, id, w.pool, 1001, 1, TransferOutcome::Failed),
        Err(LedgerError::InsufficientBalance)
    );
    assert_eq!(w.ledger.get_allocation_tracking(id).total_allocated, 0);
    assert_eq!(w.ledger.events().len(), 1);

    // An allocator that lost its role is refused again.
    w.ledger.remove_authorized_allocator(w.admin, w.allocator).unwrap();
    assert!(!w.ledger.is_authorized_allocator(&w.allocator));
    assert_eq!(w.ledger.allocate(w.allocator, id, w.pool, 1, 1, done), Err(LedgerError::Unauthorized));
}

#[test]
fn allocate_needs_an_active_commitment() {
    let mut w = world();
    let id = commit(&mut w, 1000, 0);
    w.ledger.early_exit(&mut w.tokens, id, w.owner, 5, TransferOutcome::Completed).unwrap();
    assert_eq!(
        w.ledger.allocate(w.allocator, id, w.pool, 1, 6, TransferOutcome::Completed),
        Err(LedgerError::InactiveCommitment)
    );
}

#[test]
fn deallocate_lowers_the_total_and_stops_at_zero() {
    let mut w = world();
    let id = commit(&mut w, 1000, 0);
    w.ledger.allocate(w.allocator, id, w.pool, 400, 10, TransferOutcome::Completed).unwrap();

    let order = w.ledger.deallocation_order(w.allocator, id, w.pool, 150).unwrap();
    assert_eq!(
        order,
        TransferOrder { asset: w.asset, from: w.pool, to: core_address(), amount: 150 }
    );
    w.ledger.deallocate(w.allocator, id, w.pool, 150, 20, TransferOutcome::Completed).unwrap();
    let tracking = w.ledger.get_allocation_tracking(id);
    assert_eq!(tracking.total_allocated, 250);
    assert_eq!(tracking.allocations.len(), 1);
    assert_eq!(
        w.ledger.events()[2],
        LedgerEvent::Deallocated { commitment_id: id, target_pool: w.pool, amount: 150, timestamp: 20 }
    );

    // More comes back than is out: the total stops at zero.
    w.ledger.deallocate(w.allocator, id, w.pool, 300, 21, TransferOutcome::Completed).unwrap();
    assert_eq!(w.ledger.get_allocation_tracking(id).total_allocated, 0);
    w.ledger.deallocate(w.allocator, id, w.pool, i128::MAX, 22, TransferOutcome::Completed).unwrap();
    assert_eq!(w.ledger.get_allocation_tracking(id).total_allocated, 0);
    assert_eq!(w.ledger.get_allocation_tracking(id).allocations.len(), 1);

    // The whole principal is available again.
    w.ledger.allocate(w.allocator, id, w.pool, 1000, 23, TransferOutcome::Completed).unwrap();
    assert_eq!(w.ledger.get_allocation_tracking(id).total_allocated, 1000);
}

#[test]
fn deallocate_refusals_in_order() {
    let mut w = world();
    let id = commit(&mut w, 1000, 0);
    w.ledger.allocate(w.allocator, id, w.pool, 400, 10, TransferOutcome::Completed).unwrap();
    let done = TransferOutcome::Completed;

    assert_eq!(w.ledger.deallocate(w.owner, id, w.pool, 1, 1, done), Err(LedgerError::Unauthorized));
    assert_eq!(w.ledger.deallocate(w.allocator, 9, w.pool, 1, 1, done), Err(LedgerError::InactiveCommitment));
    assert_eq!(w.ledger.deallocate(w.allocator, id, w.pool, 0, 1, done), Err(LedgerError::InvalidAmount));
    assert_eq!(w.ledger.deallocate(w.allocator, id, w.pool, -1, 1, done), Err(LedgerError::InvalidAmount));
    assert_eq!(
        w.ledger.deallocate(w.allocator, id, w.pool, 1, 1, TransferOutcome::Failed),
        Err(LedgerError::TransferFailed)
    );
    assert_eq!(w.ledger.get_allocation_tracking(id).total_allocated, 400);
}

#[test]
fn deallocate_works_after_the_commitment_is_resolved() {
    let mut w = world();
    let id = commit(&mut w, 1000, 0);
    w.ledger.allocate(w.allocator, id, w.pool, 400, 10, TransferOutcome::Completed).unwrap();
    let expires_at = w.ledger.get_commitment(id).unwrap().expires_at;
    w.ledger.settle(&mut w.tokens, id, expires_at, TransferOutcome::Completed).unwrap();
    w.ledger.deallocate(w.allocator, id, w.pool, 400, expires_at, TransferOutcome::Completed).unwrap();
    assert_eq!(w.ledger.get_allocation_tracking(id).total_allocated, 0);
}

#[test]
fn allocated_total_stays_within_the_principal() {
    let mut w = world();
    let id = commit(&mut w, 1000, 0);
    let steps: [(bool, i128, TransferOutcome); 12] = [
        (true, 300, TransferOutcome::Completed),
        (true, 800, TransferOutcome::Completed),
        (false, 100, TransferOutcome::Failed),
        (true, 700, TransferOutcome::Completed),
        (true, 1, TransferOutcome::Completed),
        (false, 250, TransferOutcome::Completed),
        (false, -250, TransferOutcome::Completed),
        (true, 250, TransferOutcome::Failed),
        (false, 5000, TransferOutcome::Completed),
        (true, 1000, TransferOutcome::Completed),
        (true, i128::MAX, TransferOutcome::Completed),
        (false, 1, TransferOutcome::Completed),
    ];
    let expected: [i128; 12] = [300, 300, 300, 1000, 1000, 750, 750, 750, 0, 1000, 1000, 999];
    for (step, want) in steps.iter().zip(expected.iter()) {
        let (placing, amount, outcome) = *step;
        let _ = if placing {
            w.ledger.allocate(w.allocator, id, w.pool, amount, 1, outcome)
        } else {
            w.ledger.deallocate(w.allocator, id, w.pool, amount, 1, outcome)
        };
        let total = w.ledger.get_allocation_tracking(id).total_allocated;
        assert_eq!(total, *want);
        assert!(total >= 0);
        assert!(total <= 1000);
    }
}

#[test]
fn tracking_of_an_unknown_commitment_is_empty() {
    let w = world();
    let tracking = w.ledger.get_allocation_tracking(77);
    assert_eq!(tracking.total_allocated, 0);
    assert!(tracking.allocations.is_empty());
}

#[test]
fn second_settle_is_refused_as_already_settled() {
    let mut w = world();
    let id = commit(&mut w, 1000, 0);
    let expires_at = w.ledger.get_commitment(id).unwrap().expires_at;

    w.ledger.settle(&mut w.tokens, id, expires_at, TransferOutcome::Completed).unwrap();
    assert_eq!(status_of(&w.ledger, id), CommitmentStatus::Settled);
    assert_eq!(
        w.ledger.events()[1],
        LedgerEvent::Settled { commitment_id: id, owner: w.owner, amount: 1000, timestamp: expires_at }
    );
    let ledger_events = w.ledger.events().len();
    let token_events = w.tokens.events().len();

    for now in [0, expires_at, expires_at + 1, u64::MAX] {
        for outcome in [TransferOutcome::Completed, TransferOutcome::Failed] {
            assert_eq!(
                w.ledger.settle(&mut w.tokens, id, now, outcome),
                Err(LedgerError::AlreadySettled)
            );
        }
    }
    assert_eq!(w.ledger.settlement_order(&w.tokens, id, expires_at), Err(LedgerError::AlreadySettled));
    assert_eq!(
        w.ledger.early_exit(&mut w.tokens, id, w.owner, expires_at, TransferOutcome::Completed),
        Err(LedgerError::AlreadySettled)
    );
    assert_eq!(w.ledger.events().len(), ledger_events);
    assert_eq!(w.tokens.events().len(), token_events);
}

#[test]
fn settle_closes_the_token() {
    let mut w = world();
    let id = commit(&mut w, 1000, 0);
    let token_id = w.ledger.get_commitment(id).unwrap().nft_token_id;
    let expires_at = w.ledger.get_commitment(id).unwrap().expires_at;
    let buyer = generate(500);
    w.tokens.transfer(w.owner, buyer, token_id, 5).unwrap();

    w.ledger.settle(&mut w.tokens, id, expires_at, TransferOutcome::Completed).unwrap();

    assert_eq!(w.tokens.is_active(token_id), Ok(false));
    assert_eq!(w.tokens.transfer(buyer, w.owner, token_id, expires_at), Err(LedgerError::InactiveToken));
    assert_eq!(w.tokens.transfer(w.owner, buyer, token_id, expires_at), Err(LedgerError::Unauthorized));
    assert_eq!(w.tokens.owner_of(token_id), Ok(buyer));
}

#[test]
fn settle_takes_a_token_that_was_settled_before() {
    let mut w = world();
    let id = commit(&mut w, 1000, 0);
    let expires_at = w.ledger.get_commitment(id).unwrap().expires_at;
    w.tokens.settle(1, expires_at).unwrap();
    let token_events = w.tokens.events().len();

    w.ledger.settle(&mut w.tokens, id, expires_at, TransferOutcome::Completed).unwrap();

    assert_eq!(status_of(&w.ledger, id), CommitmentStatus::Settled);
    assert_eq!(w.tokens.is_active(1), Ok(false));
    assert_eq!(w.tokens.events().len(), token_events);
}

#[test]
fn settle_with_a_failed_transfer_changes_nothing() {
    let mut w = world();
    let id = commit(&mut w, 1000, 0);
    let expires_at = w.ledger.get_commitment(id).unwrap().expires_at;

    let r = w.ledger.settle(&mut w.tokens, id, expires_at, TransferOutcome::Failed);
    assert_eq!(r, Err(LedgerError::TransferFailed));
    assert_eq!(status_of(&w.ledger, id), CommitmentStatus::Active);
    assert_eq!(w.tokens.is_active(1), Ok(true));
    assert_eq!(w.ledger.events().len(), 1);
    assert_eq!(w.tokens.events().len(), 1);

    // The same request goes through once the transfer does.
    assert_eq!(w.ledger.settle(&mut w.tokens, id, expires_at, TransferOutcome::Completed), Ok(()));
}

#[test]
fn settle_refuses_a_worthless_position_and_a_missing_token() {
    let mut w = world();
    let id = commit(&mut w, 1000, 0);
    let expires_at = w.ledger.get_commitment(id).unwrap().expires_at;

    w.ledger.update_value(w.allocator, id, 0).unwrap();
    assert_eq!(
        w.ledger.settle(&mut w.tokens, id, expires_at, TransferOutcome::Completed),
        Err(LedgerError::InvalidAmount)
    );
    w.ledger.update_value(w.allocator, id, 10).unwrap();

    let mut other = TokenRegistry::new();
    assert_eq!(
        w.ledger.settle(&mut other, id, expires_at, TransferOutcome::Completed),
        Err(LedgerError::NotFound)
    );

    w.tokens.remove_authorized_minter(w.admin, core_address()).unwrap();
    assert_eq!(
        w.ledger.settle(&mut w.tokens, id, expires_at, TransferOutcome::Completed),
        Err(LedgerError::Unauthorized)
    );
    assert_eq!(status_of(&w.ledger, id), CommitmentStatus::Active);
}

#[test]
fn early_exit_pays_the_value_less_the_penalty() {
    let mut w = world();
    let id = commit(&mut w, 1000, 0);
    w.ledger.update_value(w.allocator, id, 1230).unwrap();

    // Five percent of 1230 is 61.5, rounded down to 61.
    let order = w.ledger.early_exit_order(&w.tokens, id, w.owner).unwrap();
    assert_eq!(
        order,
        TransferOrder { asset: w.asset, from: core_address(), to: w.owner, amount: 1169 }
    );

    w.ledger.early_exit(&mut w.tokens, id, w.owner, 50, TransferOutcome::Completed).unwrap();
    assert_eq!(status_of(&w.ledger, id), CommitmentStatus::EarlyExit);
    assert_eq!(w.tokens.is_active(1), Ok(false));
    assert_eq!(w.tokens.transfer(w.owner, w.admin, 1, 51), Err(LedgerError::InactiveToken));
    assert_eq!(
        w.ledger.events()[1],
        LedgerEvent::EarlyExit { commitment_id: id, owner: w.owner, amount: 1169, timestamp: 50 }
    );
    assert_eq!(w.tokens.events()[1], TokenEvent::Settled { token_id: 1, timestamp: 50 });

    // It cannot be left or settled again.
    assert_eq!(
        w.ledger.early_exit(&mut w.tokens, id, w.owner, 51, TransferOutcome::Completed),
        Err(LedgerError::InactiveCommitment)
    );
    let expires_at = w.ledger.get_commitment(id).unwrap().expires_at;
    assert_eq!(
        w.ledger.settle(&mut w.tokens, id, expires_at, TransferOutcome::Completed),
        Err(LedgerError::InactiveCommitment)
    );
}

#[test]
fn early_exit_refusals_in_order() {
    let mut w = world();
    let id = commit(&mut w, 1000, 0);
    let done = TransferOutcome::Completed;

    assert_eq!(w.ledger.early_exit(&mut w.tokens, 4, w.owner, 1, done), Err(LedgerError::NotFound));
    assert_eq!(w.ledger.early_exit(&mut w.tokens, id, w.admin, 1, done), Err(LedgerError::Unauthorized));
    w.ledger.update_value(w.allocator, id, 0).unwrap();
    assert_eq!(w.ledger.early_exit(&mut w.tokens, id, w.owner, 1, done), Err(LedgerError::InvalidAmount));
    w.ledger.update_value(w.allocator, id, -20).unwrap();
    assert_eq!(w.ledger.early_exit(&mut w.tokens, id, w.owner, 1, done), Err(LedgerError::InvalidAmount));
    w.ledger.update_value(w.allocator, id, 20).unwrap();
    assert_eq!(
        w.ledger.early_exit(&mut w.tokens, id, w.owner, 1, TransferOutcome::Failed),
        Err(LedgerError::TransferFailed)
    );
    assert_eq!(status_of(&w.ledger, id), CommitmentStatus::Active);
    assert_eq!(w.tokens.is_active(1), Ok(true));
    assert_eq!(w.ledger.early_exit(&mut w.tokens, id, w.owner, 1, done), Ok(()));
}

#[test]
fn early_exit_under_a_full_penalty_pays_nothing_and_is_refused() {
    let mut w = world();
    let rules = CommitmentRules { early_exit_penalty: 100, ..balanced_rules() };
    let id = w.ledger.create_commitment(&mut w.tokens, w.owner, 1000, w.asset, rules, 0).unwrap();
    assert_eq!(w.ledger.early_exit_order(&w.tokens, id, w.owner), Err(LedgerError::InvalidAmount));
}

#[test]
fn zero_amount_commitment_reports_no_loss() {
    let admin = generate(2);
    let owner = generate(1);
    let mut commitment = create_test_commitment(1, owner, false);
    commitment.amount = 0;
    for value in [i128::MIN, -1000, -1, 0, 1, 1000, i128::MAX] {
        commitment.current_value = value;
        let ledger = ledger_with(admin, vec![commitment]);
        let details = ledger.get_violation_details(1, NOW).unwrap();
        assert_eq!(details.loss_percent, 0);
        assert!(!details.loss_violated);
        assert!(!details.has_violation);
        assert_eq!(ledger.check_violations(1, NOW), Ok(false));
        assert_eq!(commitment.loss_percent(), 0);
        assert!(!commitment.loss_violated());
    }
}

#[test]
fn initialize_twice_is_refused() {
    let admin = generate(1);
    let mut ledger = CommitmentLedger::new(core_address());
    assert_eq!(ledger.initialize(admin, nft_address()), Ok(()));
    assert_eq!(ledger.initialize(generate(2), token_address()), Err(LedgerError::AlreadyInitialized));
    assert_eq!(ledger.admin(), Some(admin));
    assert_eq!(ledger.token_registry(), Some(nft_address()));
    assert_eq!(ledger.custodian(), core_address());
}

#[test]
fn only_the_administrator_changes_the_allocators() {
    let admin = generate(1);
    let allocator = Identity::contract(3, 1);
    let mut ledger = CommitmentLedger::new(core_address());

    // Before the administrator is set, nobody is.
    assert_eq!(ledger.add_authorized_allocator(admin, allocator), Err(LedgerError::Unauthorized));

    ledger.initialize(admin, nft_address()).unwrap();
    assert_eq!(ledger.add_authorized_allocator(allocator, allocator), Err(LedgerError::Unauthorized));
    assert!(!ledger.is_authorized_allocator(&allocator));
    assert_eq!(ledger.add_authorized_allocator(admin, allocator), Ok(()));
    assert_eq!(ledger.add_authorized_allocator(admin, allocator), Ok(()));
    assert!(ledger.is_authorized_allocator(&allocator));
    assert_eq!(ledger.allocators(), vec![allocator]);
    assert_eq!(ledger.remove_authorized_allocator(allocator, allocator), Err(LedgerError::Unauthorized));
    assert_eq!(ledger.remove_authorized_allocator(admin, allocator), Ok(()));
    assert!(!ledger.is_authorized_allocator(&allocator));
    assert!(ledger.allocators().is_empty());
}

#[test]
fn restore_takes_only_parts_that_fit() {
    let mut w = world();
    let id = commit(&mut w, 1000, 0);
    commit(&mut w, 50, 1);
    w.ledger.allocate(w.allocator, id, w.pool, 400, 10, TransferOutcome::Completed).unwrap();
    w.ledger.deallocate(w.allocator, id, w.pool, 100, 11, TransferOutcome::Completed).unwrap();

    let commitments = w.ledger.commitments().clone();
    let trackings = || -> Vec<AllocationTracking> {
        w.ledger.trackings().iter().map(|t| t.duplicate()).collect()
    };
    let rebuild = |commitments: Vec<Commitment>, trackings: Vec<AllocationTracking>| {
        CommitmentLedger::restore(
            core_address(),
            Some(w.admin),
            Some(nft_address()),
            w.ledger.allocators(),
            commitments,
            trackings,
        )
    };

    let restored = rebuild(commitments.clone(), trackings()).unwrap();
    assert_eq!(restored.commitment_count(), 2);
    assert_eq!(restored.get_commitment(1), w.ledger.get_commitment(1));
    assert_eq!(restored.get_allocation_tracking(1).total_allocated, 300);
    assert_eq!(restored.get_allocation_tracking(1).allocations.len(), 1);
    assert!(restored.is_authorized_allocator(&w.allocator));
    assert!(restored.events().is_empty());

    // One tracking too few.
    let mut short = trackings();
    short.pop();
    assert!(rebuild(commitments.clone(), short).is_none());

    // Ids out of sequence.
    let mut swapped = commitments.clone();
    swapped.swap(0, 1);
    assert!(rebuild(swapped, trackings()).is_none());

    // More allocated than the principal.
    let mut over = trackings();
    over[1].total_allocated = 51;
    assert!(rebuild(commitments.clone(), over).is_none());

    // A negative total.
    let mut negative = trackings();
    negative[0].total_allocated = -1;
    assert!(rebuild(commitments.clone(), negative).is_none());

    // More allocated than was ever recorded.
    let mut unrecorded = trackings();
    unrecorded[0].total_allocated = 401;
    assert!(rebuild(commitments.clone(), unrecorded).is_none());

    // A record of another commitment.
    let mut foreign = trackings();
    foreign[0].allocations[0].commitment_id = 2;
    assert!(rebuild(commitments.clone(), foreign).is_none());

    // A commitment that expires when it was made.
    let mut unsound = commitments.clone();
    unsound[1].expires_at = unsound[1].created_at;
    assert!(rebuild(unsound, trackings()).is_none());

    // A principal below zero.
    let mut indebted = commitments.clone();
    indebted[1].amount = -1;
    assert!(rebuild(indebted, trackings()).is_none());

    // A record without amount.
    let mut empty = trackings();
    empty[0].allocations[0].amount = 0;
    assert!(rebuild(commitments, empty).is_none());
}

#[test]
fn take_ledger_events_hands_out_and_forgets() {
    let mut w = world();
    commit(&mut w, 1000, 0);
    let events = w.ledger.take_events();
    assert_eq!(events.len(), 1);
    assert!(w.ledger.events().is_empty());
    assert_eq!(w.ledger.commitment_count(), 1);
}

#[test]
fn ledger_and_registry_stay_in_step() {
    let mut w = world();
    let first = commit(&mut w, 1000, 0);
    let second = commit(&mut w, 2000, 10);
    let third = commit(&mut w, 3000, 20);
    let in_step = |w: &World| {
        for commitment in w.ledger.commitments().iter() {
            let token = w.tokens.get_token(commitment.nft_token_id).unwrap();
            assert_eq!(token.metadata.commitment_id, commitment.commitment_id);
            if commitment.status != CommitmentStatus::Active {
                assert!(!token.active);
            }
        }
    };
    in_step(&w);

    let buyer = generate(700);
    w.tokens.transfer(w.owner, buyer, 2, 30).unwrap();
    in_step(&w);
    w.ledger.early_exit(&mut w.tokens, first, w.owner, 40, TransferOutcome::Completed).unwrap();
    in_step(&w);
    let expires_at = w.ledger.get_commitment(second).unwrap().expires_at;
    w.ledger.settle(&mut w.tokens, second, expires_at, TransferOutcome::Completed).unwrap();
    in_step(&w);
    w.tokens.settle(3, expires_at + 20).unwrap();
    in_step(&w);
    w.ledger.settle(&mut w.tokens, third, expires_at + 20, TransferOutcome::Completed).unwrap();
    in_step(&w);

    assert_eq!(status_of(&w.ledger, first), CommitmentStatus::EarlyExit);
    assert_eq!(status_of(&w.ledger, second), CommitmentStatus::Settled);
    assert_eq!(status_of(&w.ledger, third), CommitmentStatus::Settled);
    for token_id in 1..=3 {
        assert_eq!(w.tokens.is_active(token_id), Ok(false));
    }
    // The terms of the first commitment are what they were made with.
    let record = w.ledger.get_commitment(first).unwrap();
    assert_eq!(record.amount, 1000);
    assert_eq!(record.owner, w.owner);
    assert_eq!(record.rules, balanced_rules());
    assert_eq!(w.tokens.get_metadata(1).unwrap().initial_amount, 1000);
}
