use serum_registry::entity::{Balances, Entity, EntityState, StakeKind, MEGA_MULTIPLIER};
use serum_registry::error::RegistryError;
use serum_registry::member::{Book, Member, MemberBooks};
use serum_registry::pubkey::Pubkey;
use serum_registry::registrar::{Clock, Registrar};

fn registrar(threshold: u64, premium: u64) -> Registrar {
    Registrar {
        initialized: true,
        authority: Pubkey([1; 32]),
        vault: Pubkey([2; 32]),
        mega_vault: Pubkey([3; 32]),
        reward_activation_threshold: threshold,
        deactivation_timelock_premium: premium,
    }
}

fn entity_with(balances: Balances, state: EntityState, generation: u64) -> Entity {
    let mut e = Entity::default();
    e.initialized = true;
    e.balances = balances;
    e.state = state;
    e.generation = generation;
    e
}

#[test]
fn defaults() {
    let e = Entity::default();
    assert!(!e.initialized);
    assert!(e.registrar == Pubkey([0; 32]));
    assert_eq!(e.capabilities, 0);
    assert_eq!(e.stake_kind, StakeKind::Delegated);
    assert_eq!(e.balances, Balances::default());
    assert_eq!(e.generation, 0);
    assert_eq!(e.state, EntityState::Inactive);
    assert_eq!(EntityState::default(), EntityState::Inactive);
    assert_eq!(StakeKind::default(), StakeKind::Delegated);
    let b = Balances::default();
    assert_eq!(b.amount + b.mega_amount + b.stake_intent + b.mega_stake_intent, 0);
    assert_eq!(b.pending_withdrawals + b.mega_pending_withdrawals, 0);
}

#[test]
fn activation_amount_weighs_mega_stake() {
    let b = Balances {
        amount: 1,
        mega_amount: 2,
        stake_intent: 3,
        mega_stake_intent: 4,
        pending_withdrawals: 100,
        mega_pending_withdrawals: 100,
    };
    let e = entity_with(b, EntityState::Inactive, 0);
    assert_eq!(e.activation_amount(), 6_000_004);
    assert_eq!(MEGA_MULTIPLIER, 1_000_000);
}

#[test]
fn activation_amount_beyond_u64() {
    let b = Balances {
        amount: u64::MAX,
        mega_amount: u64::MAX,
        stake_intent: u64::MAX,
        mega_stake_intent: u64::MAX,
        pending_withdrawals: 0,
        mega_pending_withdrawals: 0,
    };
    let e = entity_with(b, EntityState::Inactive, 0);
    assert_eq!(e.activation_amount(), 2 * (u64::MAX as u128) * 1_000_001);
}

#[test]
fn inactive_activates_at_threshold() {
    let r = registrar(10, 5);
    let mut e = entity_with(Balances::default(), EntityState::Inactive, 4);
    e.add_stake_intent(9, false, &r, &Clock { slot: 1 }).unwrap();
    assert_eq!(e.state, EntityState::Inactive);
    assert_eq!(e.generation, 4);
    e.add_stake_intent(1, false, &r, &Clock { slot: 2 }).unwrap();
    assert_eq!(e.state, EntityState::Active);
    assert_eq!(e.generation, 5);
}

#[test]
fn generation_saturates() {
    let r = registrar(0, 5);
    let mut e = entity_with(Balances::default(), EntityState::Inactive, u64::MAX);
    e.transition_activation_if_needed(&r, &Clock { slot: 1 });
    assert_eq!(e.state, EntityState::Active);
    assert_eq!(e.generation, u64::MAX);
}

#[test]
fn pending_returns_to_active_without_new_generation() {
    let r = registrar(10, 5);
    let mut e = entity_with(
        Balances::default(),
        EntityState::PendingDeactivation { deactivation_start_slot: 100 },
        3,
    );
    e.add_stake_intent(10, false, &r, &Clock { slot: 105 }).unwrap();
    assert_eq!(e.state, EntityState::Active);
    assert_eq!(e.generation, 3);
}

#[test]
fn expired_pending_turns_inactive_even_when_restored() {
    let r = registrar(10, 5);
    let mut e = entity_with(
        Balances::default(),
        EntityState::PendingDeactivation { deactivation_start_slot: 100 },
        3,
    );
    e.add_stake_intent(10, false, &r, &Clock { slot: 106 }).unwrap();
    assert_eq!(e.state, EntityState::Inactive);
    assert_eq!(e.generation, 3);
    // The next evaluation activates it again, in a new generation.
    e.transition_activation_if_needed(&r, &Clock { slot: 106 });
    assert_eq!(e.state, EntityState::Active);
    assert_eq!(e.generation, 4);
}

#[test]
fn deactivation_window_does_not_overflow() {
    let r = registrar(10, u64::MAX);
    let mut e = entity_with(
        Balances::default(),
        EntityState::PendingDeactivation { deactivation_start_slot: 100 },
        3,
    );
    e.transition_activation_if_needed(&r, &Clock { slot: u64::MAX });
    assert_eq!(e.state, EntityState::PendingDeactivation { deactivation_start_slot: 100 });
}

#[test]
fn re_evaluation_is_idempotent() {
    let r = registrar(10, 5);
    let clock = Clock { slot: 50 };
    let starts = [
        entity_with(Balances::default(), EntityState::Inactive, 0),
        entity_with(Balances { stake_intent: 10, ..Balances::default() }, EntityState::Inactive, 0),
        entity_with(Balances::default(), EntityState::Active, 2),
        entity_with(Balances { amount: 10, ..Balances::default() }, EntityState::Active, 2),
        entity_with(
            Balances::default(),
            EntityState::PendingDeactivation { deactivation_start_slot: 10 },
            2,
        ),
        entity_with(
            Balances::default(),
            EntityState::PendingDeactivation { deactivation_start_slot: 48 },
            2,
        ),
    ];
    for start in starts.iter() {
        let mut once = *start;
        once.transition_activation_if_needed(&r, &clock);
        let mut twice = once;
        twice.transition_activation_if_needed(&r, &clock);
        assert_eq!(once.state, twice.state);
        assert_eq!(once.generation, twice.generation);
    }
}

#[test]
fn active_below_threshold_starts_countdown() {
    let r = registrar(10, 5);
    let mut e = entity_with(Balances { mega_stake_intent: 1, ..Balances::default() }, EntityState::Active, 1);
    e.sub_stake_intent(1, true, &r, &Clock { slot: 77 }).unwrap();
    assert_eq!(e.balances.mega_stake_intent, 0);
    assert_eq!(e.state, EntityState::PendingDeactivation { deactivation_start_slot: 77 });
    assert_eq!(e.generation, 1);
}

#[test]
fn sub_stake_intent_refuses_underflow() {
    let r = registrar(10, 5);
    let mut e = entity_with(Balances { stake_intent: 3, ..Balances::default() }, EntityState::Inactive, 0);
    assert_eq!(
        e.sub_stake_intent(4, false, &r, &Clock { slot: 1 }),
        Err(RegistryError::InsufficientBalance)
    );
    assert_eq!(e.balances.stake_intent, 3);
    assert_eq!(
        e.sub_stake_intent(1, true, &r, &Clock { slot: 1 }),
        Err(RegistryError::InsufficientBalance)
    );
}

#[test]
fn add_stake_intent_refuses_overflow() {
    let r = registrar(10, 5);
    let mut e = entity_with(
        Balances { mega_stake_intent: u64::MAX, ..Balances::default() },
        EntityState::Active,
        1,
    );
    assert_eq!(
        e.add_stake_intent(1, true, &r, &Clock { slot: 1 }),
        Err(RegistryError::ArithmeticOverflow)
    );
    assert_eq!(e.balances.mega_stake_intent, u64::MAX);
    assert_eq!(e.state, EntityState::Active);
}

#[test]
fn add_stake_counts_as_intent() {
    let r = registrar(2_000_000, 5);
    let mut e = entity_with(Balances::default(), EntityState::Inactive, 0);
    e.add_stake(2, true, &r, &Clock { slot: 1 }).unwrap();
    assert_eq!(e.balances.mega_stake_intent, 2);
    assert_eq!(e.balances.mega_amount, 0);
    assert_eq!(e.state, EntityState::Active);
    e.add_stake(5, false, &r, &Clock { slot: 1 }).unwrap();
    assert_eq!(e.balances.stake_intent, 5);
    assert_eq!(
        e.add_stake(u64::MAX, false, &r, &Clock { slot: 1 }),
        Err(RegistryError::ArithmeticOverflow)
    );
}

#[test]
fn transfer_pending_withdrawal_moves_settled_stake() {
    let r = registrar(10, 5);
    let mut e = entity_with(
        Balances { amount: 12, mega_amount: 1, ..Balances::default() },
        EntityState::Active,
        1,
    );
    e.transfer_pending_withdrawal(4, false, &r, &Clock { slot: 9 }).unwrap();
    assert_eq!(e.balances.amount, 8);
    assert_eq!(e.balances.pending_withdrawals, 4);
    assert_eq!(e.state, EntityState::Active);
    e.transfer_pending_withdrawal(1, true, &r, &Clock { slot: 10 }).unwrap();
    assert_eq!(e.balances.mega_amount, 0);
    assert_eq!(e.balances.mega_pending_withdrawals, 1);
    assert_eq!(e.state, EntityState::PendingDeactivation { deactivation_start_slot: 10 });
    assert_eq!(
        e.transfer_pending_withdrawal(9, false, &r, &Clock { slot: 11 }),
        Err(RegistryError::InsufficientBalance)
    );
    assert_eq!(e.balances.amount, 8);
    e.balances.pending_withdrawals = u64::MAX;
    assert_eq!(
        e.transfer_pending_withdrawal(1, false, &r, &Clock { slot: 11 }),
        Err(RegistryError::ArithmeticOverflow)
    );
    assert_eq!(e.balances.amount, 8);
}

#[test]
fn member_add_stake_intent_picks_book() {
    let zero = Balances::default();
    let mut m = Member {
        initialized: true,
        entity: Pubkey([1; 32]),
        beneficiary: Pubkey([2; 32]),
        books: MemberBooks {
            main: Book { owner: Pubkey([2; 32]), balances: zero },
            delegate: Book { owner: Pubkey([3; 32]), balances: zero },
        },
    };
    m.add_stake_intent(5, false, false).unwrap();
    m.add_stake_intent(6, true, true).unwrap();
    assert_eq!(m.books.main().balances.stake_intent, 5);
    assert_eq!(m.books.main().balances.mega_stake_intent, 0);
    assert_eq!(m.books.delegate().balances.mega_stake_intent, 6);
    assert_eq!(m.books.delegate().balances.stake_intent, 0);
    m.books.main.balances.mega_stake_intent = u64::MAX;
    assert_eq!(m.add_stake_intent(1, true, false), Err(RegistryError::ArithmeticOverflow));
    assert_eq!(m.books.main.balances.mega_stake_intent, u64::MAX);
}

#[test]
fn pubkey_equality() {
    let a = Pubkey::new([7; 32]);
    let mut bytes = [7u8; 32];
    assert!(a == Pubkey(bytes));
    assert!(a.same(&Pubkey(bytes)));
    bytes[31] = 8;
    assert!(a != Pubkey(bytes));
    bytes[31] = 7;
    bytes[0] = 0;
    assert!(!a.same(&Pubkey(bytes)));
}

#[test]
fn stake_kind_discriminants() {
    assert_eq!(u32::from(StakeKind::Voting), 0);
    assert_eq!(u32::from(StakeKind::Delegated), 1);
}
