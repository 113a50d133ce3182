use vstd::prelude::*;
use crate::error::RegistryError;
use crate::pubkey::Pubkey;
use crate::registrar::{Clock, Registrar};

verus! {

/// Value of one unit of mega stake, in units of regular stake.
pub const MEGA_MULTIPLIER: u64 = 1_000_000;

/// Deposited, intended and withdrawing stake of one account, per stake class.
#[derive(Clone, Copy, Debug, PartialEq, Eq, Structural)]
pub struct Balances {
    pub amount: u64,
    pub mega_amount: u64,
    pub stake_intent: u64,
    pub mega_stake_intent: u64,
    pub pending_withdrawals: u64,
    pub mega_pending_withdrawals: u64,
}

impl Default for Balances {
    fn default() -> (r: Balances)
        ensures
            r == Balances::zero(),
    {
        Balances {
            amount: 0,
            mega_amount: 0,
            stake_intent: 0,
            mega_stake_intent: 0,
            pending_withdrawals: 0,
            mega_pending_withdrawals: 0,
        }
    }
}

impl Balances {
    pub open spec fn zero() -> Balances {
        Balances {
            amount: 0,
            mega_amount: 0,
            stake_intent: 0,
            mega_stake_intent: 0,
            pending_withdrawals: 0,
            mega_pending_withdrawals: 0,
        }
    }

    /// The stake intent of one class.
    pub open spec fn intent_of(self, mega: bool) -> u64 {
        if mega {
            self.mega_stake_intent
        } else {
            self.stake_intent
        }
    }

    /// The balances with the stake intent of one class set to `v`.
    pub open spec fn with_intent(self, mega: bool, v: int) -> Balances {
        if mega {
            Balances { mega_stake_intent: v as u64, ..self }
        } else {
            Balances { stake_intent: v as u64, ..self }
        }
    }

    /// The settled stake of one class.
    pub open spec fn amount_of(self, mega: bool) -> u64 {
        if mega {
            self.mega_amount
        } else {
            self.amount
        }
    }

    /// The pending withdrawals of one class.
    pub open spec fn pending_of(self, mega: bool) -> u64 {
        if mega {
            self.mega_pending_withdrawals
        } else {
            self.pending_withdrawals
        }
    }

    /// The balances with `a` moved from settled stake to pending withdrawals.
    pub open spec fn with_withdrawal(self, mega: bool, a: int) -> Balances {
        if mega {
            Balances {
                mega_amount: (self.mega_amount - a) as u64,
                mega_pending_withdrawals: (self.mega_pending_withdrawals + a) as u64,
                ..self
            }
        } else {
            Balances {
                amount: (self.amount - a) as u64,
                pending_withdrawals: (self.pending_withdrawals + a) as u64,
                ..self
            }
        }
    }

    /// Settled plus intended stake, with mega stake scaled to regular units.
    pub open spec fn activation_amount_spec(self) -> int {
        self.amount + self.mega_amount * MEGA_MULTIPLIER + self.stake_intent
            + self.mega_stake_intent * MEGA_MULTIPLIER
    }
}

/// Type of stake backing an entity.
#[derive(Clone, Copy, Debug, PartialEq, Eq, Structural)]
pub enum StakeKind {
    Voting,
    Delegated,
}

impl Default for StakeKind {
    fn default() -> (r: StakeKind)
        ensures
            r == StakeKind::Delegated,
    {
        StakeKind::Delegated
    }
}

impl From<StakeKind> for u32 {
    /// The discriminant of the kind, as persisted.
    fn from(k: StakeKind) -> (r: u32) {
        match k {
            StakeKind::Voting => 0,
            StakeKind::Delegated => 1,
        }
    }
}

impl vstd::std_specs::convert::FromSpecImpl<StakeKind> for u32 {
    open spec fn obeys_from_spec() -> bool {
        true
    }

    open spec fn from_spec(k: StakeKind) -> u32 {
        match k {
            StakeKind::Voting => 0,
            StakeKind::Delegated => 1,
        }
    }
}

/// Activation state of an entity.
///
/// Inactive becomes Active once the activation amount reaches the threshold,
/// and the generation counter goes up. Active becomes PendingDeactivation when
/// the amount drops below it. PendingDeactivation returns to Active when the
/// amount is restored in time, and becomes Inactive once the deactivation
/// window has passed.
#[derive(Clone, Copy, Debug, PartialEq, Eq, Structural)]
pub enum EntityState {
    /// Not eligible for rewards.
    Inactive,
    /// Counting down, from the given slot, to Inactive.
    PendingDeactivation { deactivation_start_slot: u64 },
    /// Eligible for rewards.
    Active,
}

impl Default for EntityState {
    fn default() -> (r: EntityState)
        ensures
            r == EntityState::Inactive,
    {
        EntityState::Inactive
    }
}

/// A stakeable node, with the aggregate balances of all its members.
#[derive(Clone, Copy, Debug)]
pub struct Entity {
    pub initialized: bool,
    /// The registrar this entity belongs to.
    pub registrar: Pubkey,
    /// The key responsible for the node's duties.
    pub leader: Pubkey,
    /// Bitmap of the entity's capabilities.
    pub capabilities: u32,
    pub stake_kind: StakeKind,
    /// Sum of the balances of all member accounts.
    pub balances: Balances,
    /// Number of Inactive to Active transitions so far.
    pub generation: u64,
    pub state: EntityState,
}

impl Default for Entity {
    fn default() -> (r: Entity)
        ensures
            !r.initialized,
            r.registrar.bytes() == Seq::new(32, |i: int| 0u8),
            r.leader.bytes() == Seq::new(32, |i: int| 0u8),
            r.capabilities == 0,
            r.stake_kind == StakeKind::Delegated,
            r.balances == Balances::zero(),
            r.generation == 0,
            r.state == EntityState::Inactive,
    {
        let r = Entity {
            initialized: false,
            registrar: Pubkey([0u8; 32]),
            leader: Pubkey([0u8; 32]),
            capabilities: 0,
            stake_kind: StakeKind::default(),
            balances: Balances::default(),
            generation: 0,
            state: EntityState::default(),
        };
        assert(r.registrar.bytes() =~= Seq::new(32, |i: int| 0u8));
        assert(r.leader.bytes() =~= Seq::new(32, |i: int| 0u8));
        r
    }
}

/// The entity after one evaluation of the activation state machine.
#[verifier::opaque]
pub open spec fn transition_spec(e: Entity, registrar: Registrar, clock: Clock) -> Entity {
    let reached = e.balances.activation_amount_spec() >= registrar.reward_activation_threshold;
    match e.state {
        EntityState::Inactive => if reached {
            Entity {
                state: EntityState::Active,
                generation: if e.generation < u64::MAX {
                    (e.generation + 1) as u64
                } else {
                    e.generation
                },
                ..e
            }
        } else {
            e
        },
        EntityState::PendingDeactivation { deactivation_start_slot } => if clock.slot
            > deactivation_start_slot + registrar.deactivation_timelock_spec() {
            Entity { state: EntityState::Inactive, ..e }
        } else if reached {
            Entity { state: EntityState::Active, ..e }
        } else {
            e
        },
        EntityState::Active => if !reached {
            Entity {
                state: EntityState::PendingDeactivation { deactivation_start_slot: clock.slot },
                ..e
            }
        } else {
            e
        },
    }
}

/// The entity with new balances, then re-evaluated.
pub open spec fn rebalance_spec(
    e: Entity,
    balances: Balances,
    registrar: Registrar,
    clock: Clock,
) -> Entity {
    transition_spec(Entity { balances, ..e }, registrar, clock)
}

impl Entity {
    /// Settled plus intended stake, with mega stake scaled to regular units.
    /// The sum can exceed `u64`, so it is given as a `u128`.
    pub fn activation_amount(&self) -> (r: u128)
        ensures
            r == self.balances.activation_amount_spec(),
    {
        self.amount_equivalent() + self.stake_intent_equivalent()
    }

    fn amount_equivalent(&self) -> (r: u128)
        ensures
            r == self.balances.amount + self.balances.mega_amount * MEGA_MULTIPLIER,
            r <= u64::MAX * (1 + MEGA_MULTIPLIER),
    {
        let m = self.balances.mega_amount;
        assert(m * MEGA_MULTIPLIER <= u64::MAX * MEGA_MULTIPLIER) by (nonlinear_arith)
            requires
                m <= u64::MAX,
        ;
        self.balances.amount as u128 + (m as u128) * (MEGA_MULTIPLIER as u128)
    }

    fn stake_intent_equivalent(&self) -> (r: u128)
        ensures
            r == self.balances.stake_intent + self.balances.mega_stake_intent * MEGA_MULTIPLIER,
            r <= u64::MAX * (1 + MEGA_MULTIPLIER),
    {
        let m = self.balances.mega_stake_intent;
        assert(m * MEGA_MULTIPLIER <= u64::MAX * MEGA_MULTIPLIER) by (nonlinear_arith)
            requires
                m <= u64::MAX,
        ;
        self.balances.stake_intent as u128 + (m as u128) * (MEGA_MULTIPLIER as u128)
    }

    /// Re-evaluates the activation state machine against the registrar's
    /// threshold and timelock and the current slot.
    pub fn transition_activation_if_needed(&mut self, registrar: &Registrar, clock: &Clock)
        ensures
            *final(self) == transition_spec(*old(self), *registrar, *clock),
    {
        reveal(transition_spec);
        let reached = self.activation_amount() >= registrar.reward_activation_threshold as u128;
        match self.state {
            EntityState::Inactive => {
                if reached {
                    self.state = EntityState::Active;
                    if self.generation < u64::MAX {
                        self.generation = self.generation + 1;
                    }
                }
            },
            EntityState::PendingDeactivation { deactivation_start_slot } => {
                let window = registrar.deactivation_timelock();
                if clock.slot as u128 > deactivation_start_slot as u128 + window as u128 {
                    self.state = EntityState::Inactive;
                } else if reached {
                    self.state = EntityState::Active;
                }
            },
            EntityState::Active => {
                if !reached {
                    self.state = EntityState::PendingDeactivation {
                        deactivation_start_slot: clock.slot,
                    };
                }
            },
        }
    }

    /// Adds to the stake intent of one class, then re-evaluates the state.
    pub fn add_stake_intent(
        &mut self,
        amount: u64,
        mega: bool,
        registrar: &Registrar,
        clock: &Clock,
    ) -> (r: Result<(), RegistryError>)
        ensures
            old(self).balances.intent_of(mega) + amount > u64::MAX ==> r == Err::<
                (),
                RegistryError,
            >(RegistryError::ArithmeticOverflow) && *final(self) == *old(self),
            old(self).balances.intent_of(mega) + amount <= u64::MAX ==> r is Ok && *final(self)
                == rebalance_spec(
                *old(self),
                old(self).balances.with_intent(mega, old(self).balances.intent_of(mega) + amount),
                *registrar,
                *clock,
            ),
    {
        if mega {
            if self.balances.mega_stake_intent > u64::MAX - amount {
                return Err(RegistryError::ArithmeticOverflow);
            }
            self.balances.mega_stake_intent = self.balances.mega_stake_intent + amount;
        } else {
            if self.balances.stake_intent > u64::MAX - amount {
                return Err(RegistryError::ArithmeticOverflow);
            }
            self.balances.stake_intent = self.balances.stake_intent + amount;
        }
        self.transition_activation_if_needed(registrar, clock);
        Ok(())
    }
    /// Takes from the stake intent of one class, then re-evaluates the state.
    pub fn sub_stake_intent(
        &mut self,
        amount: u64,
        mega: bool,
        registrar: &Registrar,
        clock: &Clock,
    ) -> (r: Result<(), RegistryError>)
        ensures
            amount > old(self).balances.intent_of(mega) ==> r == Err::<(), RegistryError>(
                RegistryError::InsufficientBalance,
            ) && *final(self) == *old(self),
            amount <= old(self).balances.intent_of(mega) ==> r is Ok && *final(self)
                == rebalance_spec(
                *old(self),
                old(self).balances.with_intent(mega, old(self).balances.intent_of(mega) - amount),
                *registrar,
                *clock,
            ),
    {
        if mega {
            if amount > self.balances.mega_stake_intent {
                return Err(RegistryError::InsufficientBalance);
            }
            self.balances.mega_stake_intent = self.balances.mega_stake_intent - amount;
        } else {
            if amount > self.balances.stake_intent {
                return Err(RegistryError::InsufficientBalance);
            }
            self.balances.stake_intent = self.balances.stake_intent - amount;
        }
        self.transition_activation_if_needed(registrar, clock);
        Ok(())
    }

    /// Records stake of one class, then re-evaluates the state. Like a
    /// deposit, it is counted in the stake intent of that class.
    pub fn add_stake(
        &mut self,
        amount: u64,
        is_mega: bool,
        registrar: &Registrar,
        clock: &Clock,
    ) -> (r: Result<(), RegistryError>)
        ensures
            old(self).balances.intent_of(is_mega) + amount > u64::MAX ==> r == Err::<
                (),
                RegistryError,
            >(RegistryError::ArithmeticOverflow) && *final(self) == *old(self),
            old(self).balances.intent_of(is_mega) + amount <= u64::MAX ==> r is Ok && *final(self)
                == rebalance_spec(
                *old(self),
                old(self).balances.with_intent(
                    is_mega,
                    old(self).balances.intent_of(is_mega) + amount,
                ),
                *registrar,
                *clock,
            ),
    {
        self.add_stake_intent(amount, is_mega, registrar, clock)
    }

    /// Moves settled stake of one class to its pending withdrawals, then
    /// re-evaluates the state.
    pub fn transfer_pending_withdrawal(
        &mut self,
        amount: u64,
        mega: bool,
        registrar: &Registrar,
        clock: &Clock,
    ) -> (r: Result<(), RegistryError>)
        ensures
            amount > old(self).balances.amount_of(mega) ==> r == Err::<(), RegistryError>(
                RegistryError::InsufficientBalance,
            ) && *final(self) == *old(self),
            amount <= old(self).balances.amount_of(mega) && old(self).balances.pending_of(mega)
                + amount > u64::MAX ==> r == Err::<(), RegistryError>(
                RegistryError::ArithmeticOverflow,
            ) && *final(self) == *old(self),
            amount <= old(self).balances.amount_of(mega) && old(self).balances.pending_of(mega)
                + amount <= u64::MAX ==> r is Ok && *final(self) == rebalance_spec(
                *old(self),
                old(self).balances.with_withdrawal(mega, amount as int),
                *registrar,
                *clock,
            ),
    {
        if mega {
            if amount > self.balances.mega_amount {
                return Err(RegistryError::InsufficientBalance);
            }
            if self.balances.mega_pending_withdrawals > u64::MAX - amount {
                return Err(RegistryError::ArithmeticOverflow);
            }
            self.balances.mega_amount = self.balances.mega_amount - amount;
            self.balances.mega_pending_withdrawals = self.balances.mega_pending_withdrawals
                + amount;
        } else {
            if amount > self.balances.amount {
                return Err(RegistryError::InsufficientBalance);
            }
            if self.balances.pending_withdrawals > u64::MAX - amount {
                return Err(RegistryError::ArithmeticOverflow);
            }
            self.balances.amount = self.balances.amount - amount;
            self.balances.pending_withdrawals = self.balances.pending_withdrawals + amount;
        }
        self.transition_activation_if_needed(registrar, clock);
        Ok(())
    }
}

/// Every balance is non-negative: the fields are unsigned, and every
/// operation that would take a field below zero is refused with
/// `InsufficientBalance` instead of wrapping.
pub proof fn lemma_balances_non_negative(b: Balances)
    ensures
        b.amount >= 0,
        b.mega_amount >= 0,
        b.stake_intent >= 0,
        b.mega_stake_intent >= 0,
        b.pending_withdrawals >= 0,
        b.mega_pending_withdrawals >= 0,
        b.activation_amount_spec() >= 0,
{
}

/// Whether the state machine, from a deactivation whose window has passed,
/// would turn the entity Inactive although its stake meets the threshold;
/// the next evaluation would then activate it again.
pub open spec fn expired_but_reached(e: Entity, registrar: Registrar, clock: Clock) -> bool {
    match e.state {
        EntityState::PendingDeactivation { deactivation_start_slot } => clock.slot
            > deactivation_start_slot + registrar.deactivation_timelock_spec()
            && e.balances.activation_amount_spec() >= registrar.reward_activation_threshold,
        _ => false,
    }
}

/// Evaluating the state machine twice with the same registrar and clock
/// gives the same entity as evaluating it once, except from an expired
/// deactivation whose stake meets the threshold.
pub proof fn lemma_transition_idempotent(e: Entity, registrar: Registrar, clock: Clock)
    requires
        !expired_but_reached(e, registrar, clock),
    ensures
        transition_spec(transition_spec(e, registrar, clock), registrar, clock)
            == transition_spec(e, registrar, clock),
{
    reveal(transition_spec);
}

/// An evaluation of the state machine keeps the balances, never lowers the
/// generation, and raises it only on a move from Inactive to Active.
pub proof fn lemma_transition_generation(e: Entity, registrar: Registrar, clock: Clock)
    ensures
        transition_spec(e, registrar, clock).balances == e.balances,
        transition_spec(e, registrar, clock).generation >= e.generation,
        transition_spec(e, registrar, clock).generation != e.generation ==> e.state
            == EntityState::Inactive && transition_spec(e, registrar, clock).state
            == EntityState::Active,
{
    reveal(transition_spec);
}

/// Whether each entity of `states` comes from the one before by setting the
/// given balances and evaluating the state machine, as every
/// balance-changing method of `Entity` does (a bare evaluation keeps the
/// balances).
pub open spec fn is_run(
    states: Seq<Entity>,
    balances: Seq<Balances>,
    registrars: Seq<Registrar>,
    clocks: Seq<Clock>,
) -> bool {
    &&& states.len() >= 1
    &&& balances.len() == states.len() - 1
    &&& registrars.len() == states.len() - 1
    &&& clocks.len() == states.len() - 1
    &&& forall|k: int|
        0 <= k < states.len() - 1 ==> states[k + 1] == rebalance_spec(
            states[k],
            #[trigger] balances[k],
            registrars[k],
            clocks[k],
        )
}

proof fn lemma_run_step(
    states: Seq<Entity>,
    balances: Seq<Balances>,
    registrars: Seq<Registrar>,
    clocks: Seq<Clock>,
    k: int,
)
    requires
        is_run(states, balances, registrars, clocks),
        0 <= k < states.len() - 1,
    ensures
        states[k + 1].generation >= states[k].generation,
        states[k + 1].generation != states[k].generation ==> states[k].state
            == EntityState::Inactive && states[k + 1].state == EntityState::Active,
{
    assert(states[k + 1] == rebalance_spec(states[k], balances[k], registrars[k], clocks[k]));
    lemma_transition_generation(
        Entity { balances: balances[k], ..states[k] },
        registrars[k],
        clocks[k],
    );
}

proof fn lemma_run_ordered(
    states: Seq<Entity>,
    balances: Seq<Balances>,
    registrars: Seq<Registrar>,
    clocks: Seq<Clock>,
    i: int,
    j: int,
)
    requires
        is_run(states, balances, registrars, clocks),
        0 <= i <= j < states.len(),
    ensures
        states[i].generation <= states[j].generation,
    decreases j - i,
{
    if i < j {
        lemma_run_ordered(states, balances, registrars, clocks, i, j - 1);
        lemma_run_step(states, balances, registrars, clocks, j - 1);
    }
}

/// Over any run of operations, the generation never decreases, and each
/// step that raises it moves the entity from Inactive to Active.
pub proof fn lemma_generation_monotonic(
    states: Seq<Entity>,
    balances: Seq<Balances>,
    registrars: Seq<Registrar>,
    clocks: Seq<Clock>,
)
    requires
        is_run(states, balances, registrars, clocks),
    ensures
        forall|i: int, j: int|
            0 <= i <= j < states.len() ==> #[trigger] states[i].generation
                <= #[trigger] states[j].generation,
        forall|k: int|
            0 <= k < states.len() - 1 && states[k + 1].generation != (
            #[trigger] states[k]).generation ==> states[k].state == EntityState::Inactive
                && states[k + 1].state == EntityState::Active,
{
    assert forall|i: int, j: int| 0 <= i <= j < states.len() implies #[trigger] states[i].generation
        <= #[trigger] states[j].generation by {
        lemma_run_ordered(states, balances, registrars, clocks, i, j);
    }
    assert forall|k: int|
        0 <= k < states.len() - 1 && states[k + 1].generation != (
        #[trigger] states[k]).generation implies states[k].state == EntityState::Inactive
        && states[k + 1].state == EntityState::Active by {
        lemma_run_step(states, balances, registrars, clocks, k);
    }
}

/// A mega deposit of `a` and a regular deposit of `b` raise the activation
/// amount by `a * MEGA_MULTIPLIER + b`, in either order.
pub proof fn lemma_deposit_order(
    e: Entity,
    a: u64,
    b: u64,
    registrar: Registrar,
    first: Clock,
    second: Clock,
)
    requires
        e.balances.mega_stake_intent + a <= u64::MAX,
        e.balances.stake_intent + b <= u64::MAX,
    ensures
        ({
            let m1 = rebalance_spec(
                e,
                e.balances.with_intent(true, e.balances.mega_stake_intent + a),
                registrar,
                first,
            );
            let m2 = rebalance_spec(
                m1,
                m1.balances.with_intent(false, m1.balances.stake_intent + b),
                registrar,
                second,
            );
            let r1 = rebalance_spec(
                e,
                e.balances.with_intent(false, e.balances.stake_intent + b),
                registrar,
                first,
            );
            let r2 = rebalance_spec(
                r1,
                r1.balances.with_intent(true, r1.balances.mega_stake_intent + a),
                registrar,
                second,
            );
            &&& m2.balances.activation_amount_spec() == e.balances.activation_amount_spec() + a
                * MEGA_MULTIPLIER + b
            &&& r2.balances.activation_amount_spec() == m2.balances.activation_amount_spec()
        }),
{
    let m1e = Entity {
        balances: e.balances.with_intent(true, e.balances.mega_stake_intent + a),
        ..e
    };
    lemma_transition_generation(m1e, registrar, first);
    let m1 = transition_spec(m1e, registrar, first);
    let m2e = Entity {
        balances: m1.balances.with_intent(false, m1.balances.stake_intent + b),
        ..m1
    };
    lemma_transition_generation(m2e, registrar, second);
    let r1e = Entity {
        balances: e.balances.with_intent(false, e.balances.stake_intent + b),
        ..e
    };
    lemma_transition_generation(r1e, registrar, first);
    let r1 = transition_spec(r1e, registrar, first);
    let r2e = Entity {
        balances: r1.balances.with_intent(true, r1.balances.mega_stake_intent + a),
        ..r1
    };
    lemma_transition_generation(r2e, registrar, second);
    assert((e.balances.mega_stake_intent + a) * MEGA_MULTIPLIER == e.balances.mega_stake_intent
        * MEGA_MULTIPLIER + a * MEGA_MULTIPLIER) by (nonlinear_arith);
}

} // verus!
