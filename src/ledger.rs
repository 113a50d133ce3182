use vstd::prelude::*;
use crate::entity::{lemma_transition_generation, rebalance_spec, Entity};
use crate::member::Member;
use crate::pubkey::Pubkey;
use crate::registrar::{Clock, Registrar};
use crate::stake_intent::deposit_overflows;

verus! {

/// Stake intent of one class held by a member, over both sub-ledgers.
pub open spec fn member_intent(m: Member, mega: bool) -> int {
    m.books.main.balances.intent_of(mega) + m.books.delegate.balances.intent_of(mega)
}

/// Stake intent of one class held by all the given members.
pub open spec fn total_intent(members: Seq<Member>, mega: bool) -> int
    decreases members.len(),
{
    if members.len() == 0 {
        0
    } else {
        total_intent(members.drop_last(), mega) + member_intent(members.last(), mega)
    }
}

/// Whether `members` are the members of the entity at `key`, and the
/// entity's aggregate stake intent, of each class, is the sum of theirs.
pub open spec fn aggregate_consistent(key: Pubkey, entity: Entity, members: Seq<Member>) -> bool {
    &&& forall|i: int| 0 <= i < members.len() ==> (#[trigger] members[i]).entity.bytes() == key.bytes()
    &&& entity.balances.stake_intent == total_intent(members, false)
    &&& entity.balances.mega_stake_intent == total_intent(members, true)
}

proof fn lemma_total_update(members: Seq<Member>, i: int, m: Member, mega: bool)
    requires
        0 <= i < members.len(),
    ensures
        total_intent(members.update(i, m), mega) == total_intent(members, mega) - member_intent(
            members[i],
            mega,
        ) + member_intent(m, mega),
    decreases members.len(),
{
    let n = members.len() - 1;
    let u = members.update(i, m);
    if i == n {
        assert(u.drop_last() =~= members.drop_last());
    } else {
        lemma_total_update(members.drop_last(), i, m, mega);
        assert(u.drop_last() =~= members.drop_last().update(i, m));
    }
}

/// A recorded deposit keeps the entity's aggregate equal to the sum over its
/// members: the member's sub-ledger and the entity gain the same amount.
pub proof fn lemma_deposit_keeps_aggregate(
    key: Pubkey,
    entity: Entity,
    members: Seq<Member>,
    i: int,
    amount: u64,
    is_mega: bool,
    is_delegate: bool,
    registrar: Registrar,
    clock: Clock,
)
    requires
        aggregate_consistent(key, entity, members),
        0 <= i < members.len(),
        !deposit_overflows(entity, members[i], amount, is_mega, is_delegate),
    ensures
        aggregate_consistent(
            key,
            rebalance_spec(
                entity,
                entity.balances.with_intent(is_mega, entity.balances.intent_of(is_mega) + amount),
                registrar,
                clock,
            ),
            members.update(i, members[i].add_stake_intent_spec(amount, is_mega, is_delegate)),
        ),
{
    let m = members[i].add_stake_intent_spec(amount, is_mega, is_delegate);
    let u = members.update(i, m);
    lemma_total_update(members, i, m, true);
    lemma_total_update(members, i, m, false);
    lemma_transition_generation(
        Entity {
            balances: entity.balances.with_intent(
                is_mega,
                entity.balances.intent_of(is_mega) + amount,
            ),
            ..entity
        },
        registrar,
        clock,
    );
    assert forall|j: int| 0 <= j < u.len() implies (#[trigger] u[j]).entity.bytes()
        == key.bytes() by {
        if j != i {
            assert(u[j] == members[j]);
        } else {
            assert(members[i].entity.bytes() == key.bytes());
        }
    }
}

} // verus!
