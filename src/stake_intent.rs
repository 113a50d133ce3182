use vstd::prelude::*;
use crate::access_control::{
    self,
    clock_check,
    entity_check,
    member_check,
    registrar_check,
    vault_check,
    AccountInfo,
};
use crate::entity::{rebalance_spec, Entity};
use crate::error::RegistryError;
use crate::member::Member;
use crate::pubkey::Pubkey;
use crate::registrar::{Clock, Registrar};

verus! {

/// The accounts a stake-intent request names.
#[derive(Clone, Copy, Debug)]
pub struct StakeIntentAccounts {
    /// Token account the deposit is taken from.
    pub depositor: AccountInfo,
    /// Custodial vault the deposit goes to.
    pub vault: AccountInfo,
    /// Authority of the depositor's token account.
    pub depositor_authority: AccountInfo,
    pub token_program: AccountInfo,
    pub member: AccountInfo,
    /// The member's beneficiary or delegate.
    pub member_authority: AccountInfo,
    pub entity: AccountInfo,
    pub registrar: AccountInfo,
    pub clock: AccountInfo,
}

/// A token transfer for the fund ledger to carry out.
#[derive(Clone, Copy, Debug)]
pub struct Transfer {
    pub from: Pubkey,
    pub to: Pubkey,
    pub authority: Pubkey,
    pub amount: u64,
}

/// The checks of a stake-intent request on its accounts, in order; the first
/// that fails gives the error.
pub open spec fn access_control_check(
    program_id: Pubkey,
    accounts: StakeIntentAccounts,
    registrar: Registrar,
    entity: Entity,
    member: Member,
    is_mega: bool,
    is_delegate: bool,
) -> Result<(), RegistryError> {
    let reg = registrar_check(accounts.registrar, registrar, program_id);
    let ent = entity_check(accounts.entity, entity, accounts.registrar, program_id);
    let mem = member_check(
        accounts.member,
        member,
        accounts.entity,
        accounts.member_authority,
        is_delegate,
        program_id,
    );
    if !accounts.depositor_authority.is_signer {
        Err(RegistryError::Unauthorized)
    } else if reg is Err {
        reg
    } else if ent is Err {
        ent
    } else if mem is Err {
        mem
    } else {
        vault_check(accounts.vault, registrar, is_mega)
    }
}

/// Whether recording a deposit of `amount` would overflow the member's
/// sub-ledger or the entity's aggregate.
pub open spec fn deposit_overflows(
    entity: Entity,
    member: Member,
    amount: u64,
    is_mega: bool,
    is_delegate: bool,
) -> bool {
    member.intent_of(is_mega, is_delegate) + amount > u64::MAX
        || entity.balances.intent_of(is_mega) + amount > u64::MAX
}

/// Everything a stake-intent request must pass before any funds move.
pub open spec fn plan_check(
    program_id: Pubkey,
    accounts: StakeIntentAccounts,
    clock_sysvar_id: Pubkey,
    registrar: Registrar,
    entity: Entity,
    member: Member,
    amount: u64,
    is_mega: bool,
    is_delegate: bool,
) -> Result<(), RegistryError> {
    let ac = access_control_check(
        program_id,
        accounts,
        registrar,
        entity,
        member,
        is_mega,
        is_delegate,
    );
    if ac is Err {
        ac
    } else if clock_check(accounts.clock, clock_sysvar_id) is Err {
        clock_check(accounts.clock, clock_sysvar_id)
    } else if deposit_overflows(entity, member, amount, is_mega, is_delegate) {
        Err(RegistryError::ArithmeticOverflow)
    } else {
        Ok(())
    }
}

/// Whether a deposit of `amount` fits both in the member's sub-ledger and in
/// the entity's aggregate.
fn deposit_fits(entity: &Entity, member: &Member, amount: u64, is_mega: bool, is_delegate: bool) -> (r:
    bool)
    ensures
        r == !deposit_overflows(*entity, *member, amount, is_mega, is_delegate),
{
    let book = member.books.book(is_delegate);
    let (member_intent, entity_intent) = if is_mega {
        (book.balances.mega_stake_intent, entity.balances.mega_stake_intent)
    } else {
        (book.balances.stake_intent, entity.balances.stake_intent)
    };
    member_intent <= u64::MAX - amount && entity_intent <= u64::MAX - amount
}

/// Authorizes a stake-intent request: the depositor authority signed, and
/// the registrar, entity, member and vault are the right ones.
pub fn access_control(
    program_id: &Pubkey,
    accounts: &StakeIntentAccounts,
    registrar: &Registrar,
    entity: &Entity,
    member: &Member,
    is_mega: bool,
    is_delegate: bool,
) -> (r: Result<(), RegistryError>)
    ensures
        r == access_control_check(
            *program_id,
            *accounts,
            *registrar,
            *entity,
            *member,
            is_mega,
            is_delegate,
        ),
{
    if !accounts.depositor_authority.is_signer {
        return Err(RegistryError::Unauthorized);
    }
    let registrar = access_control::registrar(&accounts.registrar, registrar, program_id)?;
    let _ = access_control::entity(&accounts.entity, entity, &accounts.registrar, program_id)?;
    let _ = access_control::member(
        &accounts.member,
        member,
        &accounts.entity,
        &accounts.member_authority,
        is_delegate,
        program_id,
    )?;
    access_control::vault(&accounts.vault, &registrar, is_mega)
}

/// Validates a stake-intent request, and gives the transfer that must
/// succeed before the deposit is recorded. Nothing is changed.
pub fn plan(
    program_id: &Pubkey,
    accounts: &StakeIntentAccounts,
    clock_sysvar_id: &Pubkey,
    registrar: &Registrar,
    entity: &Entity,
    member: &Member,
    amount: u64,
    is_mega: bool,
    is_delegate: bool,
) -> (r: Result<Transfer, RegistryError>)
    ensures
        r == access_control::accept(
            plan_check(
                *program_id,
                *accounts,
                *clock_sysvar_id,
                *registrar,
                *entity,
                *member,
                amount,
                is_mega,
                is_delegate,
            ),
            (Transfer {
                from: accounts.depositor.key,
                to: accounts.vault.key,
                authority: accounts.depositor_authority.key,
                amount,
            }),
        ),
{
    access_control(program_id, accounts, registrar, entity, member, is_mega, is_delegate)?;
    if !accounts.clock.key.same(clock_sysvar_id) {
        return Err(RegistryError::InvalidClockSysvar);
    }
    if !deposit_fits(entity, member, amount, is_mega, is_delegate) {
        return Err(RegistryError::ArithmeticOverflow);
    }
    Ok(
        Transfer {
            from: accounts.depositor.key,
            to: accounts.vault.key,
            authority: accounts.depositor_authority.key,
            amount,
        },
    )
}

/// Records a deposit of `amount` as stake intent of the chosen class, in the
/// member's chosen sub-ledger and in the entity's aggregate, once the fund
/// ledger has carried out the transfer (`transferred`). When the transfer
/// failed, or the deposit would overflow, nothing changes.
pub fn state_transition(
    entity: &mut Entity,
    member: &mut Member,
    amount: u64,
    registrar: &Registrar,
    clock: &Clock,
    is_delegate: bool,
    is_mega: bool,
    transferred: bool,
) -> (r: Result<(), RegistryError>)
    ensures
        deposit_overflows(*old(entity), *old(member), amount, is_mega, is_delegate) ==> r == Err::<
            (),
            RegistryError,
        >(RegistryError::ArithmeticOverflow),
        !deposit_overflows(*old(entity), *old(member), amount, is_mega, is_delegate)
            && !transferred ==> r == Err::<(), RegistryError>(
            RegistryError::ExternalTransferFailed,
        ),
        r is Err ==> *final(entity) == *old(entity) && *final(member) == *old(member),
        r is Ok <==> !deposit_overflows(*old(entity), *old(member), amount, is_mega, is_delegate)
            && transferred,
        r is Ok ==> *final(member) == old(member).add_stake_intent_spec(
            amount,
            is_mega,
            is_delegate,
        ) && *final(entity) == rebalance_spec(
            *old(entity),
            old(entity).balances.with_intent(is_mega, old(entity).balances.intent_of(is_mega) + amount),
            *registrar,
            *clock,
        ),
{
    if !deposit_fits(entity, member, amount, is_mega, is_delegate) {
        return Err(RegistryError::ArithmeticOverflow);
    }
    if !transferred {
        return Err(RegistryError::ExternalTransferFailed);
    }
    let m = member.add_stake_intent(amount, is_mega, is_delegate);
    let e = entity.add_stake_intent(amount, is_mega, registrar, clock);
    assert(m is Ok && e is Ok);
    Ok(())
}

/// Processes a stake-intent request against the decoded registrar, entity
/// and member records and the clock reading. `transferred` is the outcome of
/// the transfer that `plan` gave for the same request. The request is
/// refused, with nothing changed, when a check fails or the transfer did
/// not go through; otherwise the deposit is recorded.
pub fn handler(
    program_id: &Pubkey,
    accounts: &StakeIntentAccounts,
    clock_sysvar_id: &Pubkey,
    registrar: &Registrar,
    entity: &mut Entity,
    member: &mut Member,
    clock: &Clock,
    amount: u64,
    is_mega: bool,
    is_delegate: bool,
    transferred: bool,
) -> (r: Result<(), RegistryError>)
    ensures
        ({
            let check = plan_check(
                *program_id,
                *accounts,
                *clock_sysvar_id,
                *registrar,
                *old(entity),
                *old(member),
                amount,
                is_mega,
                is_delegate,
            );
            &&& check is Err ==> r == check
            &&& check is Ok && !transferred ==> r == Err::<(), RegistryError>(
                RegistryError::ExternalTransferFailed,
            )
            &&& r is Err ==> *final(entity) == *old(entity) && *final(member) == *old(member)
            &&& r is Ok <==> check is Ok && transferred
            &&& r is Ok ==> *final(member) == old(member).add_stake_intent_spec(
                amount,
                is_mega,
                is_delegate,
            ) && *final(entity) == rebalance_spec(
                *old(entity),
                old(entity).balances.with_intent(
                    is_mega,
                    old(entity).balances.intent_of(is_mega) + amount,
                ),
                *registrar,
                *clock,
            )
        }),
{
    let _ = plan(
        program_id,
        accounts,
        clock_sysvar_id,
        registrar,
        entity,
        member,
        amount,
        is_mega,
        is_delegate,
    )?;
    state_transition(entity, member, amount, registrar, clock, is_delegate, is_mega, transferred)
}

/// Each of the five checks of a stake-intent request refuses it with its own
/// error when the checks before it pass: the depositor authority's
/// signature, the registrar, the entity, the member and its authority, and
/// the vault. A request that passes all five is authorized. A refused
/// request fails before the transfer, so `handler` changes nothing.
pub proof fn lemma_access_control_complete(
    program_id: Pubkey,
    accounts: StakeIntentAccounts,
    clock_sysvar_id: Pubkey,
    registrar: Registrar,
    entity: Entity,
    member: Member,
    amount: u64,
    is_mega: bool,
    is_delegate: bool,
)
    ensures
        ({
            let ac = access_control_check(
                program_id,
                accounts,
                registrar,
                entity,
                member,
                is_mega,
                is_delegate,
            );
            let reg = registrar_check(accounts.registrar, registrar, program_id);
            let ent = entity_check(accounts.entity, entity, accounts.registrar, program_id);
            let mem = member_check(
                accounts.member,
                member,
                accounts.entity,
                accounts.member_authority,
                is_delegate,
                program_id,
            );
            let vlt = vault_check(accounts.vault, registrar, is_mega);
            &&& !accounts.depositor_authority.is_signer ==> ac == Err::<(), RegistryError>(
                RegistryError::Unauthorized,
            )
            &&& accounts.depositor_authority.is_signer && reg is Err ==> ac == reg
            &&& accounts.depositor_authority.is_signer && reg is Ok && ent is Err ==> ac == ent
            &&& accounts.depositor_authority.is_signer && reg is Ok && ent is Ok && mem is Err
                ==> ac == mem
            &&& accounts.depositor_authority.is_signer && reg is Ok && ent is Ok && mem is Ok
                && vlt is Err ==> ac == Err::<(), RegistryError>(
                RegistryError::RegistrarVaultMismatch,
            )
            &&& accounts.depositor_authority.is_signer && reg is Ok && ent is Ok && mem is Ok
                && vlt is Ok ==> ac is Ok
            &&& ac is Err ==> plan_check(
                program_id,
                accounts,
                clock_sysvar_id,
                registrar,
                entity,
                member,
                amount,
                is_mega,
                is_delegate,
            ) == ac
        }),
{
}

} // verus!
