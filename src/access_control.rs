use vstd::prelude::*;
use crate::entity::Entity;
use crate::error::RegistryError;
use crate::member::Member;
use crate::pubkey::Pubkey;
use crate::registrar::{Clock, Registrar};
use crate::vault::{program_address, signer_seeds_spec, vault_authority};

verus! {

/// What a request says about one account it names.
#[derive(Clone, Copy, Debug)]
pub struct AccountInfo {
    /// The account's address.
    pub key: Pubkey,
    /// The program that owns the account.
    pub owner: Pubkey,
    /// Whether the account's key signed the request.
    pub is_signer: bool,
}

/// The fields of a token account that the registry reads.
#[derive(Clone, Copy, Debug)]
pub struct TokenAccount {
    pub mint: Pubkey,
    /// The authority allowed to move the account's funds.
    pub owner: Pubkey,
    pub amount: u64,
    /// Whether the token program has initialized the account.
    pub initialized: bool,
}

/// `v` if the check `c` passed, else the check's error.
pub open spec fn accept<T>(c: Result<(), RegistryError>, v: T) -> Result<T, RegistryError> {
    match c {
        Ok(_) => Ok(v),
        Err(e) => Err(e),
    }
}

pub open spec fn governance_check(
    program_id: Pubkey,
    registrar_acc_info: AccountInfo,
    registrar: Registrar,
    registrar_authority_acc_info: AccountInfo,
) -> Result<(), RegistryError> {
    if !registrar_authority_acc_info.is_signer {
        Err(RegistryError::Unauthorized)
    } else if registrar_check(registrar_acc_info, registrar, program_id) is Err {
        registrar_check(registrar_acc_info, registrar, program_id)
    } else if registrar.authority.bytes() != registrar_authority_acc_info.key.bytes() {
        Err(RegistryError::Unauthorized)
    } else {
        Ok(())
    }
}

pub open spec fn clock_check(acc_info: AccountInfo, clock_sysvar_id: Pubkey) -> Result<
    (),
    RegistryError,
> {
    if acc_info.key.bytes() != clock_sysvar_id.bytes() {
        Err(RegistryError::InvalidClockSysvar)
    } else {
        Ok(())
    }
}

pub open spec fn registrar_check(
    acc_info: AccountInfo,
    registrar: Registrar,
    program_id: Pubkey,
) -> Result<(), RegistryError> {
    if acc_info.owner.bytes() != program_id.bytes() {
        Err(RegistryError::InvalidAccountOwner)
    } else if !registrar.initialized {
        Err(RegistryError::NotInitialized)
    } else {
        Ok(())
    }
}

pub open spec fn entity_check(
    acc_info: AccountInfo,
    entity: Entity,
    registrar_acc_info: AccountInfo,
    program_id: Pubkey,
) -> Result<(), RegistryError> {
    if acc_info.owner.bytes() != program_id.bytes() {
        Err(RegistryError::InvalidAccountOwner)
    } else if !entity.initialized {
        Err(RegistryError::NotInitialized)
    } else if entity.registrar.bytes() != registrar_acc_info.key.bytes() {
        Err(RegistryError::EntityRegistrarMismatch)
    } else {
        Ok(())
    }
}

pub open spec fn member_check(
    acc_info: AccountInfo,
    member: Member,
    entity_acc_info: AccountInfo,
    authority_acc_info: AccountInfo,
    is_delegate: bool,
    program_id: Pubkey,
) -> Result<(), RegistryError> {
    if acc_info.owner.bytes() != program_id.bytes() {
        Err(RegistryError::InvalidAccountOwner)
    } else if !member.initialized {
        Err(RegistryError::NotInitialized)
    } else if member.entity.bytes() != entity_acc_info.key.bytes() {
        Err(RegistryError::MemberEntityMismatch)
    } else if is_delegate && authority_acc_info.key.bytes()
        != member.books.delegate.owner.bytes() {
        Err(RegistryError::MemberDelegateMismatch)
    } else if !is_delegate && authority_acc_info.key.bytes() != member.beneficiary.bytes() {
        Err(RegistryError::MemberBeneficiaryMismatch)
    } else {
        Ok(())
    }
}

pub open spec fn vault_check(acc_info: AccountInfo, registrar: Registrar, is_mega: bool) -> Result<
    (),
    RegistryError,
> {
    let expected = if is_mega {
        registrar.mega_vault
    } else {
        registrar.vault
    };
    if expected.bytes() != acc_info.key.bytes() {
        Err(RegistryError::RegistrarVaultMismatch)
    } else {
        Ok(())
    }
}

pub open spec fn token_check(
    acc_info: AccountInfo,
    token: TokenAccount,
    token_program_id: Pubkey,
) -> Result<(), RegistryError> {
    if acc_info.owner.bytes() != token_program_id.bytes() {
        Err(RegistryError::InvalidAccountOwner)
    } else if !token.initialized {
        Err(RegistryError::NotInitialized)
    } else {
        Ok(())
    }
}

pub open spec fn rent_check(acc_info: AccountInfo, rent_sysvar_id: Pubkey) -> Result<
    (),
    RegistryError,
> {
    if acc_info.key.bytes() != rent_sysvar_id.bytes() {
        Err(RegistryError::InvalidRentSysvar)
    } else {
        Ok(())
    }
}

/// The bytes of a key, if there is one.
pub open spec fn key_bytes(k: Option<Pubkey>) -> Option<Seq<u8>> {
    match k {
        Some(k) => Some(k.bytes()),
        None => None,
    }
}

pub open spec fn vault_init_check(
    vault_acc_info: AccountInfo,
    vault: TokenAccount,
    token_program_id: Pubkey,
    vault_authority: Option<Seq<u8>>,
    rent_exempt: bool,
) -> Result<(), RegistryError> {
    if token_check(vault_acc_info, vault, token_program_id) is Err {
        token_check(vault_acc_info, vault, token_program_id)
    } else {
        match vault_authority {
            None => Err(RegistryError::InvalidVaultNonce),
            Some(a) => if vault.owner.bytes() != a {
                Err(RegistryError::InvalidVaultAuthority)
            } else if !rent_exempt {
                Err(RegistryError::NotRentExempt)
            } else {
                Ok(())
            },
        }
    }
}

/// Checks that the registrar authority signed and is the registrar's
/// governance key, and that the registrar is valid.
pub fn governance(
    program_id: &Pubkey,
    registrar_acc_info: &AccountInfo,
    registrar_data: &Registrar,
    registrar_authority_acc_info: &AccountInfo,
) -> (r: Result<Registrar, RegistryError>)
    ensures
        r == accept(
            governance_check(
                *program_id,
                *registrar_acc_info,
                *registrar_data,
                *registrar_authority_acc_info,
            ),
            *registrar_data,
        ),
{
    if !registrar_authority_acc_info.is_signer {
        return Err(RegistryError::Unauthorized);
    }
    let r = registrar(registrar_acc_info, registrar_data, program_id)?;
    if !r.authority.same(&registrar_authority_acc_info.key) {
        return Err(RegistryError::Unauthorized);
    }
    Ok(r)
}

/// Checks that the clock input is the clock sysvar, and hands its reading on.
pub fn clock(acc_info: &AccountInfo, clock_sysvar_id: &Pubkey, clock_data: &Clock) -> (r: Result<
    Clock,
    RegistryError,
>)
    ensures
        r == accept(clock_check(*acc_info, *clock_sysvar_id), *clock_data),
{
    if !acc_info.key.same(clock_sysvar_id) {
        return Err(RegistryError::InvalidClockSysvar);
    }
    Ok(*clock_data)
}

/// Checks that the registrar record is owned by the program and initialized.
pub fn registrar(acc_info: &AccountInfo, registrar_data: &Registrar, program_id: &Pubkey) -> (r:
    Result<Registrar, RegistryError>)
    ensures
        r == accept(registrar_check(*acc_info, *registrar_data, *program_id), *registrar_data),
{
    if !acc_info.owner.same(program_id) {
        return Err(RegistryError::InvalidAccountOwner);
    }
    if !registrar_data.initialized {
        return Err(RegistryError::NotInitialized);
    }
    Ok(*registrar_data)
}

/// Checks that the entity record is owned by the program, initialized, and
/// belongs to the given registrar.
pub fn entity(
    acc_info: &AccountInfo,
    entity_data: &Entity,
    registrar_acc_info: &AccountInfo,
    program_id: &Pubkey,
) -> (r: Result<Entity, RegistryError>)
    ensures
        r == accept(
            entity_check(*acc_info, *entity_data, *registrar_acc_info, *program_id),
            *entity_data,
        ),
{
    if !acc_info.owner.same(program_id) {
        return Err(RegistryError::InvalidAccountOwner);
    }
    if !entity_data.initialized {
        return Err(RegistryError::NotInitialized);
    }
    if !entity_data.registrar.same(&registrar_acc_info.key) {
        return Err(RegistryError::EntityRegistrarMismatch);
    }
    Ok(*entity_data)
}

/// Checks that the member record is owned by the program, initialized,
/// belongs to the given entity, and that the authority is its delegate (when
/// `is_delegate`) or its beneficiary.
pub fn member(
    acc_info: &AccountInfo,
    member_data: &Member,
    entity_acc_info: &AccountInfo,
    authority_acc_info: &AccountInfo,
    is_delegate: bool,
    program_id: &Pubkey,
) -> (r: Result<Member, RegistryError>)
    ensures
        r == accept(
            member_check(
                *acc_info,
                *member_data,
                *entity_acc_info,
                *authority_acc_info,
                is_delegate,
                *program_id,
            ),
            *member_data,
        ),
{
    if !acc_info.owner.same(program_id) {
        return Err(RegistryError::InvalidAccountOwner);
    }
    if !member_data.initialized {
        return Err(RegistryError::NotInitialized);
    }
    if !member_data.entity.same(&entity_acc_info.key) {
        return Err(RegistryError::MemberEntityMismatch);
    }
    if is_delegate && !authority_acc_info.key.same(&member_data.books.delegate().owner) {
        return Err(RegistryError::MemberDelegateMismatch);
    } else if !is_delegate && !authority_acc_info.key.same(&member_data.beneficiary) {
        return Err(RegistryError::MemberBeneficiaryMismatch);
    }
    Ok(*member_data)
}

/// Checks that the vault is the registrar's vault of the chosen stake class.
pub fn vault(acc_info: &AccountInfo, registrar: &Registrar, is_mega: bool) -> (r: Result<
    (),
    RegistryError,
>)
    ensures
        r == vault_check(*acc_info, *registrar, is_mega),
{
    if is_mega && !registrar.mega_vault.same(&acc_info.key) {
        return Err(RegistryError::RegistrarVaultMismatch);
    } else if !is_mega && !registrar.vault.same(&acc_info.key) {
        return Err(RegistryError::RegistrarVaultMismatch);
    }
    Ok(())
}

/// Checks that a token account is owned by the token program and initialized.
pub fn token(acc_info: &AccountInfo, token_data: &TokenAccount, token_program_id: &Pubkey) -> (r:
    Result<TokenAccount, RegistryError>)
    ensures
        r == accept(token_check(*acc_info, *token_data, *token_program_id), *token_data),
{
    if !acc_info.owner.same(token_program_id) {
        return Err(RegistryError::InvalidAccountOwner);
    }
    if !token_data.initialized {
        return Err(RegistryError::NotInitialized);
    }
    Ok(*token_data)
}

/// Checks that the rent input is the rent sysvar.
pub fn rent(acc_info: &AccountInfo, rent_sysvar_id: &Pubkey) -> (r: Result<(), RegistryError>)
    ensures
        r == rent_check(*acc_info, *rent_sysvar_id),
{
    if !acc_info.key.same(rent_sysvar_id) {
        return Err(RegistryError::InvalidRentSysvar);
    }
    Ok(())
}

/// Checks a vault at registry initialization: a valid token account, owned by
/// the vault authority (`None` when no authority could be derived), holding
/// enough lamports to be rent exempt.
pub fn check_vault_init(
    vault_acc_info: &AccountInfo,
    vault_data: &TokenAccount,
    token_program_id: &Pubkey,
    vault_authority: Option<Pubkey>,
    rent_exempt: bool,
) -> (r: Result<(), RegistryError>)
    ensures
        r == vault_init_check(
            *vault_acc_info,
            *vault_data,
            *token_program_id,
            key_bytes(vault_authority),
            rent_exempt,
        ),
{
    let vault = token(vault_acc_info, vault_data, token_program_id)?;
    let vault_authority = match vault_authority {
        Some(a) => a,
        None => {
            return Err(RegistryError::InvalidVaultNonce);
        },
    };
    if !vault.owner.same(&vault_authority) {
        return Err(RegistryError::InvalidVaultAuthority);
    }
    if !rent_exempt {
        return Err(RegistryError::NotRentExempt);
    }
    Ok(())
}

/// Checks a vault at registry initialization against the authority derived
/// from the registrar's key and `nonce` under the registry program.
/// `rent_exempt` tells whether the vault account holds enough lamports to be
/// exempt from rent.
pub fn vault_init(
    vault_acc_info: &AccountInfo,
    vault_data: &TokenAccount,
    registrar_acc_info: &AccountInfo,
    rent_exempt: bool,
    nonce: u8,
    token_program_id: &Pubkey,
    program_id: &Pubkey,
) -> (r: Result<(), RegistryError>)
    ensures
        r == vault_init_check(
            *vault_acc_info,
            *vault_data,
            *token_program_id,
            program_address(signer_seeds_spec(registrar_acc_info.key, nonce), program_id.bytes()),
            rent_exempt,
        ),
{
    let authority = vault_authority(&registrar_acc_info.key, nonce, program_id);
    check_vault_init(vault_acc_info, vault_data, token_program_id, authority, rent_exempt)
}

} // verus!
