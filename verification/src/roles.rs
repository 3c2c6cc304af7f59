use vstd::prelude::*;

use crate::address::Address;
use crate::account::Account;

verus! {

/// The number of account roles the processor binds, in order.
pub const ROLE_COUNT: usize = 10;

/// The named roles of the call's account list. Each role is bound to one
/// position of the incoming list; there is no name-based lookup.
#[derive(Clone, Copy, PartialEq, Eq, Structural, Debug)]
pub enum Role {
    Payer,
    Mint,
    MintAuthority,
    UpdateAuthority,
    Metadata,
    MasterEdition,
    MetadataProgram,
    TokenProgram,
    SystemProgram,
    RentSysvar,
}

/// The role bound to position `i` of the incoming account list.
pub open spec fn spec_role_at(i: int) -> Role {
    if i == 0 {
        Role::Payer
    } else if i == 1 {
        Role::Mint
    } else if i == 2 {
        Role::MintAuthority
    } else if i == 3 {
        Role::UpdateAuthority
    } else if i == 4 {
        Role::Metadata
    } else if i == 5 {
        Role::MasterEdition
    } else if i == 6 {
        Role::MetadataProgram
    } else if i == 7 {
        Role::TokenProgram
    } else if i == 8 {
        Role::SystemProgram
    } else {
        Role::RentSysvar
    }
}

/// The position of the incoming account list that a role is bound from.
pub open spec fn spec_role_index(r: Role) -> int {
    match r {
        Role::Payer => 0,
        Role::Mint => 1,
        Role::MintAuthority => 2,
        Role::UpdateAuthority => 3,
        Role::Metadata => 4,
        Role::MasterEdition => 5,
        Role::MetadataProgram => 6,
        Role::TokenProgram => 7,
        Role::SystemProgram => 8,
        Role::RentSysvar => 9,
    }
}

/// The role bound to position `i`, as executable code.
pub fn role_at(i: usize) -> (r: Role)
    requires
        i < ROLE_COUNT,
    ensures
        r == spec_role_at(i as int),
{
    if i == 0 {
        Role::Payer
    } else if i == 1 {
        Role::Mint
    } else if i == 2 {
        Role::MintAuthority
    } else if i == 3 {
        Role::UpdateAuthority
    } else if i == 4 {
        Role::Metadata
    } else if i == 5 {
        Role::MasterEdition
    } else if i == 6 {
        Role::MetadataProgram
    } else if i == 7 {
        Role::TokenProgram
    } else if i == 8 {
        Role::SystemProgram
    } else {
        Role::RentSysvar
    }
}

/// The addresses bound to each role, in the order they were received.
#[derive(Clone, Copy, PartialEq, Eq, Structural, Debug)]
pub struct RoleSet {
    pub payer: Address,
    pub mint: Address,
    pub mint_authority: Address,
    pub update_authority: Address,
    pub metadata: Address,
    pub master_edition: Address,
    pub metadata_program: Address,
    pub token_program: Address,
    pub system_program: Address,
    pub rent_sysvar: Address,
}

/// The role set that positional binding yields from an account list of at
/// least `ROLE_COUNT` entries.
pub open spec fn spec_bind(accounts: Seq<Account>) -> RoleSet
    recommends
        accounts.len() >= ROLE_COUNT,
{
    RoleSet {
        payer: accounts[0].key,
        mint: accounts[1].key,
        mint_authority: accounts[2].key,
        update_authority: accounts[3].key,
        metadata: accounts[4].key,
        master_edition: accounts[5].key,
        metadata_program: accounts[6].key,
        token_program: accounts[7].key,
        system_program: accounts[8].key,
        rent_sysvar: accounts[9].key,
    }
}

/// Binds the call's accounts to roles, strictly left to right. Fails closed
/// with the first unmet role when the list is shorter than the schema.
pub fn bind_accounts(accounts: &Vec<Account>) -> (r: Result<RoleSet, crate::error::ProcError>)
    ensures
        accounts@.len() >= ROLE_COUNT ==> r == Ok::<RoleSet, crate::error::ProcError>(
            spec_bind(accounts@),
        ),
        accounts@.len() < ROLE_COUNT ==> r == Err::<RoleSet, crate::error::ProcError>(
            crate::error::ProcError::MissingAccount(spec_role_at(accounts@.len() as int)),
        ),
{
    if accounts.len() < ROLE_COUNT {
        return Err(crate::error::ProcError::MissingAccount(role_at(accounts.len())));
    }
    Ok(RoleSet {
        payer: accounts[0].key,
        mint: accounts[1].key,
        mint_authority: accounts[2].key,
        update_authority: accounts[3].key,
        metadata: accounts[4].key,
        master_edition: accounts[5].key,
        metadata_program: accounts[6].key,
        token_program: accounts[7].key,
        system_program: accounts[8].key,
        rent_sysvar: accounts[9].key,
    })
}

/// The order in which the bound accounts are handed to the registry program
/// for both cross-program invocations. This ordering is a hard external
/// contract of the registry, not an internal choice.
pub open spec fn spec_cpi_account_order() -> Seq<Role> {
    seq![
        Role::Metadata,
        Role::MasterEdition,
        Role::MetadataProgram,
        Role::Mint,
        Role::MintAuthority,
        Role::UpdateAuthority,
        Role::Payer,
        Role::SystemProgram,
        Role::RentSysvar,
        Role::TokenProgram,
    ]
}

/// The positions of the incoming account list, in the order the registry
/// program expects the accounts for both invocations.
pub fn cpi_account_indices() -> (r: Vec<usize>)
    ensures
        r@.len() == spec_cpi_account_order().len(),
        forall|i: int|
            0 <= i < r@.len() ==> r@[i] == spec_role_index(#[trigger] spec_cpi_account_order()[i]),
        forall|i: int| 0 <= i < r@.len() ==> #[trigger] r@[i] < ROLE_COUNT,
{
    let mut v: Vec<usize> = Vec::new();
    v.push(4);
    v.push(5);
    v.push(6);
    v.push(1);
    v.push(2);
    v.push(3);
    v.push(0);
    v.push(8);
    v.push(9);
    v.push(7);
    proof {
        assert(v@ =~= seq![4usize, 5, 6, 1, 2, 3, 0, 8, 9, 7]);
    }
    v
}

} // verus!
