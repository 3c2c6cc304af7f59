use vstd::prelude::*;

use crate::address::Address;
use crate::payload::Payload;
use crate::roles::RoleSet;

verus! {

/// The fixed royalty handed to the registry with every metadata record.
pub const ROYALTY_BASIS_POINTS: u16 = 20;

/// The fixed number of additional prints allowed for a master edition.
pub const MAX_ADDITIONAL_PRINTS: u64 = 10;

/// One royalty attribution entry of a metadata record. Across a record's
/// creator list, the shares must sum to 100.
#[derive(Clone, Copy, PartialEq, Eq, Structural, Debug)]
pub struct Creator {
    pub address: Address,
    pub verified: bool,
    pub share: u8,
}

/// The sum of the shares of a creator list.
pub open spec fn spec_sum_shares(cs: Seq<Creator>) -> int
    decreases cs.len(),
{
    if cs.len() == 0 {
        0
    } else {
        spec_sum_shares(cs.drop_last()) + cs.last().share
    }
}

/// The metadata-creation call to the registry program: target, the account
/// roles it reads, and the argument record it encodes.
pub struct MetadataCreationRequest {
    pub target_program: Address,
    pub metadata_account: Address,
    pub mint: Address,
    pub mint_authority: Address,
    pub payer: Address,
    pub update_authority: Address,
    pub name: String,
    pub symbol: String,
    pub uri: String,
    pub creators: Vec<Creator>,
    pub seller_fee_basis_points: u16,
    pub update_authority_is_signer: bool,
    pub is_mutable: bool,
}

/// The master-edition-creation call to the registry program.
#[derive(Clone, Copy, PartialEq, Eq, Structural, Debug)]
pub struct MasterEditionCreationRequest {
    pub target_program: Address,
    pub edition_account: Address,
    pub mint: Address,
    pub update_authority: Address,
    pub mint_authority: Address,
    pub metadata_account: Address,
    pub payer: Address,
    pub max_supply: u64,
}

/// Holds when `r` is exactly the metadata-creation request owed for the given
/// bound roles and decoded fields: a single verified creator, the payer's
/// address, share 100, the fixed royalty, and both flags set.
pub open spec fn is_metadata_request_for(
    r: MetadataCreationRequest,
    roles: RoleSet,
    name: Seq<char>,
    symbol: Seq<char>,
    uri: Seq<char>,
) -> bool {
    &&& r.target_program == roles.metadata_program
    &&& r.metadata_account == roles.metadata
    &&& r.mint == roles.mint
    &&& r.mint_authority == roles.mint_authority
    &&& r.payer == roles.payer
    &&& r.update_authority == roles.update_authority
    &&& r.name@ == name
    &&& r.symbol@ == symbol
    &&& r.uri@ == uri
    &&& r.creators@.len() == 1
    &&& r.creators@[0] == (Creator { address: roles.payer, verified: true, share: 100 })
    &&& r.seller_fee_basis_points == ROYALTY_BASIS_POINTS
    &&& r.update_authority_is_signer
    &&& r.is_mutable
}

/// The master-edition-creation request owed for the given bound roles.
pub open spec fn spec_edition_request(roles: RoleSet) -> MasterEditionCreationRequest {
    MasterEditionCreationRequest {
        target_program: roles.metadata_program,
        edition_account: roles.master_edition,
        mint: roles.mint,
        update_authority: roles.update_authority,
        mint_authority: roles.mint_authority,
        metadata_account: roles.metadata,
        payer: roles.payer,
        max_supply: MAX_ADDITIONAL_PRINTS,
    }
}

/// Builds the metadata-creation request from the bound roles and the decoded
/// payload. Pure: it performs no invocation.
pub fn build_metadata_request(roles: &RoleSet, payload: Payload) -> (r: MetadataCreationRequest)
    ensures
        is_metadata_request_for(r, *roles, payload.name@, payload.symbol@, payload.uri@),
        spec_sum_shares(r.creators@) == 100,
{
    let mut creators: Vec<Creator> = Vec::new();
    creators.push(Creator { address: roles.payer, verified: true, share: 100 });
    proof {
        assert(creators@.drop_last() =~= Seq::<Creator>::empty());
        assert(spec_sum_shares(Seq::<Creator>::empty()) == 0);
        assert(spec_sum_shares(creators@) == 100);
    }
    MetadataCreationRequest {
        target_program: roles.metadata_program,
        metadata_account: roles.metadata,
        mint: roles.mint,
        mint_authority: roles.mint_authority,
        payer: roles.payer,
        update_authority: roles.update_authority,
        name: payload.name,
        symbol: payload.symbol,
        uri: payload.uri,
        creators,
        seller_fee_basis_points: ROYALTY_BASIS_POINTS,
        update_authority_is_signer: true,
        is_mutable: true,
    }
}

/// Builds the master-edition-creation request from the bound roles. Pure: it
/// performs no invocation.
pub fn build_edition_request(roles: &RoleSet) -> (r: MasterEditionCreationRequest)
    ensures
        r == spec_edition_request(*roles),
{
    MasterEditionCreationRequest {
        target_program: roles.metadata_program,
        edition_account: roles.master_edition,
        mint: roles.mint,
        update_authority: roles.update_authority,
        mint_authority: roles.mint_authority,
        metadata_account: roles.metadata,
        payer: roles.payer,
        max_supply: MAX_ADDITIONAL_PRINTS,
    }
}

} // verus!
