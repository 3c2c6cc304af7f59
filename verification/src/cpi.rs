use vstd::prelude::*;

use crate::address::Address;
use crate::request::{Creator, MasterEditionCreationRequest, MetadataCreationRequest};
use solana_program::instruction::Instruction;
use solana_program::pubkey::Pubkey;

verus! {

#[verifier::external_type_specification]
#[verifier::external_body]
pub struct ExPubkey(Pubkey);

#[verifier::external_type_specification]
#[verifier::external_body]
pub struct ExInstruction(Instruction);

/// The key value the host builds from the 32 address bytes: a function of the
/// two halves alone.
pub uninterp spec fn spec_pubkey_of(lo: u128, hi: u128) -> Pubkey;

/// The registry's metadata-creation instruction for the given target, account
/// keys, argument fields, creator list, royalty and flags: its account metas
/// and encoded argument blob are a function of these arguments alone.
pub uninterp spec fn spec_metadata_instruction(
    program_id: Pubkey,
    metadata_account: Pubkey,
    mint: Pubkey,
    mint_authority: Pubkey,
    payer: Pubkey,
    update_authority: Pubkey,
    name: Seq<char>,
    symbol: Seq<char>,
    uri: Seq<char>,
    creators: Seq<Creator>,
    seller_fee_basis_points: u16,
    update_authority_is_signer: bool,
    is_mutable: bool,
) -> Instruction;

/// The registry's master-edition-creation instruction for the given target,
/// account keys and print limit: a function of these arguments alone.
pub uninterp spec fn spec_edition_instruction(
    program_id: Pubkey,
    edition: Pubkey,
    mint: Pubkey,
    update_authority: Pubkey,
    mint_authority: Pubkey,
    metadata: Pubkey,
    payer: Pubkey,
    max_supply: u64,
) -> Instruction;

/// Relies on `solana_program::pubkey::Pubkey::new_from_array`: wraps the 32
/// address bytes unchanged, a pure function of them.
#[verifier::external_body]
fn pubkey_of(a: &Address) -> (r: Pubkey)
    ensures
        r == spec_pubkey_of(a.lo, a.hi),
{
    let mut b = [0u8; 32];
    b[..16].copy_from_slice(&a.lo.to_le_bytes());
    b[16..].copy_from_slice(&a.hi.to_le_bytes());
    Pubkey::new_from_array(b)
}

/// Relies on `spl_token_metadata::instruction::create_metadata_accounts`: a
/// pure constructor that encodes the argument record and fixes the account
/// layout the registry program expects for metadata creation. It serializes
/// each text field and the creator list behind a 32-bit length prefix and
/// panics past that width; UTF-8 holds at most four bytes per character, so
/// the bounds below keep every prefix within it.
#[verifier::external_body]
fn call_create_metadata_accounts(
    program_id: Pubkey,
    metadata_account: Pubkey,
    mint: Pubkey,
    mint_authority: Pubkey,
    payer: Pubkey,
    update_authority: Pubkey,
    name: String,
    symbol: String,
    uri: String,
    creators: &Vec<Creator>,
    seller_fee_basis_points: u16,
    update_authority_is_signer: bool,
    is_mutable: bool,
) -> (r: Instruction)
    requires
        name@.len() <= 0x3fff_ffff,
        symbol@.len() <= 0x3fff_ffff,
        uri@.len() <= 0x3fff_ffff,
        creators@.len() <= 0xffff_ffff,
    ensures
        r == spec_metadata_instruction(
            program_id,
            metadata_account,
            mint,
            mint_authority,
            payer,
            update_authority,
            name@,
            symbol@,
            uri@,
            creators@,
            seller_fee_basis_points,
            update_authority_is_signer,
            is_mutable,
        ),
{
    let cs = creators.iter().map(|c| spl_token_metadata::state::Creator {
        address: pubkey_of(&c.address), verified: c.verified, share: c.share,
    }).collect();
    spl_token_metadata::instruction::create_metadata_accounts(
        program_id, metadata_account, mint, mint_authority, payer, update_authority,
        name, symbol, uri, Some(cs), seller_fee_basis_points,
        update_authority_is_signer, is_mutable,
    )
}

/// Relies on `spl_token_metadata::instruction::create_master_edition`: a pure
/// constructor that encodes the print limit and fixes the account layout the
/// registry program expects for master-edition creation. Its arguments are of
/// fixed size, so its encoding cannot fail.
#[verifier::external_body]
fn call_create_master_edition(
    program_id: Pubkey,
    edition: Pubkey,
    mint: Pubkey,
    update_authority: Pubkey,
    mint_authority: Pubkey,
    metadata: Pubkey,
    payer: Pubkey,
    max_supply: u64,
) -> (r: Instruction)
    ensures
        r == spec_edition_instruction(
            program_id,
            edition,
            mint,
            update_authority,
            mint_authority,
            metadata,
            payer,
            max_supply,
        ),
{
    spl_token_metadata::instruction::create_master_edition(
        program_id, edition, mint, update_authority, mint_authority, metadata, payer,
        Some(max_supply),
    )
}

/// The wire instruction owed for a metadata-creation request: a function of
/// the request's fields alone.
pub open spec fn spec_instruction_of_metadata(req: MetadataCreationRequest) -> Instruction {
    spec_metadata_instruction(
        spec_pubkey_of(req.target_program.lo, req.target_program.hi),
        spec_pubkey_of(req.metadata_account.lo, req.metadata_account.hi),
        spec_pubkey_of(req.mint.lo, req.mint.hi),
        spec_pubkey_of(req.mint_authority.lo, req.mint_authority.hi),
        spec_pubkey_of(req.payer.lo, req.payer.hi),
        spec_pubkey_of(req.update_authority.lo, req.update_authority.hi),
        req.name@,
        req.symbol@,
        req.uri@,
        req.creators@,
        req.seller_fee_basis_points,
        req.update_authority_is_signer,
        req.is_mutable,
    )
}

/// The wire instruction owed for a master-edition-creation request: a
/// function of the request's fields alone.
pub open spec fn spec_instruction_of_edition(req: MasterEditionCreationRequest) -> Instruction {
    spec_edition_instruction(
        spec_pubkey_of(req.target_program.lo, req.target_program.hi),
        spec_pubkey_of(req.edition_account.lo, req.edition_account.hi),
        spec_pubkey_of(req.mint.lo, req.mint.hi),
        spec_pubkey_of(req.update_authority.lo, req.update_authority.hi),
        spec_pubkey_of(req.mint_authority.lo, req.mint_authority.hi),
        spec_pubkey_of(req.metadata_account.lo, req.metadata_account.hi),
        spec_pubkey_of(req.payer.lo, req.payer.hi),
        req.max_supply,
    )
}

/// Turns the metadata-creation request into the registry's wire instruction.
/// The encoding and account ordering inside are the registry's own contract.
/// The bounds keep the encoder's 32-bit length prefixes in range.
pub fn instruction_of_metadata_request(req: &MetadataCreationRequest) -> (r: Instruction)
    requires
        req.name@.len() <= 0x3fff_ffff,
        req.symbol@.len() <= 0x3fff_ffff,
        req.uri@.len() <= 0x3fff_ffff,
        req.creators@.len() <= 0xffff_ffff,
    ensures
        r == spec_instruction_of_metadata(*req),
{
    call_create_metadata_accounts(
        pubkey_of(&req.target_program),
        pubkey_of(&req.metadata_account),
        pubkey_of(&req.mint),
        pubkey_of(&req.mint_authority),
        pubkey_of(&req.payer),
        pubkey_of(&req.update_authority),
        req.name.clone(),
        req.symbol.clone(),
        req.uri.clone(),
        &req.creators,
        req.seller_fee_basis_points,
        req.update_authority_is_signer,
        req.is_mutable,
    )
}

/// Turns the master-edition-creation request into the registry's wire
/// instruction.
pub fn instruction_of_edition_request(req: &MasterEditionCreationRequest) -> (r: Instruction)
    ensures
        r == spec_instruction_of_edition(*req),
{
    call_create_master_edition(
        pubkey_of(&req.target_program),
        pubkey_of(&req.edition_account),
        pubkey_of(&req.mint),
        pubkey_of(&req.update_authority),
        pubkey_of(&req.mint_authority),
        pubkey_of(&req.metadata_account),
        pubkey_of(&req.payer),
        req.max_supply,
    )
}

} // verus!
