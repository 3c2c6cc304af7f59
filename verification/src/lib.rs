//! An on-chain instruction processor that mints a token's metadata record and
//! its master-edition marker by delegating to the external metadata-registry
//! program through two chained cross-program invocations. The processor
//! decodes a fixed-layout instruction buffer, binds the call's accounts to
//! named roles strictly by position, builds the two dependent requests, and
//! maps every failure to a single fatal error. The host performs the
//! invocations themselves; their outcomes are fed back in.

mod account;
mod address;
mod counter;
mod cpi;
mod error;
mod payload;
mod processor;
mod request;
mod roles;

pub use account::Account;
pub use cpi::{instruction_of_edition_request, instruction_of_metadata_request};
pub use processor::{
    after_edition_invocation, after_edition_invocation_with_counter, after_metadata_invocation,
    prepare, EditionStage, InvokeOutcome, Prepared,
};
pub use address::Address;
pub use counter::{read_counter, update_counter, COUNTER_SIZE};
pub use error::ProcError;
pub use payload::{decode_payload, Payload};
pub use request::{
    build_edition_request, build_metadata_request, Creator, MasterEditionCreationRequest,
    MetadataCreationRequest, MAX_ADDITIONAL_PRINTS, ROYALTY_BASIS_POINTS,
};
pub use roles::{bind_accounts, cpi_account_indices, role_at, Role, RoleSet, ROLE_COUNT};
