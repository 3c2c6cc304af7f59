use vstd::prelude::*;

use crate::account::Account;
use crate::address::Address;
use crate::counter::{spec_counter_bytes, spec_counter_of, spec_next_counter, update_counter};
use crate::counter::COUNTER_SIZE;
use crate::cpi::{
    instruction_of_edition_request, instruction_of_metadata_request, spec_instruction_of_edition,
    spec_instruction_of_metadata,
};
use crate::error::ProcError;
use crate::payload::{decode_payload, spec_name, spec_symbol, spec_uri, URI_END};
use crate::request::{
    build_edition_request, build_metadata_request, is_metadata_request_for, spec_edition_request,
    spec_sum_shares, MasterEditionCreationRequest, MetadataCreationRequest,
};
use crate::roles::{bind_accounts, spec_bind, spec_role_at, RoleSet, ROLE_COUNT};
use solana_program::instruction::Instruction;

verus! {

/// What the host reports for one cross-program invocation: success, or the
/// callee's error code, passed through unchanged.
#[derive(Clone, Copy, PartialEq, Eq, Structural, Debug)]
pub enum InvokeOutcome {
    Success,
    Failure(u64),
}

/// Everything the processor settles before the first invocation: the bound
/// roles, the metadata-creation request, and its wire instruction.
pub struct Prepared {
    pub roles: RoleSet,
    pub metadata_request: MetadataCreationRequest,
    pub metadata_instruction: Instruction,
}

/// What the processor hands out once the metadata invocation has succeeded:
/// the master-edition-creation request and its wire instruction.
pub struct EditionStage {
    pub roles: RoleSet,
    pub edition_request: MasterEditionCreationRequest,
    pub edition_instruction: Instruction,
}

/// Whether a call's inputs pass the two input checks, and the exact error
/// owed when they do not: the accounts are bound first, strictly left to
/// right, and only then is the buffer's window checked.
pub open spec fn spec_prepare_outcome(accounts: Seq<Account>, data: Seq<u8>) -> Result<
    (),
    ProcError,
> {
    if accounts.len() < ROLE_COUNT {
        Err(ProcError::MissingAccount(spec_role_at(accounts.len() as int)))
    } else if data.len() < URI_END {
        Err(ProcError::MalformedInput)
    } else {
        Ok(())
    }
}

/// Binds the accounts, decodes the payload, and builds the metadata-creation
/// request together with its wire instruction. Performs no invocation: on any
/// failure no request leaves this function.
pub fn prepare(accounts: &Vec<Account>, data: &[u8]) -> (r: Result<Prepared, ProcError>)
    ensures
        r is Ok <==> spec_prepare_outcome(accounts@, data@) is Ok,
        r matches Err(e) ==> Err::<(), ProcError>(e) == spec_prepare_outcome(accounts@, data@),
        r matches Ok(p) ==> {
            &&& p.roles == spec_bind(accounts@)
            &&& is_metadata_request_for(
                p.metadata_request,
                spec_bind(accounts@),
                spec_name(data@),
                spec_symbol(data@),
                spec_uri(data@),
            )
            &&& spec_sum_shares(p.metadata_request.creators@) == 100
            &&& p.metadata_instruction == spec_instruction_of_metadata(p.metadata_request)
        },
{
    let roles = match bind_accounts(accounts) {
        Ok(roles) => roles,
        Err(e) => {
            return Err(e);
        },
    };
    let payload = match decode_payload(data) {
        Ok(payload) => payload,
        Err(e) => {
            return Err(e);
        },
    };
    let metadata_request = build_metadata_request(&roles, payload);
    let metadata_instruction = instruction_of_metadata_request(&metadata_request);
    Ok(Prepared { roles, metadata_request, metadata_instruction })
}

/// The master-edition step owed for a metadata invocation's outcome: the
/// edition request exists only when that invocation returned success;
/// otherwise the callee's failure passes through unchanged.
pub open spec fn spec_edition_outcome(roles: RoleSet, outcome: InvokeOutcome) -> Result<
    MasterEditionCreationRequest,
    ProcError,
> {
    match outcome {
        InvokeOutcome::Success => Ok(spec_edition_request(roles)),
        InvokeOutcome::Failure(code) => Err(ProcError::DelegateInvocationFailure(code)),
    }
}

/// Consumes the metadata invocation's outcome. Only on success is the
/// master-edition-creation request built; a failure aborts the call with the
/// callee's code passed through unchanged.
pub fn after_metadata_invocation(p: Prepared, outcome: InvokeOutcome) -> (r: Result<
    EditionStage,
    ProcError,
>)
    ensures
        r is Ok <==> outcome == InvokeOutcome::Success,
        r matches Err(e) ==> Err::<MasterEditionCreationRequest, ProcError>(e)
            == spec_edition_outcome(p.roles, outcome),
        r matches Ok(s) ==> {
            &&& s.roles == p.roles
            &&& Ok::<MasterEditionCreationRequest, ProcError>(s.edition_request)
                == spec_edition_outcome(p.roles, outcome)
            &&& s.edition_instruction == spec_instruction_of_edition(s.edition_request)
        },
{
    match outcome {
        InvokeOutcome::Failure(code) => Err(ProcError::DelegateInvocationFailure(code)),
        InvokeOutcome::Success => {
            let edition_request = build_edition_request(&p.roles);
            let edition_instruction = instruction_of_edition_request(&edition_request);
            Ok(EditionStage { roles: p.roles, edition_request, edition_instruction })
        },
    }
}

/// Consumes the master-edition invocation's outcome: success ends the call,
/// a failure aborts it with the callee's code passed through unchanged.
pub fn after_edition_invocation(outcome: InvokeOutcome) -> (r: Result<(), ProcError>)
    ensures
        outcome == InvokeOutcome::Success ==> r == Ok::<(), ProcError>(()),
        outcome matches InvokeOutcome::Failure(code) ==> r == Err::<(), ProcError>(
            ProcError::DelegateInvocationFailure(code),
        ),
{
    match outcome {
        InvokeOutcome::Success => Ok(()),
        InvokeOutcome::Failure(code) => Err(ProcError::DelegateInvocationFailure(code)),
    }
}

/// The counter-bearing variant's last step. After a successful edition
/// invocation it increments the target account's stored counter in place; the
/// owner check happens before any mutation, and on any failure the account is
/// left unchanged.
pub fn after_edition_invocation_with_counter(
    program_id: &Address,
    target: &mut Account,
    outcome: InvokeOutcome,
) -> (r: Result<(), ProcError>)
    ensures
        outcome matches InvokeOutcome::Failure(code) ==> r == Err::<(), ProcError>(
            ProcError::DelegateInvocationFailure(code),
        ) && *final(target) == *old(target),
        outcome == InvokeOutcome::Success && old(target).owner != *program_id ==> r == Err::<
            (),
            ProcError,
        >(ProcError::AuthorizationError) && *final(target) == *old(target),
        outcome == InvokeOutcome::Success && old(target).owner == *program_id && old(
            target,
        ).data@.len() != COUNTER_SIZE ==> r == Err::<(), ProcError>(ProcError::SerializationError)
            && *final(target) == *old(target),
        outcome == InvokeOutcome::Success && old(target).owner == *program_id && old(
            target,
        ).data@.len() == COUNTER_SIZE ==> {
            &&& r == Ok::<(), ProcError>(())
            &&& final(target).key == old(target).key
            &&& final(target).owner == old(target).owner
            &&& final(target).data@ == spec_counter_bytes(
                spec_next_counter(spec_counter_of(old(target).data@)),
            )
        },
{
    match outcome {
        InvokeOutcome::Failure(code) => Err(ProcError::DelegateInvocationFailure(code)),
        InvokeOutcome::Success => update_counter(program_id, target),
    }
}

/// A buffer shorter than the decode window is rejected whole, with
/// MalformedInput; no request is built, so nothing is ever invoked for it.
pub proof fn lemma_short_buffer_rejected(accounts: Seq<Account>, data: Seq<u8>)
    requires
        accounts.len() >= ROLE_COUNT,
        data.len() < URI_END,
    ensures
        spec_prepare_outcome(accounts, data) == Err::<(), ProcError>(ProcError::MalformedInput),
{
}

/// An account list shorter than the role schema is rejected with
/// MissingAccount at the first unmet role, before the buffer is read; no
/// request is built, so nothing is ever invoked for it.
pub proof fn lemma_short_account_list_rejected(accounts: Seq<Account>, data: Seq<u8>)
    requires
        accounts.len() < ROLE_COUNT,
    ensures
        spec_prepare_outcome(accounts, data) == Err::<(), ProcError>(
            ProcError::MissingAccount(spec_role_at(accounts.len() as int)),
        ),
{
}

/// The master-edition step is owed if and only if the metadata invocation
/// returned success: no edition request exists for a failed metadata call.
pub proof fn lemma_edition_only_after_success(roles: RoleSet, outcome: InvokeOutcome)
    ensures
        spec_edition_outcome(roles, outcome) is Ok <==> outcome == InvokeOutcome::Success,
        outcome matches InvokeOutcome::Failure(code) ==> spec_edition_outcome(roles, outcome)
            == Err::<MasterEditionCreationRequest, ProcError>(
            ProcError::DelegateInvocationFailure(code),
        ),
{
}

/// The processor keeps no state between calls: what a call is owed is a
/// function of its inputs alone, so a second call with the same accounts and
/// buffer is owed the same outcome and the same requests, whatever any
/// earlier call did. Whether the second attempt then succeeds is the callee
/// program's own affair.
pub proof fn lemma_rerun_is_independent(
    a1: Seq<Account>,
    a2: Seq<Account>,
    d1: Seq<u8>,
    d2: Seq<u8>,
)
    requires
        a1 == a2,
        d1 == d2,
    ensures
        spec_prepare_outcome(a1, d1) == spec_prepare_outcome(a2, d2),
        spec_bind(a1) == spec_bind(a2),
        spec_name(d1) == spec_name(d2),
        spec_symbol(d1) == spec_symbol(d2),
        spec_uri(d1) == spec_uri(d2),
        spec_edition_request(spec_bind(a1)) == spec_edition_request(spec_bind(a2)),
        spec_instruction_of_edition(spec_edition_request(spec_bind(a1)))
            == spec_instruction_of_edition(spec_edition_request(spec_bind(a2))),
{
}

/// Identical inputs are owed a byte-identical metadata wire instruction: any
/// two requests that are the ones owed for the same bound roles and the same
/// decoded fields encode to the same instruction, argument blob included.
pub proof fn lemma_identical_inputs_identical_wire_instruction(
    accounts: Seq<Account>,
    data: Seq<u8>,
    q1: MetadataCreationRequest,
    q2: MetadataCreationRequest,
)
    requires
        is_metadata_request_for(q1, spec_bind(accounts), spec_name(data), spec_symbol(data), spec_uri(data)),
        is_metadata_request_for(q2, spec_bind(accounts), spec_name(data), spec_symbol(data), spec_uri(data)),
    ensures
        spec_instruction_of_metadata(q1) == spec_instruction_of_metadata(q2),
{
    assert(q1.creators@ =~= q2.creators@);
}

} // verus!
