use charm_mint::{
    after_edition_invocation, after_edition_invocation_with_counter, after_metadata_invocation,
    cpi_account_indices, decode_payload, instruction_of_edition_request,
    instruction_of_metadata_request, prepare, read_counter, Account, Address, Creator,
    InvokeOutcome, ProcError, Role,
};
use solana_program::pubkey::Pubkey;

fn addr(n: u128) -> Address {
    Address { lo: n, hi: 0 }
}

fn pubkey_of(a: &Address) -> Pubkey {
    let mut b = [0u8; 32];
    b[..16].copy_from_slice(&a.lo.to_le_bytes());
    b[16..].copy_from_slice(&a.hi.to_le_bytes());
    Pubkey::new_from_array(b)
}

fn demo_accounts(n: u128) -> Vec<Account> {
    let mut accounts = Vec::new();
    let mut i: u128 = 0;
    while i < n {
        accounts.push(Account { key: addr(i + 1), owner: addr(100), data: Vec::new() });
        i += 1;
    }
    accounts
}

fn demo_buffer() -> Vec<u8> {
    let mut d = Vec::new();
    d.extend_from_slice(b"DemoNFT");
    d.resize(20, 0);
    d.extend_from_slice(b"DEMO");
    d.extend_from_slice(b"https://example.com/meta.json");
    d.resize(74, 0);
    d
}

const PADDED_NAME: &str = "DemoNFT\0\0\0\0\0\0\0\0\0\0\0\0\0";
const PADDED_URI: &str =
    "https://example.com/meta.json\0\0\0\0\0\0\0\0\0\0\0\0\0\0\0\0\0\0\0\0\0";

#[test]
fn end_to_end_success_builds_both_requests_in_order() {
    let accounts = demo_accounts(10);
    let data = demo_buffer();
    let prepared = match prepare(&accounts, &data) {
        Ok(p) => p,
        Err(e) => panic!("prepare failed: {:?}", e),
    };
    let md = &prepared.metadata_request;
    assert_eq!(md.target_program, addr(7));
    assert_eq!(md.metadata_account, addr(5));
    assert_eq!(md.mint, addr(2));
    assert_eq!(md.mint_authority, addr(3));
    assert_eq!(md.payer, addr(1));
    assert_eq!(md.update_authority, addr(4));
    assert_eq!(md.name, PADDED_NAME);
    assert_eq!(md.symbol, "DEMO");
    assert_eq!(md.uri, PADDED_URI);
    assert_eq!(md.creators, vec![Creator { address: addr(1), verified: true, share: 100 }]);
    assert_eq!(md.seller_fee_basis_points, 20);
    assert!(md.update_authority_is_signer);
    assert!(md.is_mutable);

    let stage = match after_metadata_invocation(prepared, InvokeOutcome::Success) {
        Ok(s) => s,
        Err(e) => panic!("metadata step failed: {:?}", e),
    };
    let ed = &stage.edition_request;
    assert_eq!(ed.target_program, addr(7));
    assert_eq!(ed.edition_account, addr(6));
    assert_eq!(ed.mint, addr(2));
    assert_eq!(ed.update_authority, addr(4));
    assert_eq!(ed.mint_authority, addr(3));
    assert_eq!(ed.metadata_account, addr(5));
    assert_eq!(ed.payer, addr(1));
    assert_eq!(ed.max_supply, 10);

    assert_eq!(after_edition_invocation(InvokeOutcome::Success), Ok(()));
}

#[test]
fn end_to_end_missing_rent_sysvar_fails_before_any_invocation() {
    let accounts = demo_accounts(9);
    let data = demo_buffer();
    match prepare(&accounts, &data) {
        Ok(_) => panic!("expected a missing-account failure"),
        Err(e) => assert_eq!(e, ProcError::MissingAccount(Role::RentSysvar)),
    }
}

#[test]
fn short_buffer_is_malformed_input() {
    let accounts = demo_accounts(10);
    let mut data = demo_buffer();
    data.truncate(73);
    match prepare(&accounts, &data) {
        Ok(_) => panic!("expected a malformed-input failure"),
        Err(e) => assert_eq!(e, ProcError::MalformedInput),
    }
}

#[test]
fn short_account_list_names_first_unmet_role() {
    let accounts = demo_accounts(3);
    let data = demo_buffer();
    match prepare(&accounts, &data) {
        Ok(_) => panic!("expected a missing-account failure"),
        Err(e) => assert_eq!(e, ProcError::MissingAccount(Role::UpdateAuthority)),
    }
    let empty: Vec<Account> = Vec::new();
    match prepare(&empty, &data) {
        Ok(_) => panic!("expected a missing-account failure"),
        Err(e) => assert_eq!(e, ProcError::MissingAccount(Role::Payer)),
    }
}

#[test]
fn decoding_is_deterministic() {
    let data = demo_buffer();
    let p1 = decode_payload(&data).unwrap();
    let p2 = decode_payload(&data).unwrap();
    assert_eq!(p1.name, p2.name);
    assert_eq!(p1.symbol, p2.symbol);
    assert_eq!(p1.uri, p2.uri);
}

#[test]
fn invalid_utf8_becomes_replacement_characters() {
    let mut data = demo_buffer();
    data[0] = 0xff;
    let p = decode_payload(&data).unwrap();
    assert_eq!(p.name, "\u{FFFD}emoNFT\0\0\0\0\0\0\0\0\0\0\0\0\0");
    assert_eq!(p.symbol, "DEMO");
}

#[test]
fn boundary_split_multibyte_becomes_replacement_character() {
    let mut data = demo_buffer();
    data[19] = 0xc3;
    let p = decode_payload(&data).unwrap();
    assert_eq!(p.name, "DemoNFT\0\0\0\0\0\0\0\0\0\0\0\0\u{FFFD}");
    assert_eq!(p.symbol, "DEMO");
}

#[test]
fn failed_metadata_invocation_aborts_without_an_edition_request() {
    let accounts = demo_accounts(10);
    let data = demo_buffer();
    let prepared = prepare(&accounts, &data).ok().unwrap();
    match after_metadata_invocation(prepared, InvokeOutcome::Failure(9)) {
        Ok(_) => panic!("expected the callee's failure to pass through"),
        Err(e) => assert_eq!(e, ProcError::DelegateInvocationFailure(9)),
    }
    assert_eq!(
        after_edition_invocation(InvokeOutcome::Failure(3)),
        Err(ProcError::DelegateInvocationFailure(3))
    );
}

#[test]
fn rerun_with_same_inputs_builds_the_same_requests() {
    let accounts = demo_accounts(10);
    let data = demo_buffer();
    let first = prepare(&accounts, &data).ok().unwrap();
    let second = prepare(&accounts, &data).ok().unwrap();
    assert_eq!(first.metadata_request.name, second.metadata_request.name);
    assert_eq!(first.metadata_request.symbol, second.metadata_request.symbol);
    assert_eq!(first.metadata_request.uri, second.metadata_request.uri);
    assert_eq!(first.metadata_request.creators, second.metadata_request.creators);
    assert_eq!(first.roles, second.roles);
    assert_eq!(first.metadata_instruction, second.metadata_instruction);
    // The second attempt's outcome is the callee program's own affair.
    let s1 = after_metadata_invocation(first, InvokeOutcome::Success);
    assert!(s1.is_ok());
    match after_metadata_invocation(second, InvokeOutcome::Failure(42)) {
        Ok(_) => panic!("expected the callee's failure to pass through"),
        Err(e) => assert_eq!(e, ProcError::DelegateInvocationFailure(42)),
    }
}

#[test]
fn counter_variant_runs_only_after_successful_invocations() {
    let program_id = addr(50);
    let mut target = Account { key: addr(1), owner: addr(50), data: vec![0, 0, 0, 0] };
    assert_eq!(
        after_edition_invocation_with_counter(&program_id, &mut target, InvokeOutcome::Success),
        Ok(())
    );
    assert_eq!(read_counter(&target.data).unwrap(), 1);
    assert_eq!(
        after_edition_invocation_with_counter(
            &program_id,
            &mut target,
            InvokeOutcome::Failure(11)
        ),
        Err(ProcError::DelegateInvocationFailure(11))
    );
    assert_eq!(read_counter(&target.data).unwrap(), 1);
}

#[test]
fn cpi_account_order_matches_registry_layout() {
    let indices = cpi_account_indices();
    assert_eq!(indices, vec![4, 5, 6, 1, 2, 3, 0, 8, 9, 7]);
}

#[test]
fn metadata_wire_instruction_targets_registry_program() {
    let accounts = demo_accounts(10);
    let data = demo_buffer();
    let prepared = prepare(&accounts, &data).ok().unwrap();
    let ix = instruction_of_metadata_request(&prepared.metadata_request);
    assert_eq!(ix.program_id, pubkey_of(&addr(7)));
    assert_eq!(ix.accounts.len(), 7);
    assert_eq!(ix.accounts[0].pubkey, pubkey_of(&addr(5)));
    assert!(ix.accounts[0].is_writable);
    assert_eq!(ix.accounts[3].pubkey, pubkey_of(&addr(1)));
    assert!(ix.accounts[3].is_signer);
    assert_eq!(ix.data[0], 0);
    assert!(ix.data.len() > 1);
}

#[test]
fn edition_wire_instruction_targets_registry_program() {
    let accounts = demo_accounts(10);
    let data = demo_buffer();
    let prepared = prepare(&accounts, &data).ok().unwrap();
    let stage = after_metadata_invocation(prepared, InvokeOutcome::Success).ok().unwrap();
    let ix = instruction_of_edition_request(&stage.edition_request);
    assert_eq!(ix.program_id, pubkey_of(&addr(7)));
    assert_eq!(ix.accounts.len(), 9);
    assert_eq!(ix.accounts[0].pubkey, pubkey_of(&addr(6)));
    assert!(ix.accounts[0].is_writable);
    assert_eq!(ix.accounts[5].pubkey, pubkey_of(&addr(5)));
    assert_eq!(ix.data[0], 10);
}
