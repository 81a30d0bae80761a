use spl_program_metadata::account::Account;
use spl_program_metadata::client::WriteInstructionArgs;
use spl_program_metadata::error::ProgramError;
use spl_program_metadata::processor::process_instruction;
use spl_program_metadata::state::header::Header;
use spl_program_metadata::state::{data::Data, Metadata};

fn pid() -> Vec<u8> {
    spl_program_metadata::program_id()
}

fn loader() -> Vec<u8> {
    spl_program_metadata::loader_v3_id()
}

fn system_owner() -> Vec<u8> {
    vec![0u8; 32]
}

fn unique_key() -> Vec<u8> {
    solana_pubkey::Pubkey::new_unique().to_bytes().to_vec()
}

fn minimum_balance_for(size: usize) -> u64 {
    (128 + size as u64) * 6960
}

fn find_pda(seeds: &[&[u8]]) -> Vec<u8> {
    let program_id = solana_pubkey::Pubkey::try_from(pid().as_slice()).unwrap();
    let (key, _) = solana_pubkey::Pubkey::find_program_address(seeds, &program_id);
    key.to_bytes().to_vec()
}

fn account(key: &[u8], lamports: u64, data: Vec<u8>, owner: Vec<u8>, is_signer: bool) -> Account {
    Account {
        key: key.to_vec(),
        lamports,
        data,
        owner,
        is_signer,
        executable: false,
    }
}

fn default_account(key: &[u8], is_signer: bool) -> Account {
    account(key, 0, Vec::new(), system_owner(), is_signer)
}

fn create_funded_account(key: &[u8], lamports: u64) -> Account {
    account(key, lamports, Vec::new(), system_owner(), false)
}

fn setup_program_account(key: &[u8], program_data_key: &[u8]) -> Account {
    let mut data = vec![0u8; 36];
    data[0] = 2;
    data[4..36].copy_from_slice(program_data_key);
    Account {
        key: key.to_vec(),
        lamports: minimum_balance_for(36),
        data,
        owner: loader(),
        is_signer: false,
        executable: true,
    }
}

fn setup_program_data_account(key: &[u8], authority: Option<&[u8]>) -> Account {
    let mut data = vec![0u8; 45];
    data[0] = 3;
    if let Some(authority) = authority {
        data[12] = 1;
        data[13..45].copy_from_slice(authority);
    }
    account(key, minimum_balance_for(45), data, loader(), false)
}

fn allocate_ix(seed: Option<&[u8]>) -> Vec<u8> {
    let mut ix = vec![7u8];
    if let Some(seed) = seed {
        ix.extend_from_slice(seed);
    }
    ix
}

fn initialize_ix(seed: &[u8], fields: [u8; 4], data: Option<&[u8]>) -> Vec<u8> {
    let mut ix = vec![1u8];
    ix.extend_from_slice(seed);
    ix.extend_from_slice(&fields);
    if let Some(data) = data {
        ix.extend_from_slice(data);
    }
    ix
}

fn idl_seed() -> Vec<u8> {
    let mut seed = vec![0u8; 16];
    seed[0..3].copy_from_slice("idl".as_bytes());
    seed
}

/// Allocate a derived buffer, write a payload at offset zero, then
/// initialize the account from that buffer: the metadata record holds
/// exactly the written bytes and the account no longer decodes as a
/// buffer.
#[test]
fn test_staged_write_then_initialize_round_trip() {
    let authority_key = unique_key();
    let program_data_key = unique_key();
    let program_key = unique_key();
    let seed = idl_seed();
    let payload = vec![42u8; 24];

    let buffer_key = find_pda(&[&program_key, &seed]);
    let accounts = vec![
        create_funded_account(&buffer_key, minimum_balance_for(96 + payload.len())),
        default_account(&authority_key, true),
        setup_program_account(&program_key, &program_data_key),
        setup_program_data_account(&program_data_key, Some(&authority_key)),
        default_account(&system_owner(), false),
    ];
    let mut out = process_instruction(accounts, &allocate_ix(Some(&seed))).unwrap();
    assert_eq!(out[0].data[0], 1);

    // Write the payload at offset zero, inline with the instruction.
    let write_args = WriteInstructionArgs {
        offset: 0,
        data: payload.clone(),
    };
    let buffer = out.remove(0);
    let authority = out.remove(0);
    let write_accounts = vec![buffer, authority, default_account(&pid(), false)];
    let mut out2 = process_instruction(write_accounts, &write_args.instruction_bytes()).unwrap();
    assert_eq!(out2[0].data.len(), 96 + payload.len());
    assert_eq!(&out2[0].data[96..], payload.as_slice());

    // Initialize consumes the buffer in place: no inline bytes allowed.
    let buffer = out2.remove(0);
    let authority = out2.remove(0);
    let init_accounts = vec![
        buffer,
        authority,
        setup_program_account(&program_key, &program_data_key),
        setup_program_data_account(&program_data_key, Some(&authority_key)),
        default_account(&system_owner(), false),
    ];
    let out3 = process_instruction(init_accounts, &initialize_ix(&seed, [0, 0, 0, 0], None))
        .unwrap();
    assert_eq!(out3[0].data[0], 2);
    assert_eq!(&out3[0].data[96..], payload.as_slice());
    assert_ne!(out3[0].data[0], 1);
}

/// Initialize a canonical record with UTF-8 JSON direct data signed by
/// the owning program's delegate authority: the record is mutable and
/// stores no explicit authority.
#[test]
fn test_initialize_canonical_json_record() {
    let authority_key = unique_key();
    let program_data_key = unique_key();
    let program_key = unique_key();
    let seed = idl_seed();

    let metadata_key = find_pda(&[&program_key, &seed]);
    let accounts = vec![
        create_funded_account(&metadata_key, minimum_balance_for(96 + 2)),
        default_account(&authority_key, true),
        setup_program_account(&program_key, &program_data_key),
        setup_program_data_account(&program_data_key, Some(&authority_key)),
        default_account(&system_owner(), false),
    ];

    // encoding = Utf8, compression = none, format = Json, source = direct
    let out = process_instruction(accounts, &initialize_ix(&seed, [1, 0, 1, 0], Some(b"{}")))
        .unwrap();
    let header = Header::from_bytes(&out[0].data).unwrap();
    assert!(header.mutable);
    assert!(header.canonical);
    assert!(header.authority.is_none());
    assert_eq!(header.encoding, 1);
    assert_eq!(header.format, 1);
    assert_eq!(header.data_length, 2);
    let record = Metadata::from_bytes(&out[0].data).unwrap();
    match record.data {
        Data::Direct(d) => assert_eq!(d.0, b"{}".to_vec()),
        _ => panic!("expected direct data"),
    }
}

/// The same initialize call signed by a key that is neither the delegate
/// authority nor part of a matching third-party derivation fails with
/// `InvalidSeeds` before any authority check.
#[test]
fn test_initialize_wrong_signer_fails_on_derivation() {
    let delegate_authority_key = unique_key();
    let intruder_key = unique_key();
    let program_data_key = unique_key();
    let program_key = unique_key();
    let seed = idl_seed();

    let metadata_key = find_pda(&[&program_key, &seed]);
    let accounts = vec![
        create_funded_account(&metadata_key, minimum_balance_for(96 + 2)),
        default_account(&intruder_key, true),
        setup_program_account(&program_key, &program_data_key),
        setup_program_data_account(&program_data_key, Some(&delegate_authority_key)),
        default_account(&system_owner(), false),
    ];

    let err = process_instruction(accounts, &initialize_ix(&seed, [1, 0, 1, 0], Some(b"{}")))
        .unwrap_err();
    assert_eq!(err, ProgramError::InvalidSeeds);
}

/// Set-authority on a third-party record fails whoever signs: the
/// derivation of such a record is permanently tied to its authority.
#[test]
fn test_set_authority_non_canonical_fails() {
    let authority_key = unique_key();
    let program_data_key = unique_key();
    let program_key = unique_key();
    let seed = idl_seed();

    let metadata_key = find_pda(&[&program_key, &authority_key, &seed]);
    let accounts = vec![
        create_funded_account(&metadata_key, minimum_balance_for(96 + 10)),
        default_account(&authority_key, true),
        setup_program_account(&program_key, &program_data_key),
        default_account(&pid(), false),
        default_account(&system_owner(), false),
    ];
    let mut out = process_instruction(
        accounts,
        &initialize_ix(&seed, [0, 0, 0, 0], Some(&[1u8; 10])),
    )
    .unwrap();

    let mut set_authority_ix = vec![2u8, 1u8];
    set_authority_ix.extend_from_slice(&unique_key());

    // Signed by the record's own authority.
    out.truncate(4);
    let err = process_instruction(out, &set_authority_ix).unwrap_err();
    assert_eq!(err, ProgramError::InvalidAccountData);

    // Signed by an unrelated key.
    let accounts = vec![
        create_funded_account(&metadata_key, minimum_balance_for(96 + 10)),
        default_account(&authority_key, true),
        setup_program_account(&program_key, &program_data_key),
        default_account(&pid(), false),
        default_account(&system_owner(), false),
    ];
    let mut out = process_instruction(
        accounts,
        &initialize_ix(&seed, [0, 0, 0, 0], Some(&[1u8; 10])),
    )
    .unwrap();
    out.truncate(4);
    out[1] = default_account(&unique_key(), true);
    let err = process_instruction(out, &set_authority_ix).unwrap_err();
    assert_eq!(err, ProgramError::InvalidAccountData);
}

/// Making a record immutable succeeds once and fails the second time:
/// idempotence is deliberately not provided.
#[test]
fn test_set_immutable_twice_fails() {
    let authority_key = unique_key();
    let program_data_key = unique_key();
    let program_key = unique_key();
    let seed = idl_seed();

    let metadata_key = find_pda(&[&program_key, &seed]);
    let accounts = vec![
        create_funded_account(&metadata_key, minimum_balance_for(96 + 2)),
        default_account(&authority_key, true),
        setup_program_account(&program_key, &program_data_key),
        setup_program_data_account(&program_data_key, Some(&authority_key)),
        default_account(&system_owner(), false),
    ];
    let mut out = process_instruction(accounts, &initialize_ix(&seed, [1, 0, 1, 0], Some(b"{}")))
        .unwrap();

    out.truncate(4);
    let mut out = process_instruction(out, &[4u8]).unwrap();
    let header = Header::from_bytes(&out[0].data).unwrap();
    assert!(!header.mutable);

    let err = process_instruction(std::mem::take(&mut out), &[4u8]).unwrap_err();
    assert_eq!(err, ProgramError::InvalidAccountData);
}

/// Extend by 200 bytes on a pre-funded record: the stored length grows by
/// exactly 200 and the existing payload bytes are untouched.
#[test]
fn test_extend_record_keeps_payload() {
    let authority_key = unique_key();
    let program_data_key = unique_key();
    let program_key = unique_key();
    let seed = idl_seed();

    let metadata_key = find_pda(&[&program_key, &seed]);
    let accounts = vec![
        create_funded_account(&metadata_key, minimum_balance_for(96 + 10 + 200)),
        default_account(&authority_key, true),
        setup_program_account(&program_key, &program_data_key),
        setup_program_data_account(&program_data_key, Some(&authority_key)),
        default_account(&system_owner(), false),
    ];
    let mut out = process_instruction(
        accounts,
        &initialize_ix(&seed, [0, 0, 0, 0], Some(&[9u8; 10])),
    )
    .unwrap();
    let before = out[0].data.len();

    out.truncate(4);
    let out = process_instruction(out, &[8u8, 200, 0]).unwrap();
    assert_eq!(out[0].data.len(), before + 200);
    assert_eq!(&out[0].data[96..106], &[9u8; 10]);
    // The header still records the original payload length.
    let header = Header::from_bytes(&out[0].data).unwrap();
    assert_eq!(header.data_length, 10);
}

/// Closing a buffer moves its whole balance and erases its data.
#[test]
fn test_close_buffer_drains_balance() {
    let buffer_key = unique_key();
    let destination_key = unique_key();

    let accounts = vec![
        account(
            &buffer_key,
            minimum_balance_for(96),
            Vec::new(),
            system_owner(),
            true,
        ),
        default_account(&buffer_key, true),
        default_account(&pid(), false),
        default_account(&pid(), false),
        default_account(&system_owner(), false),
    ];
    let mut out = process_instruction(accounts, &allocate_ix(None)).unwrap();

    out.truncate(4);
    out.push(default_account(&destination_key, false));
    let out = process_instruction(out, &[6u8]).unwrap();
    assert_eq!(out[0].lamports, 0);
    assert!(out[0].data.is_empty());
    assert_eq!(out[4].lamports, minimum_balance_for(96));
}

#[test]
fn test_unknown_opcode_rejected() {
    let err = process_instruction(Vec::new(), &[9u8]).unwrap_err();
    assert_eq!(err, ProgramError::InvalidInstructionData);
    let err = process_instruction(Vec::new(), &[]).unwrap_err();
    assert_eq!(err, ProgramError::InvalidInstructionData);
}

#[test]
fn test_not_enough_account_keys() {
    // Trim takes exactly six accounts.
    let accounts = vec![
        default_account(&unique_key(), false),
        default_account(&unique_key(), true),
    ];
    let err = process_instruction(accounts, &[5u8]).unwrap_err();
    assert_eq!(err, ProgramError::NotEnoughAccountKeys);
}

#[test]
fn test_allocate_without_signer() {
    let buffer_key = unique_key();
    let accounts = vec![
        create_funded_account(&buffer_key, minimum_balance_for(96)),
        default_account(&buffer_key, false),
        default_account(&pid(), false),
        default_account(&pid(), false),
        default_account(&system_owner(), false),
    ];
    let err = process_instruction(accounts, &allocate_ix(None)).unwrap_err();
    assert_eq!(err, ProgramError::MissingRequiredSignature);
}

#[test]
fn test_allocate_non_executable_program() {
    let authority_key = unique_key();
    let program_key = unique_key();
    let seed = idl_seed();
    let buffer_key = find_pda(&[&program_key, &seed]);
    let accounts = vec![
        create_funded_account(&buffer_key, minimum_balance_for(96)),
        default_account(&authority_key, true),
        default_account(&program_key, false),
        default_account(&pid(), false),
        default_account(&system_owner(), false),
    ];
    let err = process_instruction(accounts, &allocate_ix(Some(&seed))).unwrap_err();
    assert_eq!(err, ProgramError::Custom(0));
}

#[test]
fn test_allocate_already_initialized() {
    let buffer_key = unique_key();
    let mut data = vec![0u8; 96];
    data[0] = 1;
    let accounts = vec![
        account(&buffer_key, minimum_balance_for(96), data, pid(), true),
        default_account(&buffer_key, true),
        default_account(&pid(), false),
        default_account(&pid(), false),
        default_account(&system_owner(), false),
    ];
    let err = process_instruction(accounts, &allocate_ix(None)).unwrap_err();
    assert_eq!(err, ProgramError::AccountAlreadyInitialized);
}

/// Claiming a pre-allocated account that already carries a live record
/// fails whoever owns the account.
#[test]
fn test_allocate_foreign_owned_live_record_rejected() {
    let buffer_key = unique_key();
    let mut data = vec![0u8; 96];
    data[0] = 1;
    let accounts = vec![
        account(
            &buffer_key,
            minimum_balance_for(96),
            data,
            system_owner(),
            true,
        ),
        default_account(&buffer_key, true),
        default_account(&pid(), false),
        default_account(&pid(), false),
        default_account(&system_owner(), false),
    ];
    let err = process_instruction(accounts, &allocate_ix(None)).unwrap_err();
    assert_eq!(err, ProgramError::AccountAlreadyInitialized);
}

/// An immutable metadata record cannot be closed, even by a signer whose
/// key equals the record's own address: close has no self-authorization
/// shortcut.
#[test]
fn test_close_immutable_record_rejected() {
    let record_key = unique_key();
    let mut data = vec![0u8; 96];
    data[0] = 2;
    data[33..65].copy_from_slice(&record_key);
    data[65] = 0;  // immutable
    data[66] = 1;  // canonical
    let accounts = vec![
        account(&record_key, minimum_balance_for(96), data, pid(), true),
        default_account(&record_key, true),
        default_account(&pid(), false),
        default_account(&pid(), false),
        default_account(&unique_key(), false),
    ];
    let err = process_instruction(accounts, &[6u8]).unwrap_err();
    assert_eq!(err, ProgramError::InvalidAccountData);
}

/// After a buffer's authority is reassigned, the buffer's own key no
/// longer authorizes a close: only the stored authority does.
#[test]
fn test_close_buffer_after_reassignment_needs_new_authority() {
    let buffer_key = unique_key();
    let new_authority_key = unique_key();

    let accounts = vec![
        account(
            &buffer_key,
            minimum_balance_for(96),
            Vec::new(),
            system_owner(),
            true,
        ),
        default_account(&buffer_key, true),
        default_account(&pid(), false),
        default_account(&pid(), false),
        default_account(&system_owner(), false),
    ];
    let mut out = process_instruction(accounts, &allocate_ix(None)).unwrap();

    // Reassign the buffer's authority away from its own key.
    out.truncate(4);
    let mut set_authority_ix = vec![2u8, 1u8];
    set_authority_ix.extend_from_slice(&new_authority_key);
    let mut out = process_instruction(out, &set_authority_ix).unwrap();

    // The old key no longer closes the buffer; the new authority does.
    out.truncate(4);
    out.push(default_account(&unique_key(), false));
    let err = process_instruction(out, &[6u8]).unwrap_err();
    assert_eq!(err, ProgramError::IncorrectAuthority);
}

#[test]
fn test_write_wrong_authority() {
    let buffer_key = unique_key();
    let accounts = vec![
        account(
            &buffer_key,
            minimum_balance_for(96),
            Vec::new(),
            system_owner(),
            true,
        ),
        default_account(&buffer_key, true),
        default_account(&pid(), false),
        default_account(&pid(), false),
        default_account(&system_owner(), false),
    ];
    let mut out = process_instruction(accounts, &allocate_ix(None)).unwrap();

    let buffer = out.remove(0);
    let write_accounts = vec![
        buffer,
        default_account(&unique_key(), true),
        default_account(&pid(), false),
    ];
    let args = WriteInstructionArgs {
        offset: 0,
        data: vec![1, 2, 3],
    };
    let err = process_instruction(write_accounts, &args.instruction_bytes()).unwrap_err();
    assert_eq!(err, ProgramError::IncorrectAuthority);
}

#[test]
fn test_write_offset_beyond_cap() {
    let buffer_key = unique_key();
    let accounts = vec![
        account(
            &buffer_key,
            minimum_balance_for(96),
            Vec::new(),
            system_owner(),
            true,
        ),
        default_account(&buffer_key, true),
        default_account(&pid(), false),
        default_account(&pid(), false),
        default_account(&system_owner(), false),
    ];
    let mut out = process_instruction(accounts, &allocate_ix(None)).unwrap();

    let buffer = out.remove(0);
    let authority = out.remove(0);
    let write_accounts = vec![buffer, authority, default_account(&pid(), false)];
    let args = WriteInstructionArgs {
        offset: u32::MAX,
        data: vec![1],
    };
    let err = process_instruction(write_accounts, &args.instruction_bytes()).unwrap_err();
    assert_eq!(err, ProgramError::InvalidRealloc);
}

#[test]
fn test_trim_underfunded_account() {
    let buffer_key = unique_key();
    let mut data = vec![0u8; 96];
    data[0] = 1;
    data[33..65].copy_from_slice(&buffer_key);
    let mut rent_data = 6960u64.to_le_bytes().to_vec();
    rent_data.extend_from_slice(&[0u8; 9]);
    let accounts = vec![
        account(&buffer_key, 10, data, pid(), true),
        default_account(&buffer_key, true),
        default_account(&pid(), false),
        default_account(&pid(), false),
        default_account(&unique_key(), false),
        account(&unique_key(), 0, rent_data, system_owner(), false),
    ];
    let err = process_instruction(accounts, &[5u8]).unwrap_err();
    assert_eq!(err, ProgramError::ArithmeticOverflow);
}

#[test]
fn test_trim_uninitialized_account() {
    let accounts = vec![
        default_account(&unique_key(), false),
        default_account(&unique_key(), true),
        default_account(&pid(), false),
        default_account(&pid(), false),
        default_account(&unique_key(), false),
        default_account(&unique_key(), false),
    ];
    let err = process_instruction(accounts, &[5u8]).unwrap_err();
    assert_eq!(err, ProgramError::UninitializedAccount);
}

#[test]
fn test_set_authority_short_buffer_record() {
    let key = unique_key();
    let mut ix = vec![2u8, 1u8];
    ix.extend_from_slice(&unique_key());
    let accounts = vec![
        account(&key, 0, vec![1u8], pid(), false),
        default_account(&unique_key(), true),
        default_account(&pid(), false),
        default_account(&pid(), false),
    ];
    let err = process_instruction(accounts, &ix).unwrap_err();
    assert_eq!(err, ProgramError::InvalidAccountData);
}
