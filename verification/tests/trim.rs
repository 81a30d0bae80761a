use spl_program_metadata::account::Account;
use spl_program_metadata::processor::process_instruction;

const EXCESS_LAMPORTS: usize = 90;

fn pid() -> Vec<u8> {
    spl_program_metadata::program_id()
}

fn loader() -> Vec<u8> {
    spl_program_metadata::loader_v3_id()
}

fn system_owner() -> Vec<u8> {
    vec![0u8; 32]
}

fn unique_key() -> Vec<u8> {
    solana_pubkey::Pubkey::new_unique().to_bytes().to_vec()
}

fn minimum_balance_for(size: usize) -> u64 {
    (128 + size as u64) * 6960
}

fn lamports_for(bytes: usize) -> u64 {
    minimum_balance_for(bytes) - minimum_balance_for(0)
}

fn find_pda(seeds: &[&[u8]]) -> Vec<u8> {
    let program_id = solana_pubkey::Pubkey::try_from(pid().as_slice()).unwrap();
    let (key, _) = solana_pubkey::Pubkey::find_program_address(seeds, &program_id);
    key.to_bytes().to_vec()
}

fn account(key: &[u8], lamports: u64, data: Vec<u8>, owner: Vec<u8>, is_signer: bool) -> Account {
    Account {
        key: key.to_vec(),
        lamports,
        data,
        owner,
        is_signer,
        executable: false,
    }
}

fn default_account(key: &[u8], is_signer: bool) -> Account {
    account(key, 0, Vec::new(), system_owner(), is_signer)
}

fn create_funded_account(key: &[u8], lamports: u64) -> Account {
    account(key, lamports, Vec::new(), system_owner(), false)
}

fn setup_program_account(key: &[u8], program_data_key: &[u8]) -> Account {
    let mut data = vec![0u8; 36];
    data[0] = 2;
    data[4..36].copy_from_slice(program_data_key);
    Account {
        key: key.to_vec(),
        lamports: minimum_balance_for(36),
        data,
        owner: loader(),
        is_signer: false,
        executable: true,
    }
}

fn setup_program_data_account(key: &[u8], authority: Option<&[u8]>) -> Account {
    let mut data = vec![0u8; 45];
    data[0] = 3;
    if let Some(authority) = authority {
        data[12] = 1;
        data[13..45].copy_from_slice(authority);
    }
    account(key, minimum_balance_for(45), data, loader(), false)
}

fn rent_sysvar_account() -> Account {
    let mut data = 6960u64.to_le_bytes().to_vec();
    data.extend_from_slice(&[0u8; 9]);
    account(&unique_key(), minimum_balance_for(17), data, system_owner(), false)
}

fn allocate_ix(seed: Option<&[u8]>) -> Vec<u8> {
    let mut ix = vec![7u8];
    if let Some(seed) = seed {
        ix.extend_from_slice(seed);
    }
    ix
}

fn initialize_ix(seed: &[u8], fields: [u8; 4], data: Option<&[u8]>) -> Vec<u8> {
    let mut ix = vec![1u8];
    ix.extend_from_slice(seed);
    ix.extend_from_slice(&fields);
    if let Some(data) = data {
        ix.extend_from_slice(data);
    }
    ix
}

fn idl_seed() -> Vec<u8> {
    let mut seed = vec![0u8; 16];
    seed[0..3].copy_from_slice("idl".as_bytes());
    seed
}

#[test]
fn test_trim_canonical() {
    let authority_key = unique_key();
    let program_data_key = unique_key();
    let program_key = unique_key();
    let seed = idl_seed();

    let metadata_key = find_pda(&[&program_key, &seed]);
    let destination_key = unique_key();

    let accounts = vec![
        create_funded_account(
            &metadata_key,
            minimum_balance_for(96 + 10 + EXCESS_LAMPORTS),
        ),
        default_account(&authority_key, true),
        setup_program_account(&program_key, &program_data_key),
        setup_program_data_account(&program_data_key, Some(&authority_key)),
        default_account(&system_owner(), false),
    ];
    let mut out = process_instruction(
        accounts,
        &initialize_ix(&seed, [0, 0, 0, 0], Some(&[1u8; 10])),
    )
    .unwrap();
    assert_eq!(out[0].data[0], 2);
    assert_eq!(&out[0].data[96..], &[1u8; 10]);
    assert_eq!(
        out[0].lamports,
        minimum_balance_for(96 + 10 + EXCESS_LAMPORTS)
    );

    out.truncate(4);
    out.push(default_account(&destination_key, false));
    out.push(rent_sysvar_account());
    let out = process_instruction(out, &[5u8]).unwrap();
    assert_eq!(out[0].data[0], 2);
    assert_eq!(&out[0].data[96..], &[1u8; 10]);
    assert_eq!(out[0].lamports, minimum_balance_for(96 + 10));
    assert_eq!(out[4].lamports, lamports_for(EXCESS_LAMPORTS));
}

#[test]
fn test_trim_non_canonical() {
    let authority_key = unique_key();
    let program_data_key = unique_key();
    let program_key = unique_key();
    let seed = idl_seed();

    let metadata_key = find_pda(&[&program_key, &authority_key, &seed]);
    let destination_key = unique_key();

    // The delegate-record slot carries this program's id as the "absent"
    // sentinel, so the record is created third-party.
    let accounts = vec![
        create_funded_account(
            &metadata_key,
            minimum_balance_for(96 + 10 + EXCESS_LAMPORTS),
        ),
        default_account(&authority_key, true),
        setup_program_account(&program_key, &program_data_key),
        default_account(&pid(), false),
        default_account(&system_owner(), false),
    ];
    let mut out = process_instruction(
        accounts,
        &initialize_ix(&seed, [0, 0, 0, 0], Some(&[1u8; 10])),
    )
    .unwrap();
    assert_eq!(out[0].data[0], 2);
    assert_eq!(&out[0].data[96..], &[1u8; 10]);

    out.truncate(4);
    out.push(default_account(&destination_key, false));
    out.push(rent_sysvar_account());
    let out = process_instruction(out, &[5u8]).unwrap();
    assert_eq!(out[0].data[0], 2);
    assert_eq!(&out[0].data[96..], &[1u8; 10]);
    assert_eq!(out[0].lamports, minimum_balance_for(96 + 10));
    assert_eq!(out[4].lamports, lamports_for(EXCESS_LAMPORTS));
}

#[test]
fn test_trim_buffer() {
    let buffer_key = unique_key();
    let destination_key = unique_key();

    let accounts = vec![
        account(
            &buffer_key,
            minimum_balance_for(96 + EXCESS_LAMPORTS),
            Vec::new(),
            system_owner(),
            true,
        ),
        default_account(&buffer_key, true),
        default_account(&pid(), false),
        default_account(&pid(), false),
        default_account(&system_owner(), false),
    ];
    let mut out = process_instruction(accounts, &allocate_ix(None)).unwrap();
    assert_eq!(out[0].data.len(), 96);
    assert_eq!(out[0].data[0], 1);
    assert_eq!(out[0].lamports, minimum_balance_for(96 + EXCESS_LAMPORTS));

    out.truncate(4);
    out.push(default_account(&destination_key, false));
    out.push(rent_sysvar_account());
    let out = process_instruction(out, &[5u8]).unwrap();
    assert_eq!(out[0].data.len(), 96);
    assert_eq!(out[0].data[0], 1);
    assert_eq!(out[0].lamports, minimum_balance_for(96));
    assert_eq!(out[4].lamports, lamports_for(EXCESS_LAMPORTS));
}
