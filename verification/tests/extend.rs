use spl_program_metadata::account::Account;
use spl_program_metadata::processor::process_instruction;

const EXTEND_LENGTH: usize = 200;

fn pid() -> Vec<u8> {
    spl_program_metadata::program_id()
}

fn loader() -> Vec<u8> {
    spl_program_metadata::loader_v3_id()
}

fn system_owner() -> Vec<u8> {
    vec![0u8; 32]
}

fn unique_key() -> Vec<u8> {
    solana_pubkey::Pubkey::new_unique().to_bytes().to_vec()
}

fn minimum_balance_for(size: usize) -> u64 {
    (128 + size as u64) * 6960
}

fn find_pda(seeds: &[&[u8]]) -> Vec<u8> {
    let program_id = solana_pubkey::Pubkey::try_from(pid().as_slice()).unwrap();
    let (key, _) = solana_pubkey::Pubkey::find_program_address(seeds, &program_id);
    key.to_bytes().to_vec()
}

fn account(key: &[u8], lamports: u64, data: Vec<u8>, owner: Vec<u8>, is_signer: bool) -> Account {
    Account {
        key: key.to_vec(),
        lamports,
        data,
        owner,
        is_signer,
        executable: false,
    }
}

fn default_account(key: &[u8], is_signer: bool) -> Account {
    account(key, 0, Vec::new(), system_owner(), is_signer)
}

fn create_funded_account(key: &[u8], lamports: u64) -> Account {
    account(key, lamports, Vec::new(), system_owner(), false)
}

fn setup_program_account(key: &[u8], program_data_key: &[u8]) -> Account {
    let mut data = vec![0u8; 36];
    data[0] = 2;
    data[4..36].copy_from_slice(program_data_key);
    Account {
        key: key.to_vec(),
        lamports: minimum_balance_for(36),
        data,
        owner: loader(),
        is_signer: false,
        executable: true,
    }
}

fn setup_program_data_account(key: &[u8], authority: Option<&[u8]>) -> Account {
    let mut data = vec![0u8; 45];
    data[0] = 3;
    if let Some(authority) = authority {
        data[12] = 1;
        data[13..45].copy_from_slice(authority);
    }
    account(key, minimum_balance_for(45), data, loader(), false)
}

fn allocate_ix(seed: Option<&[u8]>) -> Vec<u8> {
    let mut ix = vec![7u8];
    if let Some(seed) = seed {
        ix.extend_from_slice(seed);
    }
    ix
}

fn extend_ix(length: u16) -> Vec<u8> {
    let mut ix = vec![8u8];
    ix.extend_from_slice(&length.to_le_bytes());
    ix
}

fn idl_seed() -> Vec<u8> {
    let mut seed = vec![0u8; 16];
    seed[0..3].copy_from_slice("idl".as_bytes());
    seed
}

#[test]
fn test_extend_canonical() {
    let authority_key = unique_key();
    let program_data_key = unique_key();
    let program_key = unique_key();
    let seed = idl_seed();

    let buffer_key = find_pda(&[&program_key, &seed]);
    let accounts = vec![
        create_funded_account(&buffer_key, minimum_balance_for(96 + EXTEND_LENGTH)),
        default_account(&authority_key, true),
        setup_program_account(&program_key, &program_data_key),
        setup_program_data_account(&program_data_key, Some(&authority_key)),
        default_account(&system_owner(), false),
    ];

    let out = process_instruction(accounts, &allocate_ix(Some(&seed))).unwrap();
    assert_eq!(out[0].data[0], 1);
    assert_eq!(out[0].data.len(), 96);

    let mut next: Vec<Account> = Vec::new();
    for (i, a) in out.into_iter().enumerate() {
        if i < 4 {
            next.push(a);
        }
    }
    let out = process_instruction(next, &extend_ix(EXTEND_LENGTH as u16)).unwrap();
    assert_eq!(out[0].data.len(), 96 + EXTEND_LENGTH);
    assert_eq!(out[0].lamports, minimum_balance_for(96 + EXTEND_LENGTH));
}

#[test]
fn test_extend_non_canonical() {
    let authority_key = unique_key();
    let program_data_key = unique_key();
    let program_key = unique_key();
    let seed = idl_seed();

    let buffer_key = find_pda(&[&program_key, &authority_key, &seed]);
    let accounts = vec![
        create_funded_account(&buffer_key, minimum_balance_for(96 + EXTEND_LENGTH)),
        default_account(&authority_key, true),
        setup_program_account(&program_key, &program_data_key),
        setup_program_data_account(&program_data_key, Some(&pid())),
        default_account(&system_owner(), false),
    ];

    let out = process_instruction(accounts, &allocate_ix(Some(&seed))).unwrap();
    assert_eq!(out[0].data.len(), 96);
    assert_eq!(out[0].data[0], 1);

    let mut next: Vec<Account> = Vec::new();
    for (i, a) in out.into_iter().enumerate() {
        if i < 4 {
            next.push(a);
        }
    }
    let out = process_instruction(next, &extend_ix(EXTEND_LENGTH as u16)).unwrap();
    assert_eq!(out[0].data.len(), 96 + EXTEND_LENGTH);
    assert_eq!(out[0].lamports, minimum_balance_for(96 + EXTEND_LENGTH));
}

#[test]
fn test_extend_buffer() {
    let buffer_key = unique_key();
    let accounts = vec![
        account(
            &buffer_key,
            minimum_balance_for(96 + EXTEND_LENGTH),
            Vec::new(),
            system_owner(),
            true,
        ),
        default_account(&buffer_key, true),
        default_account(&pid(), false),
        default_account(&pid(), false),
        default_account(&system_owner(), false),
    ];

    let out = process_instruction(accounts, &allocate_ix(None)).unwrap();
    assert_eq!(out[0].data.len(), 96);
    assert_eq!(out[0].data[0], 1);

    let mut next: Vec<Account> = Vec::new();
    for (i, a) in out.into_iter().enumerate() {
        if i < 4 {
            next.push(a);
        }
    }
    let out = process_instruction(next, &extend_ix(EXTEND_LENGTH as u16)).unwrap();
    assert_eq!(out[0].data.len(), 96 + EXTEND_LENGTH);
    assert_eq!(out[0].lamports, minimum_balance_for(96 + EXTEND_LENGTH));
}
