use spl_program_metadata::client::{
    CloseInstructionData, ExtendInstructionArgs, ExtendInstructionData, RemainderOptionBytes,
    SetAuthorityInstructionData, SetDataInstructionArgs, SetDataInstructionData,
    WriteInstructionArgs, WriteInstructionData,
};
use spl_program_metadata::error::ProgramError;
use spl_program_metadata::pda::{derive_address, verify_address};
use spl_program_metadata::rent::minimum_balance;
use spl_program_metadata::state::buffer::Buffer;
use spl_program_metadata::state::data::Data;
use spl_program_metadata::state::header::Header;
use spl_program_metadata::state::{
    AccountDiscriminator, Compression, DataSource, Encoding, Format, Metadata,
};

fn pid() -> Vec<u8> {
    spl_program_metadata::program_id()
}

fn unique_key() -> Vec<u8> {
    solana_pubkey::Pubkey::new_unique().to_bytes().to_vec()
}

#[test]
fn test_header_round_trip() {
    let header = Header {
        program: unique_key(),
        authority: Some(unique_key()),
        mutable: true,
        canonical: false,
        seed: vec![7u8; 16],
        encoding: 1,
        compression: 2,
        format: 3,
        data_source: 0,
        data_length: 513,
    };
    let bytes = header.to_bytes();
    assert_eq!(bytes.len(), 96);
    assert_eq!(bytes[0], 2);
    let parsed = Header::from_bytes(&bytes).unwrap();
    assert_eq!(parsed.program, header.program);
    assert_eq!(parsed.authority, header.authority);
    assert_eq!(parsed.mutable, header.mutable);
    assert_eq!(parsed.canonical, header.canonical);
    assert_eq!(parsed.seed, header.seed);
    assert_eq!(parsed.encoding, header.encoding);
    assert_eq!(parsed.compression, header.compression);
    assert_eq!(parsed.format, header.format);
    assert_eq!(parsed.data_source, header.data_source);
    assert_eq!(parsed.data_length, header.data_length);
    // Little-endian length field at its fixed offset.
    assert_eq!(&bytes[87..91], &[1, 2, 0, 0]);
}

#[test]
fn test_header_absent_authority_is_zero_sentinel() {
    let header = Header {
        program: unique_key(),
        authority: None,
        mutable: true,
        canonical: true,
        seed: vec![0u8; 16],
        encoding: 0,
        compression: 0,
        format: 0,
        data_source: 0,
        data_length: 0,
    };
    let bytes = header.to_bytes();
    assert_eq!(&bytes[33..65], &[0u8; 32]);
    let parsed = Header::from_bytes(&bytes).unwrap();
    assert!(parsed.authority.is_none());
}

#[test]
fn test_buffer_round_trip() {
    let buffer = Buffer {
        program: Some(unique_key()),
        authority: Some(unique_key()),
        canonical: true,
        seed: vec![3u8; 16],
    };
    let bytes = buffer.to_bytes();
    assert_eq!(bytes.len(), 96);
    assert_eq!(bytes[0], 1);
    let parsed = Buffer::from_bytes(&bytes).unwrap();
    assert_eq!(parsed.program, buffer.program);
    assert_eq!(parsed.authority, buffer.authority);
    assert_eq!(parsed.canonical, buffer.canonical);
    assert_eq!(parsed.seed, buffer.seed);
}

#[test]
fn test_header_too_short() {
    assert_eq!(
        Header::from_bytes(&[0u8; 95]).unwrap_err(),
        ProgramError::InvalidAccountData
    );
    assert_eq!(
        Buffer::from_bytes(&[0u8; 12]).unwrap_err(),
        ProgramError::InvalidAccountData
    );
}

#[test]
fn test_metadata_external_reference() {
    let address = unique_key();
    let mut header = Header {
        program: unique_key(),
        authority: None,
        mutable: true,
        canonical: true,
        seed: vec![0u8; 16],
        encoding: 0,
        compression: 0,
        format: 0,
        data_source: 2,
        data_length: 40,
    };
    let mut bytes = header.to_bytes();
    bytes.extend_from_slice(&address);
    bytes.extend_from_slice(&77u32.to_le_bytes());
    bytes.extend_from_slice(&0u32.to_le_bytes());
    let record = Metadata::from_bytes(&bytes).unwrap();
    match record.data {
        Data::External(e) => {
            assert_eq!(e.address, address);
            assert_eq!(e.offset, 77);
            assert_eq!(e.length, None);
        },
        _ => panic!("expected an external reference"),
    }

    // A non-zero stored length reads back as present.
    header.data_length = 40;
    let mut bytes = header.to_bytes();
    bytes.extend_from_slice(&address);
    bytes.extend_from_slice(&0u32.to_le_bytes());
    bytes.extend_from_slice(&9u32.to_le_bytes());
    let record = Metadata::from_bytes(&bytes).unwrap();
    match record.data {
        Data::External(e) => assert_eq!(e.length, Some(9)),
        _ => panic!("expected an external reference"),
    }
}

#[test]
fn test_enumeration_bytes() {
    assert!(matches!(Encoding::try_from(0), Ok(Encoding::NoEncoding)));
    assert!(matches!(Encoding::try_from(1), Ok(Encoding::Utf8)));
    assert!(matches!(Encoding::try_from(3), Ok(Encoding::Base64)));
    assert!(Encoding::try_from(4).is_err());
    assert!(matches!(Compression::try_from(2), Ok(Compression::Zstd)));
    assert!(Compression::try_from(3).is_err());
    assert!(matches!(Format::try_from(2), Ok(Format::Yaml)));
    assert!(Format::try_from(4).is_err());
    assert!(matches!(DataSource::try_from(1), Ok(DataSource::Url)));
    assert!(DataSource::try_from(3).is_err());
}

#[test]
fn test_validate_data_length() {
    assert!(DataSource::Direct.validate_data_length(1).is_ok());
    assert_eq!(
        DataSource::Direct.validate_data_length(0).unwrap_err(),
        ProgramError::InvalidAccountData
    );
    assert!(DataSource::Url.validate_data_length(20).is_ok());
    assert!(DataSource::External.validate_data_length(40).is_ok());
    assert_eq!(
        DataSource::External.validate_data_length(39).unwrap_err(),
        ProgramError::InvalidAccountData
    );
}

#[test]
fn test_discriminator_from_bytes() {
    assert_eq!(AccountDiscriminator::try_from_bytes(&[]).unwrap(), None);
    assert_eq!(
        AccountDiscriminator::try_from_bytes(&[2u8, 9u8]).unwrap(),
        Some(AccountDiscriminator::Metadata)
    );
    assert!(AccountDiscriminator::try_from_bytes(&[7u8]).is_err());
}

#[test]
fn test_minimum_balance_matches_host_rent() {
    let mut rent_data = 6960u64.to_le_bytes().to_vec();
    rent_data.extend_from_slice(&[0u8; 9]);
    let ours = minimum_balance(&rent_data, 100).unwrap();
    assert_eq!(ours, (128 + 100) * 6960);
    let host = pinocchio::sysvars::rent::Rent::from_bytes(&rent_data)
        .unwrap()
        .try_minimum_balance(100)
        .unwrap();
    assert_eq!(ours, host);
    assert_eq!(
        minimum_balance(&rent_data[..4], 100).unwrap_err(),
        ProgramError::InvalidAccountData
    );
}

#[test]
fn test_derive_address_matches_host_derivation() {
    let program = unique_key();
    let delegate = unique_key();
    let seed = vec![5u8; 16];
    let program_id = solana_pubkey::Pubkey::try_from(pid().as_slice()).unwrap();

    let (expected, expected_bump) = solana_pubkey::Pubkey::find_program_address(
        &[&program, &seed],
        &program_id,
    );
    let (derived, bump) = derive_address(&program, None, &seed).unwrap();
    assert_eq!(derived, expected.to_bytes().to_vec());
    assert_eq!(bump, expected_bump);

    let (expected_third, _) = solana_pubkey::Pubkey::find_program_address(
        &[&program, &delegate, &seed],
        &program_id,
    );
    let (derived_third, _) = derive_address(&program, Some(&delegate), &seed).unwrap();
    assert_eq!(derived_third, expected_third.to_bytes().to_vec());
    assert_ne!(derived, derived_third);
}

#[test]
fn test_verify_address_classification() {
    let program = unique_key();
    let delegate = unique_key();
    let seed = vec![6u8; 16];

    let (canonical, _) = derive_address(&program, None, &seed).unwrap();
    assert_eq!(verify_address(&canonical, &program, &delegate, &seed), Ok(true));

    let (third, _) = derive_address(&program, Some(&delegate), &seed).unwrap();
    assert_eq!(verify_address(&third, &program, &delegate, &seed), Ok(false));

    let other = unique_key();
    assert_eq!(
        verify_address(&other, &program, &delegate, &seed),
        Err(ProgramError::InvalidSeeds)
    );
}

#[test]
fn test_client_instruction_bytes() {
    assert_eq!(WriteInstructionData::new().discriminator, 0);
    assert_eq!(SetAuthorityInstructionData::new().discriminator, 2);
    assert_eq!(SetDataInstructionData::new().discriminator, 3);
    assert_eq!(CloseInstructionData::new().discriminator, 6);
    assert_eq!(ExtendInstructionData::new().discriminator, 8);

    let write = WriteInstructionArgs {
        offset: 5,
        data: vec![1, 2, 3],
    };
    assert_eq!(write.instruction_bytes(), vec![0, 5, 0, 0, 0, 1, 2, 3]);

    let extend = ExtendInstructionArgs { length: 513 };
    assert_eq!(extend.instruction_bytes(), vec![8, 1, 2]);

    let set_data = SetDataInstructionArgs {
        encoding: Encoding::Utf8,
        compression: Compression::NoCompression,
        format: Format::Json,
        data_source: DataSource::Direct,
        data: RemainderOptionBytes::Present(vec![9, 9]),
    };
    assert_eq!(set_data.instruction_bytes(), vec![3, 1, 0, 1, 0, 9, 9]);

    let set_data_absent = SetDataInstructionArgs {
        encoding: Encoding::NoEncoding,
        compression: Compression::Gzip,
        format: Format::Toml,
        data_source: DataSource::Url,
        data: RemainderOptionBytes::Absent,
    };
    assert_eq!(set_data_absent.instruction_bytes(), vec![3, 0, 1, 3, 1]);
}
