//! Account state: discriminators, the header enumerations and the payload
//! classification shared by buffer and metadata records.

use vstd::prelude::*;

pub mod buffer;
pub mod data;
pub mod header;

use crate::error::ProgramError;

verus! {

/// The length of the seed used to derive a record's address.
pub const SEED_LEN: usize = 16;

/// The length of the fixed header shared by buffer and metadata accounts.
///
/// The two headers are defined to be the same size so a buffer can be
/// reinterpreted in place as the prefix of a metadata record.
pub const HEADER_LEN: usize = 96;

/// Contents of a metadata account: the parsed header and the classified
/// payload after it.
pub struct Metadata {
    /// The record's header.
    pub header: header::Header,
    /// The record's payload, classified by the header's data source.
    pub data: data::Data,
}

impl Metadata {
    /// Reads a whole metadata account: the header, validated for length
    /// and data source, and the payload after it.
    pub fn from_bytes(bytes: &[u8]) -> (r: Result<Metadata, ProgramError>)
        ensures
            bytes@.len() < HEADER_LEN ==> r == Err::<Metadata, ProgramError>(
                ProgramError::InvalidAccountData,
            ),
            bytes@.len() >= HEADER_LEN ==> {
                let h = header::spec_parse_header(bytes@);
                match DataSource::spec_try_from(h.data_source) {
                    Err(e) => r == Err::<Metadata, ProgramError>(e),
                    Ok(ds) => match data::spec_data_from_bytes(ds, bytes@.skip(HEADER_LEN as int)) {
                        Err(e) => r == Err::<Metadata, ProgramError>(e),
                        Ok(dv) => r is Ok && r->Ok_0.header@ == h && r->Ok_0.data@ == dv,
                    },
                }
            },
    {
        let header = match header::Header::from_bytes(bytes) {
            Ok(h) => h,
            Err(e) => {
                return Err(e);
            },
        };
        let data_source = match header.data_source() {
            Ok(ds) => ds,
            Err(e) => {
                return Err(e);
            },
        };
        let n = bytes.len();
        let payload = vstd::slice::slice_subrange(bytes, HEADER_LEN, n);
        proof {
            assert(payload@ =~= bytes@.skip(HEADER_LEN as int));
        }
        let data = match data::Data::from_bytes(data_source, payload) {
            Ok(d) => d,
            Err(e) => {
                return Err(e);
            },
        };
        Ok(Metadata { header, data })
    }
}

/// Tag stored in byte 0 of every account owned by this program.
#[derive(Clone, Copy, Debug, PartialEq, Eq, Structural)]
pub enum AccountDiscriminator {
    Empty,
    Buffer,
    Metadata,
}

impl AccountDiscriminator {
    /// The wire byte of this discriminator.
    pub open spec fn spec_as_byte(self) -> u8 {
        match self {
            AccountDiscriminator::Empty => 0u8,
            AccountDiscriminator::Buffer => 1u8,
            AccountDiscriminator::Metadata => 2u8,
        }
    }

    /// The discriminator a wire byte denotes, if any.
    pub open spec fn spec_try_from(value: u8) -> Result<AccountDiscriminator, ProgramError> {
        if value == 0 {
            Ok(AccountDiscriminator::Empty)
        } else if value == 1 {
            Ok(AccountDiscriminator::Buffer)
        } else if value == 2 {
            Ok(AccountDiscriminator::Metadata)
        } else {
            Err(ProgramError::InvalidAccountData)
        }
    }

    /// The discriminator of an account's data: `None` when the data is
    /// empty, an error when the leading byte is not a known tag.
    pub open spec fn spec_try_from_bytes(bytes: Seq<u8>) -> Result<
        Option<AccountDiscriminator>,
        ProgramError,
    > {
        if bytes.len() == 0 {
            Ok(None)
        } else {
            match AccountDiscriminator::spec_try_from(bytes[0]) {
                Ok(d) => Ok(Some(d)),
                Err(e) => Err(e),
            }
        }
    }

    pub fn as_byte(&self) -> (r: u8)
        ensures
            r == self.spec_as_byte(),
    {
        match self {
            AccountDiscriminator::Empty => 0u8,
            AccountDiscriminator::Buffer => 1u8,
            AccountDiscriminator::Metadata => 2u8,
        }
    }

    pub fn try_from(value: u8) -> (r: Result<AccountDiscriminator, ProgramError>)
        ensures
            r == AccountDiscriminator::spec_try_from(value),
    {
        match value {
            0u8 => Ok(AccountDiscriminator::Empty),
            1u8 => Ok(AccountDiscriminator::Buffer),
            2u8 => Ok(AccountDiscriminator::Metadata),
            _ => Err(ProgramError::InvalidAccountData),
        }
    }

    pub fn try_from_bytes(bytes: &[u8]) -> (r: Result<
        Option<AccountDiscriminator>,
        ProgramError,
    >)
        ensures
            r == AccountDiscriminator::spec_try_from_bytes(bytes@),
    {
        if bytes.len() == 0 {
            Ok(None)
        } else {
            match AccountDiscriminator::try_from(*vstd::slice::slice_index_get(bytes, 0)) {
                Ok(d) => Ok(Some(d)),
                Err(e) => Err(e),
            }
        }
    }
}

/// Encoding of a record's payload.
#[derive(Clone, Copy, Debug, PartialEq, Eq, Structural)]
pub enum Encoding {
    NoEncoding,
    Utf8,
    Base58,
    Base64,
}

impl Encoding {
    pub open spec fn spec_as_byte(self) -> u8 {
        match self {
            Encoding::NoEncoding => 0u8,
            Encoding::Utf8 => 1u8,
            Encoding::Base58 => 2u8,
            Encoding::Base64 => 3u8,
        }
    }

    pub open spec fn spec_try_from(value: u8) -> Result<Encoding, ProgramError> {
        if value == 0 {
            Ok(Encoding::NoEncoding)
        } else if value == 1 {
            Ok(Encoding::Utf8)
        } else if value == 2 {
            Ok(Encoding::Base58)
        } else if value == 3 {
            Ok(Encoding::Base64)
        } else {
            Err(ProgramError::InvalidAccountData)
        }
    }

    pub fn as_byte(&self) -> (r: u8)
        ensures
            r == self.spec_as_byte(),
    {
        match self {
            Encoding::NoEncoding => 0u8,
            Encoding::Utf8 => 1u8,
            Encoding::Base58 => 2u8,
            Encoding::Base64 => 3u8,
        }
    }

    pub fn try_from(value: u8) -> (r: Result<Encoding, ProgramError>)
        ensures
            r == Encoding::spec_try_from(value),
    {
        match value {
            0u8 => Ok(Encoding::NoEncoding),
            1u8 => Ok(Encoding::Utf8),
            2u8 => Ok(Encoding::Base58),
            3u8 => Ok(Encoding::Base64),
            _ => Err(ProgramError::InvalidAccountData),
        }
    }
}

/// Compression applied to a record's payload.
#[derive(Clone, Copy, Debug, PartialEq, Eq, Structural)]
pub enum Compression {
    NoCompression,
    Gzip,
    Zstd,
}

impl Compression {
    pub open spec fn spec_as_byte(self) -> u8 {
        match self {
            Compression::NoCompression => 0u8,
            Compression::Gzip => 1u8,
            Compression::Zstd => 2u8,
        }
    }

    pub open spec fn spec_try_from(value: u8) -> Result<Compression, ProgramError> {
        if value == 0 {
            Ok(Compression::NoCompression)
        } else if value == 1 {
            Ok(Compression::Gzip)
        } else if value == 2 {
            Ok(Compression::Zstd)
        } else {
            Err(ProgramError::InvalidAccountData)
        }
    }

    pub fn as_byte(&self) -> (r: u8)
        ensures
            r == self.spec_as_byte(),
    {
        match self {
            Compression::NoCompression => 0u8,
            Compression::Gzip => 1u8,
            Compression::Zstd => 2u8,
        }
    }

    pub fn try_from(value: u8) -> (r: Result<Compression, ProgramError>)
        ensures
            r == Compression::spec_try_from(value),
    {
        match value {
            0u8 => Ok(Compression::NoCompression),
            1u8 => Ok(Compression::Gzip),
            2u8 => Ok(Compression::Zstd),
            _ => Err(ProgramError::InvalidAccountData),
        }
    }
}

/// Format of a record's payload.
#[derive(Clone, Copy, Debug, PartialEq, Eq, Structural)]
pub enum Format {
    NoFormat,
    Json,
    Yaml,
    Toml,
}

impl Format {
    pub open spec fn spec_as_byte(self) -> u8 {
        match self {
            Format::NoFormat => 0u8,
            Format::Json => 1u8,
            Format::Yaml => 2u8,
            Format::Toml => 3u8,
        }
    }

    pub open spec fn spec_try_from(value: u8) -> Result<Format, ProgramError> {
        if value == 0 {
            Ok(Format::NoFormat)
        } else if value == 1 {
            Ok(Format::Json)
        } else if value == 2 {
            Ok(Format::Yaml)
        } else if value == 3 {
            Ok(Format::Toml)
        } else {
            Err(ProgramError::InvalidAccountData)
        }
    }

    pub fn as_byte(&self) -> (r: u8)
        ensures
            r == self.spec_as_byte(),
    {
        match self {
            Format::NoFormat => 0u8,
            Format::Json => 1u8,
            Format::Yaml => 2u8,
            Format::Toml => 3u8,
        }
    }

    pub fn try_from(value: u8) -> (r: Result<Format, ProgramError>)
        ensures
            r == Format::spec_try_from(value),
    {
        match value {
            0u8 => Ok(Format::NoFormat),
            1u8 => Ok(Format::Json),
            2u8 => Ok(Format::Yaml),
            3u8 => Ok(Format::Toml),
            _ => Err(ProgramError::InvalidAccountData),
        }
    }
}

/// Where a record's payload lives.
#[derive(Clone, Copy, Debug, PartialEq, Eq, Structural)]
pub enum DataSource {
    /// The payload itself is stored after the header.
    Direct,
    /// The payload is a URL pointing at the real content.
    Url,
    /// The payload is a fixed-size reference to another account.
    External,
}

impl DataSource {
    pub open spec fn spec_as_byte(self) -> u8 {
        match self {
            DataSource::Direct => 0u8,
            DataSource::Url => 1u8,
            DataSource::External => 2u8,
        }
    }

    pub open spec fn spec_try_from(value: u8) -> Result<DataSource, ProgramError> {
        if value == 0 {
            Ok(DataSource::Direct)
        } else if value == 1 {
            Ok(DataSource::Url)
        } else if value == 2 {
            Ok(DataSource::External)
        } else {
            Err(ProgramError::InvalidAccountData)
        }
    }

    /// Whether `length` is a legal payload length for this source: direct
    /// and URL payloads must be non-empty, an external reference must be
    /// exactly the fixed reference size.
    pub open spec fn spec_validate_data_length(self, length: int) -> Result<(), ProgramError> {
        match self {
            DataSource::Direct | DataSource::Url => if length > 0 {
                Ok(())
            } else {
                Err(ProgramError::InvalidAccountData)
            },
            DataSource::External => if length == data::EXTERNAL_DATA_LEN {
                Ok(())
            } else {
                Err(ProgramError::InvalidAccountData)
            },
        }
    }

    pub fn as_byte(&self) -> (r: u8)
        ensures
            r == self.spec_as_byte(),
    {
        match self {
            DataSource::Direct => 0u8,
            DataSource::Url => 1u8,
            DataSource::External => 2u8,
        }
    }

    pub fn try_from(value: u8) -> (r: Result<DataSource, ProgramError>)
        ensures
            r == DataSource::spec_try_from(value),
    {
        match value {
            0u8 => Ok(DataSource::Direct),
            1u8 => Ok(DataSource::Url),
            2u8 => Ok(DataSource::External),
            _ => Err(ProgramError::InvalidAccountData),
        }
    }

    pub fn validate_data_length(&self, length: usize) -> (r: Result<(), ProgramError>)
        ensures
            r == self.spec_validate_data_length(length as int),
    {
        match self {
            DataSource::Direct | DataSource::Url => {
                if length > 0 {
                    Ok(())
                } else {
                    Err(ProgramError::InvalidAccountData)
                }
            },
            DataSource::External => {
                if length == data::EXTERNAL_DATA_LEN {
                    Ok(())
                } else {
                    Err(ProgramError::InvalidAccountData)
                }
            },
        }
    }
}

} // verus!
