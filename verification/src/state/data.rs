//! Classified payload of a metadata record.
//!
//! Above the raw header the payload is opaque to this program; this module
//! only classifies it by the header's data source and, for an external
//! reference, decodes the fixed-size reference record.

use vstd::prelude::*;

use crate::error::ProgramError;
use crate::state::DataSource;
use crate::support::{all_zero, read_bytes, zero_bytes};

verus! {

use vstd::bytes::{spec_u32_from_le_bytes, u32_from_le_bytes};
use vstd::slice::{slice_subrange, slice_to_vec};

/// The exact size of an external-reference payload: a 32-byte address, a
/// 4-byte offset and a 4-byte optional length.
pub const EXTERNAL_DATA_LEN: usize = 40;

/// Payload stored directly in the account.
pub struct DirectData(pub Vec<u8>);

/// Payload that is a URL pointing at the real content. The bytes are kept
/// as stored: interpreting them as text is the caller's concern.
pub struct UrlData(pub Vec<u8>);

/// Payload that is a reference into another account.
pub struct ExternalData {
    /// Address of the external account.
    pub address: Vec<u8>,
    /// Offset of the content in the external account.
    pub offset: u32,
    /// Length of the content; `None` means the whole account. Stored on the
    /// wire as a zero sentinel.
    pub length: Option<u32>,
}

/// Mathematical view of an [`ExternalData`].
pub struct ExternalDataView {
    pub address: Seq<u8>,
    pub offset: u32,
    pub length: Option<u32>,
}

impl View for ExternalData {
    type V = ExternalDataView;

    open spec fn view(&self) -> ExternalDataView {
        ExternalDataView { address: self.address@, offset: self.offset, length: self.length }
    }
}

/// A record's payload, classified by the header's data source.
pub enum Data {
    Direct(DirectData),
    Url(UrlData),
    External(ExternalData),
}

/// Mathematical view of a [`Data`].
pub enum DataView {
    Direct(Seq<u8>),
    Url(Seq<u8>),
    External(ExternalDataView),
}

impl View for Data {
    type V = DataView;

    open spec fn view(&self) -> DataView {
        match self {
            Data::Direct(d) => DataView::Direct(d.0@),
            Data::Url(u) => DataView::Url(u.0@),
            Data::External(e) => DataView::External(e@),
        }
    }
}

/// The external reference encoded in the first [`EXTERNAL_DATA_LEN`] bytes.
pub open spec fn spec_parse_external(bytes: Seq<u8>) -> ExternalDataView
    recommends
        bytes.len() >= EXTERNAL_DATA_LEN,
{
    ExternalDataView {
        address: bytes.subrange(0, 32),
        offset: spec_u32_from_le_bytes(bytes.subrange(32, 36)),
        length: if bytes.subrange(36, 40) == zero_bytes(4) {
            None
        } else {
            Some(spec_u32_from_le_bytes(bytes.subrange(36, 40)))
        },
    }
}

/// The payload that `bytes` holds for `data_source`; an external reference
/// shorter than its fixed size is rejected.
pub open spec fn spec_data_from_bytes(data_source: DataSource, bytes: Seq<u8>) -> Result<
    DataView,
    ProgramError,
> {
    match data_source {
        DataSource::Direct => Ok(DataView::Direct(bytes)),
        DataSource::Url => Ok(DataView::Url(bytes)),
        DataSource::External => if bytes.len() < EXTERNAL_DATA_LEN {
            Err(ProgramError::InvalidAccountData)
        } else {
            Ok(DataView::External(spec_parse_external(bytes)))
        },
    }
}

impl Data {
    /// Classifies `bytes` as the payload kind `data_source` announces.
    pub fn from_bytes(data_source: DataSource, bytes: &[u8]) -> (r: Result<Data, ProgramError>)
        ensures
            match r {
                Ok(d) => spec_data_from_bytes(data_source, bytes@) == Ok::<DataView, ProgramError>(
                    d@,
                ),
                Err(e) => spec_data_from_bytes(data_source, bytes@) == Err::<
                    DataView,
                    ProgramError,
                >(e),
            },
    {
        match data_source {
            DataSource::Direct => Ok(Data::Direct(DirectData(slice_to_vec(bytes)))),
            DataSource::Url => Ok(Data::Url(UrlData(slice_to_vec(bytes)))),
            DataSource::External => {
                if bytes.len() < EXTERNAL_DATA_LEN {
                    Err(ProgramError::InvalidAccountData)
                } else {
                    let address = read_bytes(bytes, 0, 32);
                    let offset = u32_from_le_bytes(slice_subrange(bytes, 32, 36));
                    let length_bytes = slice_subrange(bytes, 36, 40);
                    let length = if all_zero(length_bytes) {
                        None
                    } else {
                        Some(u32_from_le_bytes(length_bytes))
                    };
                    Ok(Data::External(ExternalData { address, offset, length }))
                }
            },
        }
    }
}

} // verus!
