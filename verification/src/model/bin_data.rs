//! Binary data kept in or beside a document.

use super::bytes_opt;
use vstd::prelude::*;

verus! {

/// Where binary data is kept.
#[derive(Debug, Clone, Copy, PartialEq, Eq, Structural, Default)]
pub enum BinDataType {
    #[default]
    Link,
    Embedding,
    Storage,
}

/// What came of the last access to binary data.
#[derive(Debug, Clone, Copy, PartialEq, Eq, Structural, Default)]
pub enum BinDataStatus {
    #[default]
    NotAccessed,
    Success,
    Error,
    Ignored,
}

/// One entry of the list of binary data.
#[derive(Debug, Default, PartialEq)]
pub struct BinData {
    /// The attribute word of the record.
    pub attr: u16,
    pub data_type: BinDataType,
    pub status: BinDataStatus,
    pub storage_id: u16,
    /// The record as it was read.
    pub raw_data: Option<Vec<u8>>,
}

/// The mathematical counterpart of [`BinData`].
#[verifier::ext_equal]
pub struct BinDataView {
    pub attr: u16,
    pub data_type: BinDataType,
    pub status: BinDataStatus,
    pub storage_id: u16,
    pub raw_data: Option<Seq<u8>>,
}

impl View for BinData {
    type V = BinDataView;

    open spec fn view(&self) -> BinDataView {
        BinDataView {
            attr: self.attr,
            data_type: self.data_type,
            status: self.status,
            storage_id: self.storage_id,
            raw_data: bytes_opt(self.raw_data),
        }
    }
}

/// What a list of entries holds.
pub open spec fn bin_data_views(s: Seq<BinData>) -> Seq<BinDataView> {
    s.map_values(|x: BinData| x@)
}

} // verus!
