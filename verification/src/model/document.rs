//! Documents and their sections.

use super::bin_data::{bin_data_views, BinData, BinDataView};
use super::bytes_opt;
use super::paragraph::{paragraph_views, Paragraph, ParagraphView};
use super::style::{border_fill_views, BorderFill, BorderFillView, CharShape, ParaShape};
use vstd::prelude::*;

verus! {

/// The header of a file.
#[derive(Debug, Default, PartialEq)]
pub struct FileHeader {
    pub compressed: bool,
    pub flags: u32,
    /// The header as it was read.
    pub raw_data: Option<Vec<u8>>,
}

/// The mathematical counterpart of [`FileHeader`].
#[verifier::ext_equal]
pub struct FileHeaderView {
    pub compressed: bool,
    pub flags: u32,
    pub raw_data: Option<Seq<u8>>,
}

impl View for FileHeader {
    type V = FileHeaderView;

    open spec fn view(&self) -> FileHeaderView {
        FileHeaderView {
            compressed: self.compressed,
            flags: self.flags,
            raw_data: bytes_opt(self.raw_data),
        }
    }
}

/// The properties of a document.
#[derive(Debug, Default, PartialEq)]
pub struct DocProperties {
    pub section_count: u16,
    /// The record as it was read.
    pub raw_data: Option<Vec<u8>>,
}

/// The mathematical counterpart of [`DocProperties`].
#[verifier::ext_equal]
pub struct DocPropertiesView {
    pub section_count: u16,
    pub raw_data: Option<Seq<u8>>,
}

impl View for DocProperties {
    type V = DocPropertiesView;

    open spec fn view(&self) -> DocPropertiesView {
        DocPropertiesView {
            section_count: self.section_count,
            raw_data: bytes_opt(self.raw_data),
        }
    }
}

/// The lists that the sections of a document refer to.
#[derive(Debug, Default, PartialEq)]
pub struct DocInfo {
    pub bin_data_list: Vec<BinData>,
    pub border_fills: Vec<BorderFill>,
    pub para_shapes: Vec<ParaShape>,
    pub char_shapes: Vec<CharShape>,
    /// Whether the stream has to be written anew.
    pub raw_stream_dirty: bool,
}

/// The mathematical counterpart of [`DocInfo`].
#[verifier::ext_equal]
pub struct DocInfoView {
    pub bin_data_list: Seq<BinDataView>,
    pub border_fills: Seq<BorderFillView>,
    pub para_shapes: Seq<ParaShape>,
    pub char_shapes: Seq<CharShape>,
    pub raw_stream_dirty: bool,
}

impl View for DocInfo {
    type V = DocInfoView;

    open spec fn view(&self) -> DocInfoView {
        DocInfoView {
            bin_data_list: bin_data_views(self.bin_data_list@),
            border_fills: border_fill_views(self.border_fills@),
            para_shapes: self.para_shapes@,
            char_shapes: self.char_shapes@,
            raw_stream_dirty: self.raw_stream_dirty,
        }
    }
}

/// The size of a page and its margins.
#[derive(Debug, Clone, Copy, PartialEq, Eq, Structural, Default)]
pub struct PageDef {
    pub width: u32,
    pub height: u32,
    pub margin_left: u32,
    pub margin_right: u32,
    pub margin_top: u32,
    pub margin_bottom: u32,
}

/// The borders and the fill of a page.
#[derive(Debug, Clone, Copy, PartialEq, Eq, Structural, Default)]
pub struct PageBorderFill {
    pub attr: u32,
    pub border_fill_id: u16,
}

/// The definition of a section.
#[derive(Debug, Default, PartialEq)]
pub struct SectionDef {
    pub page_def: PageDef,
    pub page_border_fill: PageBorderFill,
    pub extra_page_border_fills: Vec<PageBorderFill>,
}

/// The mathematical counterpart of [`SectionDef`].
#[verifier::ext_equal]
pub struct SectionDefView {
    pub page_def: PageDef,
    pub page_border_fill: PageBorderFill,
    pub extra_page_border_fills: Seq<PageBorderFill>,
}

impl View for SectionDef {
    type V = SectionDefView;

    open spec fn view(&self) -> SectionDefView {
        SectionDefView {
            page_def: self.page_def,
            page_border_fill: self.page_border_fill,
            extra_page_border_fills: self.extra_page_border_fills@,
        }
    }
}

impl Clone for SectionDef {
    fn clone(&self) -> (r: SectionDef)
        ensures
            r@ == self@,
    {
        let mut extra: Vec<PageBorderFill> = Vec::new();
        for i in 0..self.extra_page_border_fills.len()
            invariant
                extra@ == self.extra_page_border_fills@.take(i as int),
        {
            extra.push(self.extra_page_border_fills[i]);
        }
        SectionDef {
            page_def: self.page_def,
            page_border_fill: self.page_border_fill,
            extra_page_border_fills: extra,
        }
    }
}

/// A section.
#[derive(Debug, Default, PartialEq)]
pub struct Section {
    pub section_def: SectionDef,
    pub paragraphs: Vec<Paragraph>,
}

/// The mathematical counterpart of [`Section`].
#[verifier::ext_equal]
pub struct SectionView {
    pub section_def: SectionDefView,
    pub paragraphs: Seq<ParagraphView>,
}

impl View for Section {
    type V = SectionView;

    open spec fn view(&self) -> SectionView {
        SectionView {
            section_def: self.section_def@,
            paragraphs: paragraph_views(self.paragraphs@),
        }
    }
}

/// What a list of sections holds.
pub open spec fn section_views(s: Seq<Section>) -> Seq<SectionView> {
    s.map_values(|x: Section| x@)
}

/// A document.
#[derive(Debug, Default, PartialEq)]
pub struct Document {
    pub header: FileHeader,
    pub doc_properties: DocProperties,
    pub doc_info: DocInfo,
    pub sections: Vec<Section>,
}

/// The mathematical counterpart of [`Document`].
#[verifier::ext_equal]
pub struct DocumentView {
    pub header: FileHeaderView,
    pub doc_properties: DocPropertiesView,
    pub doc_info: DocInfoView,
    pub sections: Seq<SectionView>,
}

impl View for Document {
    type V = DocumentView;

    open spec fn view(&self) -> DocumentView {
        DocumentView {
            header: self.header@,
            doc_properties: self.doc_properties@,
            doc_info: self.doc_info@,
            sections: section_views(self.sections@),
        }
    }
}

} // verus!
