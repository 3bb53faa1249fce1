//! The report of what was changed in a document.

use super::normal_form::Change;
use vstd::prelude::*;

verus! {

/// A number as a counter shows it: the largest one stands for all larger ones.
pub open spec fn capped(n: nat) -> nat {
    if n <= u32::MAX {
        n
    } else {
        u32::MAX as nat
    }
}

/// A counter after one step more.
pub fn one_more(n: u32) -> (r: u32)
    ensures
        r == capped((n + 1) as nat),
{
    if n < u32::MAX {
        n + 1
    } else {
        n
    }
}

/// What has been changed: for each kind of change, how often.
#[derive(Debug, Default, Clone, PartialEq)]
pub struct AdapterReport {
    /// Why nothing was done, where that was so.
    pub skipped_reason: Option<String>,
    /// Control headers of tables made.
    pub tables_ctrl_data_synthesized: u32,
    /// Attribute words of tables packed.
    pub tables_attr_packed: u32,
    /// Tables that broke inside cells and now break between rows.
    pub tables_page_break_materialized: u32,
    /// Tables whose outer margins were taken over into their headers.
    pub tables_outer_margin_materialized: u32,
    /// Attribute words of control headers of tables packed.
    pub table_ctrl_header_attr_materialized: u32,
    /// Attribute words of table records set.
    pub table_record_attr_materialized: u32,
    /// Tables whose row sizes were counted.
    pub table_record_row_sizes_materialized: u32,
    /// Table records whose last bytes were added.
    pub table_record_extra_materialized: u32,
    /// Cells whose own margins were marked in their text direction.
    pub cells_list_attr_bit16_set: u32,
    /// Cells whose list headers were completed.
    pub cells_list_header_contract_materialized: u32,
    /// Fills that showed nothing and were removed.
    pub border_fills_no_fill_normalized: u32,
    /// File headers marked as compressed.
    pub file_header_compression_normalized: u32,
    /// Numbers of sections corrected.
    pub doc_properties_section_count_normalized: u32,
    /// Lists of binary data corrected.
    pub bin_data_metadata_normalized: u32,
    /// Section definitions inserted.
    pub section_def_controls_inserted: u32,
    /// Links of pictures written to data records.
    pub picture_href_ctrl_data_materialized: u32,
    /// List headers of text boxes completed.
    pub text_box_list_header_tail_materialized: u32,
    /// Paragraph headers in text boxes completed.
    pub text_box_para_header_tail_materialized: u32,
    /// Attribute words of control headers of equations packed.
    pub equation_ctrl_header_attr_materialized: u32,
    /// Fonts and versions of equations corrected.
    pub equation_font_version_normalized: u32,
}

impl AdapterReport {
    /// How often a kind of change took place.
    pub open spec fn count(self, c: Change) -> nat {
        match c {
            Change::TableCtrlData => self.tables_ctrl_data_synthesized as nat,
            Change::TableAttr => self.tables_attr_packed as nat,
            Change::TablePageBreak => self.tables_page_break_materialized as nat,
            Change::TableOuterMargin => self.tables_outer_margin_materialized as nat,
            Change::TableCtrlHeaderAttr => self.table_ctrl_header_attr_materialized as nat,
            Change::TableRecordAttr => self.table_record_attr_materialized as nat,
            Change::TableRowSizes => self.table_record_row_sizes_materialized as nat,
            Change::TableRecordExtra => self.table_record_extra_materialized as nat,
            Change::CellListAttr => self.cells_list_attr_bit16_set as nat,
            Change::CellListHeader => self.cells_list_header_contract_materialized as nat,
            Change::BorderFill => self.border_fills_no_fill_normalized as nat,
            Change::FileHeader => self.file_header_compression_normalized as nat,
            Change::SectionCount => self.doc_properties_section_count_normalized as nat,
            Change::BinData => self.bin_data_metadata_normalized as nat,
            Change::SectionDef => self.section_def_controls_inserted as nat,
            Change::PictureHref => self.picture_href_ctrl_data_materialized as nat,
            Change::TextBoxListHeader => self.text_box_list_header_tail_materialized as nat,
            Change::TextBoxParaHeader => self.text_box_para_header_tail_materialized as nat,
            Change::EquationCtrlHeader => self.equation_ctrl_header_attr_materialized as nat,
            Change::EquationFontVersion => self.equation_font_version_normalized as nat,
        }
    }

    /// Whether the report counts `more` changes of each kind than another one.
    pub open spec fn grown(self, before: AdapterReport, more: spec_fn(Change) -> nat) -> bool {
        &&& self.skipped_reason == before.skipped_reason
        &&& forall|c: Change| #[trigger] self.count(c) == capped(before.count(c) + more(c))
    }

    /// A report of no change.
    pub fn new() -> (r: AdapterReport)
        ensures
            r.skipped_reason is None,
            forall|c: Change| #[trigger] r.count(c) == 0,
    {
        AdapterReport {
            skipped_reason: None,
            tables_ctrl_data_synthesized: 0,
            tables_attr_packed: 0,
            tables_page_break_materialized: 0,
            tables_outer_margin_materialized: 0,
            table_ctrl_header_attr_materialized: 0,
            table_record_attr_materialized: 0,
            table_record_row_sizes_materialized: 0,
            table_record_extra_materialized: 0,
            cells_list_attr_bit16_set: 0,
            cells_list_header_contract_materialized: 0,
            border_fills_no_fill_normalized: 0,
            file_header_compression_normalized: 0,
            doc_properties_section_count_normalized: 0,
            bin_data_metadata_normalized: 0,
            section_def_controls_inserted: 0,
            picture_href_ctrl_data_materialized: 0,
            text_box_list_header_tail_materialized: 0,
            text_box_para_header_tail_materialized: 0,
            equation_ctrl_header_attr_materialized: 0,
            equation_font_version_normalized: 0,
        }
    }

    /// The report, with the reason why nothing was done.
    pub fn no_op(self, reason: &str) -> (r: AdapterReport)
        ensures
            r.skipped_reason is Some,
            r.skipped_reason->0@ == reason@,
            forall|c: Change| #[trigger] r.count(c) == self.count(c),
    {
        let mut r = self;
        r.skipped_reason = Some(reason.to_owned());
        r
    }

    /// Whether anything was changed.
    pub fn changed_anything(&self) -> (r: bool)
        ensures
            r == (self.skipped_reason is None && exists|c: Change| #[trigger] self.count(c) > 0),
    {
        let any = self.tables_ctrl_data_synthesized > 0
            || self.tables_attr_packed > 0
            || self.tables_page_break_materialized > 0
            || self.tables_outer_margin_materialized > 0
            || self.table_ctrl_header_attr_materialized > 0
            || self.table_record_attr_materialized > 0
            || self.table_record_row_sizes_materialized > 0
            || self.table_record_extra_materialized > 0
            || self.cells_list_attr_bit16_set > 0
            || self.cells_list_header_contract_materialized > 0
            || self.border_fills_no_fill_normalized > 0
            || self.file_header_compression_normalized > 0
            || self.doc_properties_section_count_normalized > 0
            || self.bin_data_metadata_normalized > 0
            || self.section_def_controls_inserted > 0
            || self.picture_href_ctrl_data_materialized > 0
            || self.text_box_list_header_tail_materialized > 0
            || self.text_box_para_header_tail_materialized > 0
            || self.equation_ctrl_header_attr_materialized > 0
            || self.equation_font_version_normalized > 0;
        proof {
            assert(self.tables_ctrl_data_synthesized == self.count(Change::TableCtrlData));
            assert(self.tables_attr_packed == self.count(Change::TableAttr));
            assert(self.tables_page_break_materialized == self.count(Change::TablePageBreak));
            assert(self.tables_outer_margin_materialized == self.count(Change::TableOuterMargin));
            assert(self.table_ctrl_header_attr_materialized == self.count(
                Change::TableCtrlHeaderAttr,
            ));
            assert(self.table_record_attr_materialized == self.count(Change::TableRecordAttr));
            assert(self.table_record_row_sizes_materialized == self.count(Change::TableRowSizes));
            assert(self.table_record_extra_materialized == self.count(Change::TableRecordExtra));
            assert(self.cells_list_attr_bit16_set == self.count(Change::CellListAttr));
            assert(self.cells_list_header_contract_materialized == self.count(
                Change::CellListHeader,
            ));
            assert(self.border_fills_no_fill_normalized == self.count(Change::BorderFill));
            assert(self.file_header_compression_normalized == self.count(Change::FileHeader));
            assert(self.doc_properties_section_count_normalized == self.count(
                Change::SectionCount,
            ));
            assert(self.bin_data_metadata_normalized == self.count(Change::BinData));
            assert(self.section_def_controls_inserted == self.count(Change::SectionDef));
            assert(self.picture_href_ctrl_data_materialized == self.count(Change::PictureHref));
            assert(self.text_box_list_header_tail_materialized == self.count(
                Change::TextBoxListHeader,
            ));
            assert(self.text_box_para_header_tail_materialized == self.count(
                Change::TextBoxParaHeader,
            ));
            assert(self.equation_ctrl_header_attr_materialized == self.count(
                Change::EquationCtrlHeader,
            ));
            assert(self.equation_font_version_normalized == self.count(
                Change::EquationFontVersion,
            ));
        }
        self.skipped_reason.is_none() && any
    }
}

/// A counter shows the number itself, as long as it can.
pub proof fn law_counter_shows(n: nat)
    ensures
        n <= 0xffff_ffff ==> capped(n) == n,
        n > 0xffff_ffff ==> capped(n) == 0xffff_ffff,
{
}

/// Each kind of change is counted by the counter of its own name, and by no other: a report that
/// differs in one counter differs in the count of that kind alone.
pub proof fn law_counters(r: AdapterReport)
    ensures
        r.count(Change::TableCtrlData) == r.tables_ctrl_data_synthesized,
        r.count(Change::TableAttr) == r.tables_attr_packed,
        r.count(Change::TablePageBreak) == r.tables_page_break_materialized,
        r.count(Change::TableOuterMargin) == r.tables_outer_margin_materialized,
        r.count(Change::TableCtrlHeaderAttr) == r.table_ctrl_header_attr_materialized,
        r.count(Change::TableRecordAttr) == r.table_record_attr_materialized,
        r.count(Change::TableRowSizes) == r.table_record_row_sizes_materialized,
        r.count(Change::TableRecordExtra) == r.table_record_extra_materialized,
        r.count(Change::CellListAttr) == r.cells_list_attr_bit16_set,
        r.count(Change::CellListHeader) == r.cells_list_header_contract_materialized,
        r.count(Change::BorderFill) == r.border_fills_no_fill_normalized,
        r.count(Change::FileHeader) == r.file_header_compression_normalized,
        r.count(Change::SectionCount) == r.doc_properties_section_count_normalized,
        r.count(Change::BinData) == r.bin_data_metadata_normalized,
        r.count(Change::SectionDef) == r.section_def_controls_inserted,
        r.count(Change::PictureHref) == r.picture_href_ctrl_data_materialized,
        r.count(Change::TextBoxListHeader) == r.text_box_list_header_tail_materialized,
        r.count(Change::TextBoxParaHeader) == r.text_box_para_header_tail_materialized,
        r.count(Change::EquationCtrlHeader) == r.equation_ctrl_header_attr_materialized,
        r.count(Change::EquationFontVersion) == r.equation_font_version_normalized,
{
}

} // verus!
