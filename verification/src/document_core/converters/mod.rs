//! Conversions between document formats.

pub mod border_refs;
pub mod common_obj_attr_writer;
pub mod document_laws;
pub mod hwpx_to_hwp;
pub mod laws;
pub mod link_laws;
pub mod normal_form;
pub mod object_laws;
pub mod record_slots;
pub mod report;
pub mod table_laws;
