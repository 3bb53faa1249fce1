//! Pictures.

use super::shape::{CommonObjAttr, CommonObjAttrView};
use super::text_opt;
use vstd::prelude::*;

verus! {

/// A picture.
#[derive(Debug, Default, PartialEq)]
pub struct Picture {
    pub common: CommonObjAttr,
    pub instance_id: u32,
    /// The link that the picture leads to.
    pub href: Option<String>,
}

/// The mathematical counterpart of [`Picture`].
#[verifier::ext_equal]
pub struct PictureView {
    pub common: CommonObjAttrView,
    pub instance_id: u32,
    pub href: Option<Seq<char>>,
}

impl View for Picture {
    type V = PictureView;

    open spec fn view(&self) -> PictureView {
        PictureView {
            common: self.common@,
            instance_id: self.instance_id,
            href: text_opt(self.href),
        }
    }
}

} // verus!
