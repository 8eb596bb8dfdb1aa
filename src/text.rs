//! The two text options of an item.
use vstd::prelude::*;

verus! {

/// Text copied to the clipboard (`copy`) and shown in large type
/// (`large_type`) for an item.
#[derive(Debug, Clone, Default, PartialEq, Eq, Hash)]
pub struct Text {
    pub copy: Option<String>,
    pub large_type: Option<String>,
}

} // verus!
