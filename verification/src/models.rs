//! The write-side payload of the quote table.
//!
//! The quote table itself is plain storage outside the core; the core only
//! fixes the shape of a new entry and the length that is stored with it.

use vstd::prelude::*;
use vstd::string::StrSliceExecFns;

verus! {

/// A new quotation as a caller submits it.
pub struct NewSentence {
    /// The quotation text.
    pub content: String,
    /// An optional category label.
    pub category: Option<String>,
    /// The optional work it is taken from.
    pub from_source: Option<String>,
    /// The optional author it is attributed to.
    pub from_author: Option<String>,
}

impl NewSentence {
    /// The length stored beside the entry: the number of characters of the
    /// content, not of its bytes.
    pub fn content_len(&self) -> (r: usize)
        ensures
            r == self.content@.len(),
    {
        self.content.as_str().unicode_len()
    }
}

} // verus!
