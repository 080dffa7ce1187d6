//! The data model: one photo record as the page declares it, and the gallery
//! as the ordered list of those records. A photo is immutable once parsed;
//! the order of the list is the page's declaration order and drives the
//! download sequence.

use vstd::prelude::*;

verus! {

/// One photo of the gallery. `original_url` is the authoritative download
/// source; `taken_at` is the timestamp string the output filename is derived
/// from.
#[derive(Debug)]
pub struct Photo {
    pub url: String,
    pub original_url: String,
    pub taken_at: String,
}

/// The parsed collection of photo records for one event, in declaration
/// order.
#[derive(Debug)]
pub struct Gallery {
    pub photos: Vec<Photo>,
}

} // verus!
