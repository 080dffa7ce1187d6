//! The pipeline head: the sequential composition of extraction and decoding
//! that turns fetched page text into a ready download run. Each stage's
//! failure is distinct, so the caller can name the failing stage: a missing
//! marker and a malformed payload never masquerade as one another.

use vstd::prelude::*;
use crate::decode::{decode, decode_ok, photo_matches, spec_photo_list};
use crate::download::Downloader;
use crate::errors::PipelineError;
use crate::extract::{extract, payload_present, spec_payload};

verus! {

/// Slices the payload out of the page text, decodes it, and starts a
/// download run over the decoded gallery. Succeeds exactly when both
/// markers are present and the payload decodes, and then the run holds
/// exactly the payload's photo records, in order, starting at the first;
/// `MarkerNotFound` is reported exactly when a marker is absent, and
/// otherwise the only error is `MalformedPayload`.
pub fn plan_run(page: &str) -> (r: Result<Downloader, PipelineError>)
    ensures
        r is Ok <==> payload_present(page@) && decode_ok(spec_payload(page@)),
        r matches Err(e) ==> (e == PipelineError::MarkerNotFound <==> !payload_present(page@)),
        r matches Err(e) ==> (e == PipelineError::MarkerNotFound || e
            == PipelineError::MalformedPayload),
        r matches Ok(d) ==> {
            &&& spec_photo_list(spec_payload(page@)) matches Some(items) && d.photos@.len()
                == items.len() && (forall|i: int|
                0 <= i < items.len() ==> photo_matches(#[trigger] d.photos@[i], items[i]))
            &&& d.wf()
            &&& d.index == 0
            &&& d.phase is Fetch
        },
{
    let payload = match extract(page) {
        Ok(p) => p,
        Err(e) => {
            return Err(e);
        },
    };
    let gallery = match decode(payload.as_str()) {
        Ok(g) => g,
        Err(e) => {
            return Err(e);
        },
    };
    Ok(Downloader::begin(gallery))
}

} // verus!
