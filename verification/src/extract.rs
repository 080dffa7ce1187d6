//! Marker-based payload extraction: the gallery page embeds a JSON object
//! between two literal markers, and the payload is the text after the first
//! occurrence of the prefix marker, cut before the first following occurrence
//! of the suffix marker. No structural HTML parsing happens here: the
//! surrounding text may be arbitrary, the markers must match verbatim.

use vstd::prelude::*;
use crate::errors::PipelineError;

verus! {

/// `needle` occurs in `hay` starting at position `i`.
pub open spec fn found_at(hay: Seq<char>, needle: Seq<char>, i: int) -> bool {
    &&& 0 <= i
    &&& i + needle.len() <= hay.len()
    &&& hay.subrange(i, i + needle.len() as int) == needle
}

/// `i` is the first position where `needle` occurs in `hay`.
pub open spec fn first_at(hay: Seq<char>, needle: Seq<char>, i: int) -> bool {
    &&& found_at(hay, needle, i)
    &&& forall|j: int| 0 <= j < i ==> !found_at(hay, needle, j)
}

/// `needle` occurs somewhere in `hay`.
pub open spec fn occurs(hay: Seq<char>, needle: Seq<char>) -> bool {
    exists|i: int| found_at(hay, needle, i)
}

/// The first position where `needle` occurs in `hay`; meaningful only when
/// `occurs(hay, needle)`.
pub open spec fn first_index(hay: Seq<char>, needle: Seq<char>) -> int {
    choose|i: int| first_at(hay, needle, i)
}

/// A position that is first is the `first_index`.
pub proof fn lemma_first_at_unique(hay: Seq<char>, needle: Seq<char>, i: int)
    requires
        first_at(hay, needle, i),
    ensures
        first_index(hay, needle) == i,
{
    let k = first_index(hay, needle);
    assert(first_at(hay, needle, k));
    if k < i {
        assert(found_at(hay, needle, k));
        assert(false);
    } else if i < k {
        assert(found_at(hay, needle, i));
        assert(false);
    }
}

/// Whether `needle` occurs in `hay` at exactly position `i`.
fn match_at(hay: &str, needle: &str, i: usize) -> (b: bool)
    requires
        hay@.len() <= usize::MAX,
        i + needle@.len() <= hay@.len(),
    ensures
        b == found_at(hay@, needle@, i as int),
{
    let nn = needle.unicode_len();
    let mut k: usize = 0;
    while k < nn
        invariant
            hay@.len() <= usize::MAX,
            nn == needle@.len(),
            i + nn <= hay@.len(),
            k <= nn,
            forall|t: int| 0 <= t < k ==> hay@[i + t] == needle@[t],
        decreases nn - k,
    {
        if hay.get_char(i + k) != needle.get_char(k) {
            proof {
                if found_at(hay@, needle@, i as int) {
                    assert(hay@.subrange(i as int, i + nn as int)[k as int] == needle@[k as int]);
                }
            }
            return false;
        }
        k = k + 1;
    }
    proof {
        assert(hay@.subrange(i as int, i + nn as int) =~= needle@);
    }
    true
}

/// Finds the first occurrence of `needle` in `hay`, as a character position.
pub fn find_sub(hay: &str, needle: &str) -> (r: Option<usize>)
    ensures
        match r {
            Some(i) => first_at(hay@, needle@, i as int),
            None => !occurs(hay@, needle@),
        },
{
    let hn = hay.unicode_len();
    let nn = needle.unicode_len();
    if nn == 0 {
        proof {
            assert(hay@.subrange(0, 0) =~= needle@);
        }
        return Some(0);
    }
    if nn > hn {
        proof {
            assert forall|j: int| !found_at(hay@, needle@, j) by {}
        }
        return None;
    }
    let mut i: usize = 0;
    while i <= hn - nn
        invariant
            hn == hay@.len(),
            nn == needle@.len(),
            1 <= nn <= hn,
            i <= hn - nn + 1,
            forall|j: int| 0 <= j < i ==> !found_at(hay@, needle@, j),
        decreases hn - nn + 1 - i,
    {
        if match_at(hay, needle, i) {
            return Some(i);
        }
        i = i + 1;
    }
    proof {
        assert forall|j: int| !found_at(hay@, needle@, j) by {
            if j >= i {
                assert(j + nn > hn);
            }
        }
    }
    None
}

/// The literal that immediately precedes the embedded JSON payload.
pub open spec fn prefix_marker() -> Seq<char> {
    "var galleriesBundleData = "@
}

/// The literal that immediately follows the embedded JSON payload.
pub open spec fn suffix_marker() -> Seq<char> {
    "</script>"@
}

/// What follows the first occurrence of the prefix marker.
pub open spec fn after_prefix(page: Seq<char>) -> Seq<char> {
    page.subrange(
        first_index(page, prefix_marker()) + prefix_marker().len() as int,
        page.len() as int,
    )
}

/// Both markers are present: the prefix marker occurs in the page, and the
/// suffix marker occurs in what follows the first prefix occurrence.
pub open spec fn payload_present(page: Seq<char>) -> bool {
    &&& occurs(page, prefix_marker())
    &&& occurs(after_prefix(page), suffix_marker())
}

/// The payload: the text after the first prefix marker, cut immediately
/// before the first following suffix marker.
pub open spec fn spec_payload(page: Seq<char>) -> Seq<char> {
    after_prefix(page).subrange(0, first_index(after_prefix(page), suffix_marker()))
}

/// Slices the JSON payload out of the page text, or reports that a marker
/// is absent. Succeeds exactly when both markers are present.
pub fn extract(page: &str) -> (r: Result<String, PipelineError>)
    ensures
        r is Ok <==> payload_present(page@),
        r matches Ok(payload) ==> payload@ == spec_payload(page@),
        r matches Err(e) ==> e == PipelineError::MarkerNotFound,
{
    let prefix = "var galleriesBundleData = ";
    let suffix = "</script>";
    let hn = page.unicode_len();
    let plen = prefix.unicode_len();
    let pi = match find_sub(page, prefix) {
        Some(i) => i,
        None => {
            return Err(PipelineError::MarkerNotFound);
        },
    };
    proof {
        lemma_first_at_unique(page@, prefix_marker(), pi as int);
    }
    let rest = page.substring_char(pi + plen, hn);
    proof {
        assert(rest@ == after_prefix(page@));
    }
    let si = match find_sub(rest, suffix) {
        Some(j) => j,
        None => {
            return Err(PipelineError::MarkerNotFound);
        },
    };
    proof {
        lemma_first_at_unique(rest@, suffix_marker(), si as int);
    }
    let payload = rest.substring_char(0, si);
    Ok(String::from_str(payload))
}

} // verus!
