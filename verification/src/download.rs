//! The downloader: for each photo in gallery order, fetch its content and
//! store it under a filename derived from the photo's timestamp. The network
//! and file operations are performed by the caller; [`Downloader`] holds the
//! sequencing and is fail-fast: the first photo that cannot be fetched or
//! stored aborts the whole run, and nothing later is attempted.
//!
//! The filename cuts the timestamp at its last `.`, dropping the sub-second
//! part the source appends; a timestamp without a `.` is an error rather
//! than a guess.

use vstd::prelude::*;
use crate::errors::PipelineError;
use crate::gallery::{Gallery, Photo};

verus! {

/// `s` contains at least one `'.'`.
pub open spec fn has_dot(s: Seq<char>) -> bool {
    exists|i: int| 0 <= i < s.len() && s[i] == '.'
}

/// `i` is the position of the last `'.'` in `s`.
pub open spec fn is_last_dot(s: Seq<char>, i: int) -> bool {
    &&& 0 <= i < s.len()
    &&& s[i] == '.'
    &&& forall|j: int| i < j < s.len() ==> s[j] != '.'
}

/// The position of the last `'.'` in `s`; meaningful only when `has_dot(s)`.
pub open spec fn last_dot(s: Seq<char>) -> int {
    choose|i: int| is_last_dot(s, i)
}

/// A position that is the last dot is the `last_dot`.
pub proof fn lemma_last_dot_unique(s: Seq<char>, i: int)
    requires
        is_last_dot(s, i),
    ensures
        last_dot(s) == i,
{
    let k = last_dot(s);
    assert(is_last_dot(s, k));
    if k < i {
        assert(s[i] != '.');
        assert(false);
    } else if i < k {
        assert(s[k] != '.');
        assert(false);
    }
}

/// The filename derived from a timestamp: everything before the last `'.'`,
/// with the image extension appended.
pub open spec fn spec_filename(ts: Seq<char>) -> Seq<char> {
    ts.subrange(0, last_dot(ts)) + ".jpg"@
}

/// Derives the output filename from a timestamp, as `spec_filename`
/// describes. Succeeds exactly when the timestamp contains a `'.'`.
pub fn derive_filename(ts: &str) -> (r: Result<String, PipelineError>)
    ensures
        r is Ok <==> has_dot(ts@),
        r matches Ok(name) ==> name@ == spec_filename(ts@),
        r matches Err(e) ==> e == PipelineError::TimestampFormat,
{
    let n = ts.unicode_len();
    let mut i: usize = n;
    while i > 0
        invariant
            n == ts@.len(),
            i <= n,
            forall|j: int| i <= j < n ==> ts@[j] != '.',
        decreases i,
    {
        i = i - 1;
        if ts.get_char(i) == '.' {
            proof {
                lemma_last_dot_unique(ts@, i as int);
            }
            let stem = ts.substring_char(0, i);
            let name = String::from_str(stem).concat(".jpg");
            proof {
                assert(name@ =~= spec_filename(ts@));
            }
            return Ok(name);
        }
    }
    Err(PipelineError::TimestampFormat)
}

/// Where a download run stands with respect to the photo at the current
/// position.
#[derive(Debug)]
pub enum DownloadPhase {
    /// The photo's content has not been fetched yet; if the position is past
    /// the last photo, the run is complete.
    Fetch,
    /// The photo's content is fetched and should be stored under `filename`.
    Store { filename: String },
    /// The run failed; nothing further is attempted.
    Failed { error: PipelineError },
}

/// What the caller must do next to advance a download run.
pub enum DownloadAction<'a> {
    /// Perform an HTTP GET of `url` and keep the bytes; report the outcome.
    FetchPhoto { url: &'a str },
    /// Write the bytes just fetched to `filename` in the destination
    /// directory; report the outcome.
    StoreFile { filename: &'a str },
    /// Every photo was downloaded; `count` files were stored.
    Finish { count: usize },
    /// The run failed with `error`; already-stored photos stay as they are.
    Abort { error: PipelineError },
}

/// Downloads the photos of one gallery in order, fail-fast.
#[derive(Debug)]
pub struct Downloader {
    pub photos: Vec<Photo>,
    pub index: usize,
    pub phase: DownloadPhase,
}

impl Downloader {
    /// The downloader is in a sensible state: the position never passes the
    /// end, a pending store holds the filename derived for the current
    /// photo, and a failure is one a download run can produce.
    pub open spec fn wf(self) -> bool {
        &&& self.index <= self.photos@.len()
        &&& match self.phase {
            DownloadPhase::Fetch => true,
            DownloadPhase::Store { filename } => {
                &&& self.index < self.photos@.len()
                &&& has_dot(self.photos@[self.index as int].taken_at@)
                &&& filename@ == spec_filename(self.photos@[self.index as int].taken_at@)
            },
            DownloadPhase::Failed { error } => {
                ||| error == PipelineError::Fetch
                ||| error == PipelineError::TimestampFormat
                ||| error == PipelineError::FileIo
            },
        }
    }

    /// Starts a download run over the gallery, at the first photo.
    pub fn begin(gallery: Gallery) -> (d: Downloader)
        ensures
            d.wf(),
            d.photos@ == gallery.photos@,
            d.index == 0,
            d.phase is Fetch,
    {
        Downloader { photos: gallery.photos, index: 0, phase: DownloadPhase::Fetch }
    }

    /// The next action the caller must perform: fetch the current photo,
    /// store it, finish, or abort — exactly as the phase dictates.
    pub fn next_action<'a>(&'a self) -> (a: DownloadAction<'a>)
        requires
            self.wf(),
        ensures
            match self.phase {
                DownloadPhase::Fetch => {
                    if self.index < self.photos@.len() {
                        a matches DownloadAction::FetchPhoto { url }
                            && url@ == self.photos@[self.index as int].original_url@
                    } else {
                        a matches DownloadAction::Finish { count }
                            && count == self.photos@.len()
                    }
                },
                DownloadPhase::Store { filename } => a matches DownloadAction::StoreFile {
                    filename: f,
                } && f@ == filename@,
                DownloadPhase::Failed { error } => a matches DownloadAction::Abort { error: e }
                    && e == error,
            },
    {
        match &self.phase {
            DownloadPhase::Fetch => {
                if self.index < self.photos.len() {
                    DownloadAction::FetchPhoto {
                        url: self.photos[self.index].original_url.as_str(),
                    }
                } else {
                    DownloadAction::Finish { count: self.photos.len() }
                }
            },
            DownloadPhase::Store { filename } => DownloadAction::StoreFile {
                filename: filename.as_str(),
            },
            DownloadPhase::Failed { error } => DownloadAction::Abort { error: *error },
        }
    }

    /// Reports whether fetching the current photo's content succeeded. On
    /// success the filename is derived next — a timestamp without its
    /// delimiter fails the run — and on failure the run aborts at once,
    /// without advancing.
    pub fn on_fetched(&mut self, ok: bool)
        requires
            old(self).wf(),
            old(self).phase is Fetch,
            old(self).index < old(self).photos@.len(),
        ensures
            final(self).wf(),
            final(self).photos == old(self).photos,
            final(self).index == old(self).index,
            ({
                let ts = old(self).photos@[old(self).index as int].taken_at@;
                if !ok {
                    final(self).phase matches DownloadPhase::Failed { error }
                        && error == PipelineError::Fetch
                } else if has_dot(ts) {
                    final(self).phase matches DownloadPhase::Store { filename }
                        && filename@ == spec_filename(ts)
                } else {
                    final(self).phase matches DownloadPhase::Failed { error }
                        && error == PipelineError::TimestampFormat
                }
            }),
    {
        if !ok {
            self.phase = DownloadPhase::Failed { error: PipelineError::Fetch };
            return;
        }
        let ts = &self.photos[self.index].taken_at;
        match derive_filename(ts.as_str()) {
            Ok(filename) => self.phase = DownloadPhase::Store { filename },
            Err(error) => self.phase = DownloadPhase::Failed { error },
        }
    }

    /// Reports whether storing the fetched content succeeded. Success moves
    /// on to the next photo; failure aborts the run at once, without
    /// advancing.
    pub fn on_stored(&mut self, ok: bool)
        requires
            old(self).wf(),
            old(self).phase is Store,
        ensures
            final(self).wf(),
            final(self).photos == old(self).photos,
            if ok {
                final(self).index == old(self).index + 1 && final(self).phase is Fetch
            } else {
                final(self).index == old(self).index && (final(self).phase
                    matches DownloadPhase::Failed { error } && error == PipelineError::FileIo)
            },
    {
        if ok {
            let n = self.photos.len();
            assert(self.index < n);
            self.index = self.index + 1;
            self.phase = DownloadPhase::Fetch;
        } else {
            self.phase = DownloadPhase::Failed { error: PipelineError::FileIo };
        }
    }
}

/// Fail-fast: a failed downloader issues no further fetch or store — its
/// phase admits only the `Abort` action, and no transition leaves it.
pub proof fn lemma_fail_fast(d: Downloader)
    requires
        d.wf(),
        d.phase is Failed,
    ensures
        !(d.phase is Fetch),
        !(d.phase is Store),
{
}

} // verus!
