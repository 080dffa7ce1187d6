//! The page cache: a URL maps to a cache file named by the hash of the URL,
//! and a page is fetched over the network only when that file is absent.
//!
//! The file and network operations themselves are performed by the caller;
//! [`PageFetch`] holds the decisions. The caller asks for the
//! [next action](PageFetch::next_action), performs it, and reports the
//! outcome; the machine then moves on. A failure to write the cache file is
//! deliberately non-fatal: the cache is an optimization, not a requirement.

use vstd::prelude::*;
use crate::errors::PipelineError;
use crate::hashing::{fnv1a, hex_rep, hash_chars, hex_string};

verus! {

/// The cache file path of a URL: a fixed scratch-directory prefix, the hash
/// of the URL in lowercase hexadecimal, and a fixed extension.
pub open spec fn spec_cache_path(url: Seq<char>) -> Seq<char> {
    "/var/tmp/cheerz-dl-"@ + hex_rep(fnv1a(url) as nat) + ".txt"@
}

/// Builds the cache file path of a URL, as `spec_cache_path` describes.
pub fn cache_path(url: &str) -> (p: String)
    ensures
        p@ == spec_cache_path(url@),
{
    let h = hash_chars(url);
    let hex = hex_string(h);
    let mut p = String::from_str("/var/tmp/cheerz-dl-");
    p.append(hex.as_str());
    p.append(".txt");
    proof {
        assert(p@ =~= spec_cache_path(url@));
    }
    p
}

/// Cache determinism: the cache path is a function of the URL alone, so
/// computing it twice for the same URL yields the same path.
pub proof fn lemma_cache_path_deterministic(u1: Seq<char>, u2: Seq<char>)
    requires
        u1 == u2,
    ensures
        spec_cache_path(u1) == spec_cache_path(u2),
{
}

/// A cache-path collision is a hash collision: two URLs map to the same
/// cache path only where their hashes coincide, so distinct paths are
/// guaranteed for every pair of URLs the hash tells apart.
pub proof fn lemma_cache_path_collision_is_hash_collision(u1: Seq<char>, u2: Seq<char>)
    requires
        spec_cache_path(u1) == spec_cache_path(u2),
    ensures
        fnv1a(u1) == fnv1a(u2),
{
    let p = "/var/tmp/cheerz-dl-"@;
    let s = ".txt"@;
    let a = hex_rep(fnv1a(u1) as nat);
    let b = hex_rep(fnv1a(u2) as nat);
    assert((p + a + s).len() == p.len() + a.len() + s.len());
    assert((p + b + s).len() == p.len() + b.len() + s.len());
    assert(a.len() == b.len());
    assert(a =~= b) by {
        assert forall|i: int| 0 <= i < a.len() implies a[i] == b[i] by {
            assert((p + a + s)[p.len() + i] == a[i]);
            assert((p + b + s)[p.len() + i] == b[i]);
        }
    }
    crate::hashing::lemma_hex_rep_injective(fnv1a(u1) as nat, fnv1a(u2) as nat);
}

/// Where a page acquisition stands.
pub enum PagePhase {
    /// The cache file has not been looked at yet.
    CheckCache,
    /// The cache file was absent; the page must be fetched.
    Fetching,
    /// The page was fetched and should be written to the cache file.
    Caching { body: String },
    /// The page text is at hand.
    Ready { body: String },
    /// The cache file was absent and the fetch failed.
    Failed,
}

/// The abstract state of a page acquisition: `PagePhase` with each body
/// replaced by its character sequence.
pub enum PageState {
    CheckCache,
    Fetching,
    Caching(Seq<char>),
    Ready(Seq<char>),
    Failed,
}

/// What the caller must do next to advance a page acquisition.
pub enum PageAction<'a> {
    /// Read the cache file at `path`; report the text, or that it is absent.
    ReadCache { path: String },
    /// Perform an HTTP GET of `url`; report the body text, or the failure.
    FetchUrl { url: &'a str },
    /// Write `body` to the cache file at `path`; report either outcome.
    WriteCache { path: String, body: &'a str },
    /// Nothing is left to do: `body` is the page text.
    Deliver { body: &'a str },
    /// Nothing is left to do: the page could not be fetched.
    Fail { error: PipelineError },
}

/// What looking at the cache does to the abstract state: a hit delivers the
/// cached text as it stands; a miss moves on to the network.
pub open spec fn abs_on_cache_read(s: PageState, cached: Option<Seq<char>>) -> PageState {
    match cached {
        Some(body) => PageState::Ready(body),
        None => PageState::Fetching,
    }
}

/// What the fetch outcome does to the abstract state: the fetched text is
/// kept and goes to the cache file next; a fetch failure is fatal.
pub open spec fn abs_on_fetch(s: PageState, fetched: Option<Seq<char>>) -> PageState {
    match fetched {
        Some(body) => PageState::Caching(body),
        None => PageState::Failed,
    }
}

/// What the cache-write outcome does to the abstract state: the page is
/// ready either way, since writing the cache is best-effort only.
pub open spec fn abs_on_cache_write(s: PageState) -> PageState {
    match s {
        PageState::Caching(body) => PageState::Ready(body),
        _ => s,
    }
}

/// Acquires the text of one page, caching it by URL.
pub struct PageFetch {
    pub url: String,
    pub phase: PagePhase,
}

impl PageFetch {
    /// The abstract state this machine is in.
    pub open spec fn abs(self) -> PageState {
        match self.phase {
            PagePhase::CheckCache => PageState::CheckCache,
            PagePhase::Fetching => PageState::Fetching,
            PagePhase::Caching { body } => PageState::Caching(body@),
            PagePhase::Ready { body } => PageState::Ready(body@),
            PagePhase::Failed => PageState::Failed,
        }
    }

    /// Starts acquiring the page at `url`, looking at the cache first.
    pub fn begin(url: String) -> (m: PageFetch)
        ensures
            m.url@ == url@,
            m.abs() == PageState::CheckCache,
    {
        PageFetch { url, phase: PagePhase::CheckCache }
    }

    /// The next action the caller must perform, determined by the phase.
    pub fn next_action<'a>(&'a self) -> (a: PageAction<'a>)
        ensures
            match self.abs() {
                PageState::CheckCache => a matches PageAction::ReadCache { path }
                    && path@ == spec_cache_path(self.url@),
                PageState::Fetching => a matches PageAction::FetchUrl { url }
                    && url@ == self.url@,
                PageState::Caching(b) => a matches PageAction::WriteCache { path, body }
                    && path@ == spec_cache_path(self.url@) && body@ == b,
                PageState::Ready(b) => a matches PageAction::Deliver { body } && body@ == b,
                PageState::Failed => a matches PageAction::Fail { error }
                    && error == PipelineError::Fetch,
            },
    {
        match &self.phase {
            PagePhase::CheckCache => PageAction::ReadCache { path: cache_path(self.url.as_str()) },
            PagePhase::Fetching => PageAction::FetchUrl { url: self.url.as_str() },
            PagePhase::Caching { body } => PageAction::WriteCache {
                path: cache_path(self.url.as_str()),
                body: body.as_str(),
            },
            PagePhase::Ready { body } => PageAction::Deliver { body: body.as_str() },
            PagePhase::Failed => PageAction::Fail { error: PipelineError::Fetch },
        }
    }

    /// Reports what the cache file held: the text, or `None` if it was
    /// absent or unreadable.
    pub fn on_cache_read(&mut self, cached: Option<String>)
        requires
            old(self).abs() == PageState::CheckCache,
        ensures
            final(self).url@ == old(self).url@,
            final(self).abs() == abs_on_cache_read(old(self).abs(), cached.deep_view()),
    {
        match cached {
            Some(body) => self.phase = PagePhase::Ready { body },
            None => self.phase = PagePhase::Fetching,
        }
    }

    /// Reports what the network returned: the body text, or `None` on any
    /// transport or HTTP failure.
    pub fn on_fetch(&mut self, fetched: Option<String>)
        requires
            old(self).abs() == PageState::Fetching,
        ensures
            final(self).url@ == old(self).url@,
            final(self).abs() == abs_on_fetch(old(self).abs(), fetched.deep_view()),
    {
        match fetched {
            Some(body) => self.phase = PagePhase::Caching { body },
            None => self.phase = PagePhase::Failed,
        }
    }

    /// Reports that the cache write was attempted. Its success or failure
    /// does not matter: the page is ready either way.
    pub fn on_cache_write(&mut self, ok: bool)
        requires
            old(self).abs() is Caching,
        ensures
            final(self).url@ == old(self).url@,
            final(self).abs() == abs_on_cache_write(old(self).abs()),
    {
        let _ = ok;
        match &self.phase {
            PagePhase::Caching { body } => {
                let b = body.clone();
                self.phase = PagePhase::Ready { body: b };
            },
            _ => {
                proof {
                    assert(false);
                }
            },
        }
    }
}

/// Cache round trip: a first run that finds no cache entry fetches the page
/// once and ends ready with the fetched text, having asked for it to be
/// cached; a second run that finds that text cached ends ready with the
/// identical text at once, never passing through the fetching state.
pub proof fn lemma_cache_round_trip(body: Seq<char>)
    ensures
        abs_on_cache_write(
            abs_on_fetch(abs_on_cache_read(PageState::CheckCache, None), Some(body)),
        ) == PageState::Ready(body),
        abs_on_cache_read(PageState::CheckCache, Some(body)) == PageState::Ready(body),
{
}

} // verus!
