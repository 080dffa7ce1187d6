//! Downloader for Cheerz event galleries: fetches a gallery page (with a
//! content-addressed on-disk cache), slices the JSON payload out of the page
//! by literal markers, decodes it into a photo list, and plans the download
//! of every photo, deriving each output filename from the photo's timestamp.
//!
//! All I/O (network, filesystem) is driven from outside; this crate holds the
//! decisions: cache paths, marker extraction, payload decoding, filename
//! derivation, and the fail-fast download sequencing.

pub mod cache;
pub mod decode;
pub mod download;
pub mod errors;
pub mod extract;
pub mod gallery;
pub mod hashing;
pub mod pipeline;

pub use errors::PipelineError;
