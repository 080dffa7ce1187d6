//! The error taxonomy of the pipeline. Every fatal condition of a run maps to
//! exactly one of these variants; the usage errors of the command line are not
//! part of the library and are handled by the surrounding program.

use vstd::prelude::*;

verus! {

/// A fatal condition of one pipeline stage.
#[derive(Clone, Copy, Debug, PartialEq, Eq, Structural)]
pub enum PipelineError {
    /// The page could not be fetched over the network.
    Fetch,
    /// The page does not contain the prefix or the suffix marker.
    MarkerNotFound,
    /// The extracted payload is not valid JSON of the expected shape.
    MalformedPayload,
    /// A photo's timestamp lacks the delimiter the filename is derived from.
    TimestampFormat,
    /// The destination directory or an output file could not be written.
    FileIo,
}

impl PipelineError {
    /// A short human-readable label naming the failing stage.
    pub fn message(&self) -> (r: &'static str)
        ensures
            r@ == self.spec_message(),
    {
        proof {
            reveal_strlit("fetching the page failed");
            reveal_strlit("page markers not found");
            reveal_strlit("malformed gallery payload");
            reveal_strlit("timestamp lacks its delimiter");
            reveal_strlit("writing to disk failed");
        }
        match self {
            PipelineError::Fetch => "fetching the page failed",
            PipelineError::MarkerNotFound => "page markers not found",
            PipelineError::MalformedPayload => "malformed gallery payload",
            PipelineError::TimestampFormat => "timestamp lacks its delimiter",
            PipelineError::FileIo => "writing to disk failed",
        }
    }

    /// What `message` returns for each variant.
    pub open spec fn spec_message(self) -> Seq<char> {
        match self {
            PipelineError::Fetch => "fetching the page failed"@,
            PipelineError::MarkerNotFound => "page markers not found"@,
            PipelineError::MalformedPayload => "malformed gallery payload"@,
            PipelineError::TimestampFormat => "timestamp lacks its delimiter"@,
            PipelineError::FileIo => "writing to disk failed"@,
        }
    }
}

} // verus!
