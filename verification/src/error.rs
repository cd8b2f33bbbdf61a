//! The error taxonomy of the ingestion core, with its mapping to HTTP
//! status codes and to the kind names used in structured error bodies.

use vstd::prelude::*;

verus! {

/// Everything that can go wrong between receiving a request and handing a
/// generation job to the pipeline. All variants are client faults (4xx)
/// except `DispatchFailed`, which is a server-side failure to hand off.
#[derive(Clone, Copy, Debug, PartialEq, Eq, Structural)]
pub enum IngestError {
    /// The composite identifier does not split into exactly three non-empty
    /// delimiter-separated segments.
    MalformedIdentifier,
    /// One of the two reserved file parts is absent from the multipart body.
    MissingPart,
    /// A received part exceeds the configured per-part size ceiling.
    PartTooLarge,
    /// The request body could not be decoded as multipart at all.
    MalformedMultipart,
    /// The generation pipeline refused the assembled job.
    DispatchFailed,
}

impl IngestError {
    /// The HTTP status code that reports this failure to the client.
    pub open spec fn spec_status(self) -> u16 {
        match self {
            IngestError::MalformedIdentifier => 400,
            IngestError::MissingPart => 400,
            IngestError::PartTooLarge => 413,
            IngestError::MalformedMultipart => 400,
            IngestError::DispatchFailed => 500,
        }
    }

    /// True of the variants that report a fault in the request itself,
    /// which must be surfaced as 4xx rather than 5xx.
    pub open spec fn is_client_fault(self) -> bool {
        self !== IngestError::DispatchFailed
    }

    /// The name of the failure kind, as it appears in the structured
    /// error body of the HTTP response.
    pub open spec fn spec_kind_name(self) -> Seq<char> {
        match self {
            IngestError::MalformedIdentifier => "MalformedIdentifier"@,
            IngestError::MissingPart => "MissingPart"@,
            IngestError::PartTooLarge => "PartTooLarge"@,
            IngestError::MalformedMultipart => "MalformedMultipart"@,
            IngestError::DispatchFailed => "DispatchFailed"@,
        }
    }

    /// Maps each failure kind to its HTTP status code: 400 for malformed
    /// input, 413 for an oversized part, 500 for a dispatch failure.
    pub fn http_status(&self) -> (s: u16)
        ensures
            s == self.spec_status(),
            self.is_client_fault() <==> 400 <= s < 500,
    {
        match self {
            IngestError::MalformedIdentifier => 400,
            IngestError::MissingPart => 400,
            IngestError::PartTooLarge => 413,
            IngestError::MalformedMultipart => 400,
            IngestError::DispatchFailed => 500,
        }
    }

    /// The failure kind's name, for the response body.
    pub fn kind_name(&self) -> (s: &'static str)
        ensures
            s@ == self.spec_kind_name(),
    {
        match self {
            IngestError::MalformedIdentifier => "MalformedIdentifier",
            IngestError::MissingPart => "MissingPart",
            IngestError::PartTooLarge => "PartTooLarge",
            IngestError::MalformedMultipart => "MalformedMultipart",
            IngestError::DispatchFailed => "DispatchFailed",
        }
    }
}

} // verus!
