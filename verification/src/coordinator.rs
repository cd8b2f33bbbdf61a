//! The request coordinator: composes the identifier parser and the upload
//! receiver, assembles the generation job that crosses the pipeline
//! boundary, and fixes the HTTP reply owed for every outcome.
//!
//! Assembly is all-or-nothing: a job exists only when both the identifier
//! and the upload validated, and the first failure encountered (identifier
//! first, then upload) is the one surfaced.

use crate::error::IngestError;
use crate::identifier::{
    decomposes, lemma_decomposition_unique, parse_identifier, well_formed_identifier,
    CompositeIdentifier,
};
use crate::upload::{
    first_named_data, has_named, lower_part_name, receive_upload, upload_acceptable,
    upper_part_name, Part, UploadPayload,
};
use vstd::prelude::*;

verus! {

/// The unit passed across the core/pipeline boundary: the parsed identifier
/// together with the staged upload. Assembled once per request; it has no
/// lifecycle beyond the request.
pub struct GenerationJob {
    pub identifier: CompositeIdentifier,
    pub payload: UploadPayload,
}

impl GenerationJob {
    /// A dispatched job only ever carries a valid identifier and a payload
    /// that was validated against the ceiling.
    pub open spec fn wf(self, ceiling: nat) -> bool {
        &&& self.identifier.wf()
        &&& self.payload.wf(ceiling)
    }
}

/// The whole request is acceptable: the identifier is well-formed, both
/// reserved parts are present, and neither exceeds the ceiling.
pub open spec fn request_acceptable(raw: Seq<char>, parts: Seq<Part>, ceiling: nat) -> bool {
    &&& well_formed_identifier(raw)
    &&& upload_acceptable(parts, ceiling)
}

/// The outcome the ingestion core owes for a request, as a full case
/// analysis over the raw identifier, the decoded parts and the ceiling:
/// a job exactly on acceptable requests, with its content pinned to the
/// request, and otherwise exactly the error of the first failed stage.
pub open spec fn ingest_outcome_matches(
    raw: Seq<char>,
    parts: Seq<Part>,
    ceiling: nat,
    r: Result<GenerationJob, IngestError>,
) -> bool {
    &&& (r is Ok <==> request_acceptable(raw, parts, ceiling))
    &&& (r matches Ok(job) ==> {
        &&& decomposes(
            raw,
            job.identifier.upper_text@,
            job.identifier.lower_text@,
            job.identifier.user_id@,
        )
        &&& job.payload.upper_image@ == first_named_data(parts, upper_part_name())
        &&& job.payload.lower_image@ == first_named_data(parts, lower_part_name())
        &&& job.wf(ceiling)
    })
    &&& (r == Err::<GenerationJob, IngestError>(IngestError::MalformedIdentifier)
        <==> !well_formed_identifier(raw))
    &&& (r == Err::<GenerationJob, IngestError>(IngestError::MissingPart) <==> (
    well_formed_identifier(raw) && (!has_named(parts, upper_part_name()) || !has_named(
        parts,
        lower_part_name(),
    ))))
    &&& (r == Err::<GenerationJob, IngestError>(IngestError::PartTooLarge) <==> (
    well_formed_identifier(raw) && has_named(parts, upper_part_name()) && has_named(
        parts,
        lower_part_name(),
    ) && (first_named_data(parts, upper_part_name()).len() > ceiling || first_named_data(
        parts,
        lower_part_name(),
    ).len() > ceiling)))
}

/// Validates the identifier and the upload and assembles the generation
/// job, surfacing the first failure; no partial job is ever produced.
///
/// The outcome is a pure function of the request: see
/// `ingest_outcome_matches` for the full case analysis and
/// `lemma_resubmission_same_outcome` for the resulting idempotence.
pub fn assemble_job(raw_id: &str, parts: Vec<Part>, ceiling: usize) -> (r: Result<
    GenerationJob,
    IngestError,
>)
    ensures
        ingest_outcome_matches(raw_id@, parts@, ceiling as nat, r),
{
    let identifier = match parse_identifier(raw_id) {
        Ok(id) => id,
        Err(e) => {
            return Err(e);
        },
    };
    let payload = match receive_upload(parts, ceiling) {
        Ok(p) => p,
        Err(e) => {
            return Err(e);
        },
    };
    Ok(GenerationJob { identifier, payload })
}

/// Law: ingestion keeps no state across calls, so re-submitting an
/// identical request (same identifier, same parts, same ceiling) is owed
/// the same outcome: acceptance with an equal, independently assembled job
/// both times, or the same error both times.
pub proof fn lemma_resubmission_same_outcome(
    raw: Seq<char>,
    parts: Seq<Part>,
    ceiling: nat,
    r1: Result<GenerationJob, IngestError>,
    r2: Result<GenerationJob, IngestError>,
)
    requires
        ingest_outcome_matches(raw, parts, ceiling, r1),
        ingest_outcome_matches(raw, parts, ceiling, r2),
    ensures
        r1 is Ok <==> r2 is Ok,
        (r1 is Err && r2 is Err) ==> r1->Err_0 == r2->Err_0,
        (r1 is Ok && r2 is Ok) ==> {
            let j1 = r1->Ok_0;
            let j2 = r2->Ok_0;
            &&& j1.identifier.upper_text@ == j2.identifier.upper_text@
            &&& j1.identifier.lower_text@ == j2.identifier.lower_text@
            &&& j1.identifier.user_id@ == j2.identifier.user_id@
            &&& j1.payload.upper_image@ == j2.payload.upper_image@
            &&& j1.payload.lower_image@ == j2.payload.lower_image@
        },
{
    if r1 is Ok && r2 is Ok {
        let j1 = r1->Ok_0;
        let j2 = r2->Ok_0;
        lemma_decomposition_unique(
            raw,
            j1.identifier.upper_text@,
            j1.identifier.lower_text@,
            j1.identifier.user_id@,
            j2.identifier.upper_text@,
            j2.identifier.lower_text@,
            j2.identifier.user_id@,
        );
    }
}

/// The HTTP response owed for an outcome: status and minimal body.
pub struct HttpReply {
    pub status: u16,
    pub body: String,
}

/// Builds the HTTP reply for an ingestion outcome: 200 with an empty body
/// when a job was assembled (the acknowledgment precedes pipeline
/// completion by design), otherwise the failure's status code with a body
/// naming the failure kind.
pub fn reply_for(r: &Result<GenerationJob, IngestError>) -> (rep: HttpReply)
    ensures
        r is Ok ==> rep.status == 200 && rep.body@ == Seq::<char>::empty(),
        r matches Err(e) ==> rep.status == e.spec_status() && rep.body@ == e.spec_kind_name(),
{
    match r {
        Ok(_) => HttpReply { status: 200, body: String::new() },
        Err(e) => HttpReply { status: e.http_status(), body: e.kind_name().to_owned() },
    }
}

} // verus!
