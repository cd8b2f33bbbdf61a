use rest_api::coordinator::{assemble_job, reply_for};
use rest_api::error::IngestError;
use rest_api::upload::{Part, DEFAULT_PART_CEILING};

fn part(name: &str, data: Vec<u8>) -> Part {
    Part { name: name.to_string(), data }
}

fn small_parts() -> Vec<Part> {
    vec![part("upper_image", vec![0xFF, 0xD8]), part("lower_image", vec![0x89, 0x50])]
}

#[test]
fn valid_request_is_acknowledged_and_dispatchable() {
    let r = assemble_job("sun+moon+user42", small_parts(), DEFAULT_PART_CEILING);
    let job = r.as_ref().unwrap();
    assert_eq!(job.identifier.upper_text, "sun");
    assert_eq!(job.identifier.lower_text, "moon");
    assert_eq!(job.identifier.user_id, "user42");
    assert_eq!(job.payload.upper_image, vec![0xFF, 0xD8]);
    assert_eq!(job.payload.lower_image, vec![0x89, 0x50]);
    let reply = reply_for(&r);
    assert_eq!(reply.status, 200);
    assert_eq!(reply.body, "");
}

#[test]
fn malformed_identifier_never_yields_a_job() {
    let r = assemble_job("bad", small_parts(), DEFAULT_PART_CEILING);
    assert!(r.as_ref().err() == Some(&IngestError::MalformedIdentifier));
    let reply = reply_for(&r);
    assert_eq!(reply.status, 400);
    assert_eq!(reply.body, "MalformedIdentifier");
}

#[test]
fn misnamed_part_is_a_missing_part() {
    let parts = vec![part("upper_image", vec![1]), part("lower_picture", vec![2])];
    let r = assemble_job("sun+moon+user42", parts, DEFAULT_PART_CEILING);
    assert!(r.as_ref().err() == Some(&IngestError::MissingPart));
    let reply = reply_for(&r);
    assert_eq!(reply.status, 400);
    assert_eq!(reply.body, "MissingPart");
}

#[test]
fn oversized_upper_image_is_rejected_with_413() {
    // A 150 MiB part against the 100 MiB ceiling.
    let parts = vec![
        part("upper_image", vec![0u8; 150 * 1024 * 1024]),
        part("lower_image", vec![1, 2, 3]),
    ];
    let r = assemble_job("sun+moon+user42", parts, DEFAULT_PART_CEILING);
    assert!(r.as_ref().err() == Some(&IngestError::PartTooLarge));
    let reply = reply_for(&r);
    assert_eq!(reply.status, 413);
    assert_eq!(reply.body, "PartTooLarge");
}

#[test]
fn identifier_failure_is_surfaced_before_upload_failure() {
    let r = assemble_job("bad", Vec::new(), DEFAULT_PART_CEILING);
    assert!(r.err() == Some(IngestError::MalformedIdentifier));
}

#[test]
fn resubmission_of_identical_request_gives_identical_outcome() {
    let first = assemble_job("sun+moon+user42", small_parts(), DEFAULT_PART_CEILING);
    let second = assemble_job("sun+moon+user42", small_parts(), DEFAULT_PART_CEILING);
    let j1 = first.unwrap();
    let j2 = second.unwrap();
    assert_eq!(j1.identifier.upper_text, j2.identifier.upper_text);
    assert_eq!(j1.identifier.lower_text, j2.identifier.lower_text);
    assert_eq!(j1.identifier.user_id, j2.identifier.user_id);
    assert_eq!(j1.payload.upper_image, j2.payload.upper_image);
    assert_eq!(j1.payload.lower_image, j2.payload.lower_image);
}

#[test]
fn resubmission_of_identical_bad_request_gives_identical_outcome() {
    let first = assemble_job("sun+moon+", small_parts(), DEFAULT_PART_CEILING);
    let second = assemble_job("sun+moon+", small_parts(), DEFAULT_PART_CEILING);
    assert_eq!(first.err(), second.err());
}

#[test]
fn every_failure_kind_maps_to_its_status_and_name() {
    let cases = [
        (IngestError::MalformedIdentifier, 400, "MalformedIdentifier"),
        (IngestError::MissingPart, 400, "MissingPart"),
        (IngestError::PartTooLarge, 413, "PartTooLarge"),
        (IngestError::MalformedMultipart, 400, "MalformedMultipart"),
        (IngestError::DispatchFailed, 500, "DispatchFailed"),
    ];
    for (err, status, name) in cases {
        assert_eq!(err.http_status(), status);
        assert_eq!(err.kind_name(), name);
    }
}
