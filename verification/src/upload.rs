//! The upload receiver: validates the decoded parts of a multipart body
//! against the two reserved field names and the per-part size ceiling, and
//! stages the accepted bytes as an `UploadPayload`.
//!
//! The transport layer decodes the multipart wire format and hands in plain
//! `Part` values; everything the receiver decides is a pure function of
//! those parts. A body that cannot be decoded as multipart at all never
//! reaches the receiver: the transport reports it as
//! `IngestError::MalformedMultipart`, whose reply the coordinator fixes
//! like every other failure kind.

use crate::error::IngestError;
use vstd::prelude::*;

verus! {

/// The per-part size ceiling applied to both image parts, in bytes
/// (100 MiB).
pub const DEFAULT_PART_CEILING: usize = 100 * 1024 * 1024;

/// The reserved field name of the upper-image part.
pub open spec fn upper_part_name() -> Seq<char> {
    "upper_image"@
}

/// The reserved field name of the lower-image part.
pub open spec fn lower_part_name() -> Seq<char> {
    "lower_image"@
}

/// The reserved field name of the upper-image part, for callers that build
/// or label requests.
pub fn upper_field_name() -> (s: &'static str)
    ensures
        s@ == upper_part_name(),
{
    "upper_image"
}

/// The reserved field name of the lower-image part, for callers that build
/// or label requests.
pub fn lower_field_name() -> (s: &'static str)
    ensures
        s@ == lower_part_name(),
{
    "lower_image"
}

/// One named file part decoded from the multipart body.
pub struct Part {
    pub name: String,
    pub data: Vec<u8>,
}

/// `i` is the position of the first part named `name`.
pub open spec fn is_first_named(parts: Seq<Part>, name: Seq<char>, i: int) -> bool {
    &&& 0 <= i < parts.len()
    &&& parts[i].name@ == name
    &&& forall|j: int| 0 <= j < i ==> parts[j].name@ != name
}

/// Some part carries the field name `name`.
pub open spec fn has_named(parts: Seq<Part>, name: Seq<char>) -> bool {
    exists|i: int| 0 <= i < parts.len() && parts[i].name@ == name
}

/// The bytes of the first part named `name` (meaningful when
/// `has_named(parts, name)` holds; the first such position is unique).
pub open spec fn first_named_data(parts: Seq<Part>, name: Seq<char>) -> Seq<u8> {
    parts[choose|i: int| is_first_named(parts, name, i)].data@
}

/// The staged bytes of an accepted upload: both reserved parts were
/// present and neither exceeded the ceiling.
pub struct UploadPayload {
    pub upper_image: Vec<u8>,
    pub lower_image: Vec<u8>,
}

impl UploadPayload {
    /// No staged part exceeds the ceiling it was validated against.
    pub open spec fn wf(self, ceiling: nat) -> bool {
        &&& self.upper_image@.len() <= ceiling
        &&& self.lower_image@.len() <= ceiling
    }
}

/// The request's parts carry both reserved names and the first part under
/// each name fits under the ceiling, so an `UploadPayload` is owed.
pub open spec fn upload_acceptable(parts: Seq<Part>, ceiling: nat) -> bool {
    &&& has_named(parts, upper_part_name())
    &&& has_named(parts, lower_part_name())
    &&& first_named_data(parts, upper_part_name()).len() <= ceiling
    &&& first_named_data(parts, lower_part_name()).len() <= ceiling
}

/// Validates the decoded parts and stages the two images.
///
/// Succeeds exactly when both reserved field names are present and the
/// first part under each name fits under `ceiling`; the staged payload
/// holds those parts' bytes verbatim. Fails with `MissingPart` exactly
/// when a reserved name is absent, and with `PartTooLarge` exactly when
/// both are present but one is over the ceiling, so nothing larger than
/// the ceiling is ever staged.
pub fn receive_upload(parts: Vec<Part>, ceiling: usize) -> (r: Result<UploadPayload, IngestError>)
    ensures
        r is Ok <==> upload_acceptable(parts@, ceiling as nat),
        r matches Ok(payload) ==> {
            &&& payload.upper_image@ == first_named_data(parts@, upper_part_name())
            &&& payload.lower_image@ == first_named_data(parts@, lower_part_name())
            &&& payload.wf(ceiling as nat)
        },
        r == Err::<UploadPayload, IngestError>(IngestError::MissingPart) <==> (
        !has_named(parts@, upper_part_name()) || !has_named(parts@, lower_part_name())),
        r == Err::<UploadPayload, IngestError>(IngestError::PartTooLarge) <==> (
        has_named(parts@, upper_part_name()) && has_named(parts@, lower_part_name()) && (
        first_named_data(parts@, upper_part_name()).len() > ceiling
            || first_named_data(parts@, lower_part_name()).len() > ceiling)),
{
    let mut parts = parts;
    let ghost parts0 = parts@;
    let upper_needle: String = upper_field_name().to_owned();
    let lower_needle: String = lower_field_name().to_owned();
    let mut upper_at: Option<usize> = None;
    let mut lower_at: Option<usize> = None;
    let mut i: usize = 0;
    while i < parts.len()
        invariant
            parts@ == parts0,
            i <= parts@.len(),
            upper_at matches Some(k) ==> k < i && is_first_named(
                parts@,
                upper_part_name(),
                k as int,
            ),
            upper_at is None ==> forall|j: int|
                0 <= j < i ==> parts@[j].name@ != upper_part_name(),
            lower_at matches Some(k) ==> k < i && is_first_named(
                parts@,
                lower_part_name(),
                k as int,
            ),
            lower_at is None ==> forall|j: int|
                0 <= j < i ==> parts@[j].name@ != lower_part_name(),
            upper_needle@ == upper_part_name(),
            lower_needle@ == lower_part_name(),
        decreases parts@.len() - i,
    {
        if upper_at.is_none() && parts[i].name == upper_needle {
            upper_at = Some(i);
        }
        if lower_at.is_none() && parts[i].name == lower_needle {
            lower_at = Some(i);
        }
        i = i + 1;
    }
    let (ui, li) = match (upper_at, lower_at) {
        (Some(ui), Some(li)) => (ui, li),
        _ => {
            return Err(IngestError::MissingPart);
        },
    };
    proof {
        let c = choose|k: int| is_first_named(parts@, upper_part_name(), k);
        assert(c == ui as int);
        let c2 = choose|k: int| is_first_named(parts@, lower_part_name(), k);
        assert(c2 == li as int);
    }
    if parts[ui].data.len() > ceiling || parts[li].data.len() > ceiling {
        return Err(IngestError::PartTooLarge);
    }
    proof {
        // The two reserved names differ, so the two positions do too.
        reveal_strlit("upper_image");
        reveal_strlit("lower_image");
        assert(upper_part_name()[0] != lower_part_name()[0]);
        assert(ui != li);
    }
    let (upper_part, lower_part) = if ui > li {
        let up = parts.remove(ui);
        let low = parts.remove(li);
        (up, low)
    } else {
        let low = parts.remove(li);
        let up = parts.remove(ui);
        (up, low)
    };
    proof {
        assert(upper_part == parts0[ui as int]);
        assert(lower_part == parts0[li as int]);
    }
    Ok(UploadPayload { upper_image: upper_part.data, lower_image: lower_part.data })
}

} // verus!
