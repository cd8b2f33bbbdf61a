//! The composite identifier: a single URL path segment carrying the upper
//! text, the lower text and the user id, joined by a reserved delimiter.
//!
//! The grammar is strict: the delimiter may not appear inside a field, so a
//! well-formed identifier splits into exactly three non-empty segments and
//! the split is unique. Parsing is a pure function of the raw string.

use crate::error::IngestError;
use vstd::prelude::*;
use vstd::string::{StrSliceExecFns, StringExecFns};

verus! {

/// The reserved delimiter between the identifier's segments. It cannot
/// appear inside a segment, which is what makes the split unambiguous.
pub open spec fn delimiter() -> char {
    '+'
}

/// A valid segment: non-empty and free of the delimiter.
pub open spec fn segment_ok(s: Seq<char>) -> bool {
    &&& s.len() > 0
    &&& forall|i: int| 0 <= i < s.len() ==> s[i] != delimiter()
}

/// The encoding of three segments into one path segment:
/// upper, delimiter, lower, delimiter, user id.
pub open spec fn encoded(upper: Seq<char>, lower: Seq<char>, user: Seq<char>) -> Seq<char> {
    upper + seq![delimiter()] + lower + seq![delimiter()] + user
}

/// `raw` is the encoding of exactly these three valid segments.
pub open spec fn decomposes(
    raw: Seq<char>,
    upper: Seq<char>,
    lower: Seq<char>,
    user: Seq<char>,
) -> bool {
    &&& segment_ok(upper)
    &&& segment_ok(lower)
    &&& segment_ok(user)
    &&& raw == encoded(upper, lower, user)
}

/// `raw` splits into three non-empty delimiter-free segments.
pub open spec fn well_formed_identifier(raw: Seq<char>) -> bool {
    exists|upper: Seq<char>, lower: Seq<char>, user: Seq<char>|
        decomposes(raw, upper, lower, user)
}

/// The three semantic fields carried by the identifier path segment,
/// populated verbatim from the raw input.
pub struct CompositeIdentifier {
    pub upper_text: String,
    pub lower_text: String,
    pub user_id: String,
}

impl CompositeIdentifier {
    /// The parser only ever produces identifiers whose fields are valid
    /// segments: non-empty and free of the delimiter.
    pub open spec fn wf(self) -> bool {
        &&& segment_ok(self.upper_text@)
        &&& segment_ok(self.lower_text@)
        &&& segment_ok(self.user_id@)
    }

    /// The raw path segment that this identifier encodes to.
    pub open spec fn encoding(self) -> Seq<char> {
        encoded(self.upper_text@, self.lower_text@, self.user_id@)
    }
}

/// In a decomposition, the delimiter occurs exactly at the two positions
/// that border the middle segment, and each segment reads back as the
/// corresponding slice of the raw string.
proof fn lemma_decomposition_positions(
    raw: Seq<char>,
    upper: Seq<char>,
    lower: Seq<char>,
    user: Seq<char>,
)
    requires
        decomposes(raw, upper, lower, user),
    ensures
        raw.len() == upper.len() + lower.len() + user.len() + 2,
        raw[upper.len() as int] == delimiter(),
        raw[upper.len() as int + lower.len() + 1] == delimiter(),
        forall|j: int| 0 <= j < upper.len() ==> raw[j] == upper[j],
        forall|j: int| 0 <= j < lower.len() ==> raw[upper.len() as int + 1 + j] == lower[j],
        forall|j: int| 0 <= j < user.len() ==> raw[upper.len() as int + lower.len() + 2 + j] == user[j],
        forall|j: int|
            0 <= j < raw.len() && j != upper.len() && j != upper.len() as int + lower.len() + 1
                ==> raw[j] != delimiter(),
{
    assert forall|j: int|
        0 <= j < raw.len() && j != upper.len() && j != upper.len() as int + lower.len() + 1
            implies raw[j] != delimiter() by {
        if j < upper.len() {
            assert(raw[j] == upper[j]);
        } else if j < upper.len() as int + lower.len() + 1 {
            assert(raw[j] == lower[j - upper.len() - 1]);
        } else {
            assert(raw[j] == user[j - upper.len() - lower.len() - 2]);
        }
    }
}

/// If the delimiter occurs in `raw` exactly at positions `p` and `q`, then
/// any decomposition of `raw` is pinned down: the segments are the slices
/// before `p`, between `p` and `q`, and after `q`.
proof fn lemma_positions_determine_decomposition(
    raw: Seq<char>,
    upper: Seq<char>,
    lower: Seq<char>,
    user: Seq<char>,
    p: int,
    q: int,
)
    requires
        decomposes(raw, upper, lower, user),
        0 <= p < q < raw.len(),
        raw[p] == delimiter(),
        raw[q] == delimiter(),
        forall|j: int| 0 <= j < raw.len() && j != p && j != q ==> raw[j] != delimiter(),
    ensures
        upper.len() == p,
        lower.len() == q - p - 1,
        user.len() == raw.len() - q - 1,
        upper == raw.subrange(0, p),
        lower == raw.subrange(p + 1, q),
        user == raw.subrange(q + 1, raw.len() as int),
{
    lemma_decomposition_positions(raw, upper, lower, user);
    let p1 = upper.len() as int;
    let p2 = upper.len() as int + lower.len() + 1;
    // p1 and p2 hold the delimiter, so each must be p or q; conversely p and
    // q hold the delimiter, so each must be p1 or p2. With p < q and p1 < p2
    // the two pairs coincide.
    assert(p1 == p || p1 == q);
    assert(p2 == p || p2 == q);
    assert(p == p1 || p == p2);
    assert(p1 == p && p2 == q);
    assert(upper =~= raw.subrange(0, p));
    assert(lower =~= raw.subrange(p + 1, q));
    assert(user =~= raw.subrange(q + 1, raw.len() as int));
}

/// The delimiter grammar is unambiguous: a raw string decomposes into at
/// most one triple of valid segments.
pub proof fn lemma_decomposition_unique(
    raw: Seq<char>,
    upper1: Seq<char>,
    lower1: Seq<char>,
    user1: Seq<char>,
    upper2: Seq<char>,
    lower2: Seq<char>,
    user2: Seq<char>,
)
    requires
        decomposes(raw, upper1, lower1, user1),
        decomposes(raw, upper2, lower2, user2),
    ensures
        upper1 == upper2,
        lower1 == lower2,
        user1 == user2,
{
    lemma_decomposition_positions(raw, upper1, lower1, user1);
    let p = upper1.len() as int;
    let q: int = upper1.len() as int + lower1.len() + 1;
    lemma_positions_determine_decomposition(raw, upper1, lower1, user1, p, q);
    lemma_positions_determine_decomposition(raw, upper2, lower2, user2, p, q);
}

/// Law: encoding three valid segments always yields a well-formed
/// identifier, and parsing it back recovers exactly the original segments.
/// Together with the parser's contract this makes encode-then-parse the
/// identity on valid identifiers.
pub proof fn lemma_encode_parse_round_trip(
    upper: Seq<char>,
    lower: Seq<char>,
    user: Seq<char>,
    upper2: Seq<char>,
    lower2: Seq<char>,
    user2: Seq<char>,
)
    requires
        segment_ok(upper),
        segment_ok(lower),
        segment_ok(user),
        decomposes(encoded(upper, lower, user), upper2, lower2, user2),
    ensures
        upper2 == upper,
        lower2 == lower,
        user2 == user,
{
    assert(decomposes(encoded(upper, lower, user), upper, lower, user));
    lemma_decomposition_unique(
        encoded(upper, lower, user),
        upper,
        lower,
        user,
        upper2,
        lower2,
        user2,
    );
}

/// Law: the encoding of three valid segments is itself well-formed, so a
/// round trip through `encode_identifier` and `parse_identifier` cannot be
/// rejected.
pub proof fn lemma_encoded_well_formed(upper: Seq<char>, lower: Seq<char>, user: Seq<char>)
    requires
        segment_ok(upper),
        segment_ok(lower),
        segment_ok(user),
    ensures
        well_formed_identifier(encoded(upper, lower, user)),
{
    assert(decomposes(encoded(upper, lower, user), upper, lower, user));
}

/// Encodes the identifier back into a raw path segment by joining the three
/// fields with the delimiter.
pub fn encode_identifier(id: &CompositeIdentifier) -> (raw: String)
    ensures
        raw@ == id.encoding(),
{
    let mut raw = id.upper_text.clone();
    raw.append("+");
    raw.append(id.lower_text.as_str());
    raw.append("+");
    raw.append(id.user_id.as_str());
    proof {
        reveal_strlit("+");
        assert(raw@ =~= id.encoding());
    }
    raw
}

/// Parses a raw path segment into a `CompositeIdentifier`.
///
/// Succeeds exactly on well-formed identifiers (three non-empty segments
/// joined by exactly two delimiters) and then returns the unique segments
/// verbatim; every malformed input is rejected with `MalformedIdentifier`.
pub fn parse_identifier(raw: &str) -> (r: Result<CompositeIdentifier, IngestError>)
    ensures
        r is Ok <==> well_formed_identifier(raw@),
        r matches Ok(id) ==> decomposes(raw@, id.upper_text@, id.lower_text@, id.user_id@),
        r matches Ok(id) ==> id.wf(),
        r matches Err(e) ==> e == IngestError::MalformedIdentifier,
{
    let n = raw.unicode_len();
    let mut first: usize = 0;
    let mut second: usize = 0;
    let mut count: usize = 0;
    let mut i: usize = 0;
    while i < n
        invariant
            n == raw@.len(),
            i <= n,
            count <= i,
            count >= 1 ==> first < i && raw@[first as int] == delimiter(),
            count >= 1 ==> forall|j: int| 0 <= j < first ==> raw@[j] != delimiter(),
            count >= 2 ==> first < second < i && raw@[second as int] == delimiter(),
            count >= 2 ==> forall|j: int| first < j < second ==> raw@[j] != delimiter(),
            count == 0 ==> forall|j: int| 0 <= j < i ==> raw@[j] != delimiter(),
            count == 1 ==> forall|j: int| first < j < i ==> raw@[j] != delimiter(),
            count == 2 ==> forall|j: int| second < j < i ==> raw@[j] != delimiter(),
            count >= 3 ==> exists|j: int| second < j < i && raw@[j] == delimiter(),
        decreases n - i,
    {
        if raw.get_char(i) == '+' {
            if count == 0 {
                first = i;
            } else if count == 1 {
                second = i;
            }
            count = count + 1;
        }
        i = i + 1;
    }
    if count != 2 {
        proof {
            // A well-formed identifier has exactly two delimiter positions,
            // contradicting the count observed by the scan.
            if well_formed_identifier(raw@) {
                let (u, l, d) = choose|u: Seq<char>, l: Seq<char>, d: Seq<char>|
                    decomposes(raw@, u, l, d);
                lemma_decomposition_positions(raw@, u, l, d);
                let p1 = u.len() as int;
                let p2 = u.len() + l.len() + 1;
                if count == 0 {
                    assert(raw@[p1] == delimiter());
                    assert(false);
                } else if count == 1 {
                    assert(p1 == first && p2 == first);
                    assert(false);
                } else {
                    let j3 = choose|j: int| second < j < n && raw@[j] == delimiter();
                    assert(first == p1 || first == p2);
                    assert(second == p1 || second == p2);
                    assert(j3 == p1 || j3 == p2);
                    assert(false);
                }
            }
        }
        return Err(IngestError::MalformedIdentifier);
    }
    if first == 0 || second == first + 1 || second + 1 == n {
        proof {
            // The scan found the delimiters exactly at `first` and `second`,
            // so any decomposition's segments are the slices around them;
            // one of those slices is empty, which no valid segment is.
            if well_formed_identifier(raw@) {
                let (u, l, d) = choose|u: Seq<char>, l: Seq<char>, d: Seq<char>|
                    decomposes(raw@, u, l, d);
                lemma_positions_determine_decomposition(
                    raw@,
                    u,
                    l,
                    d,
                    first as int,
                    second as int,
                );
                assert(false);
            }
        }
        return Err(IngestError::MalformedIdentifier);
    }
    let upper_text = raw.substring_char(0, first).to_owned();
    let lower_text = raw.substring_char(first + 1, second).to_owned();
    let user_id = raw.substring_char(second + 1, n).to_owned();
    let id = CompositeIdentifier { upper_text, lower_text, user_id };
    proof {
        assert(raw@ =~= encoded(id.upper_text@, id.lower_text@, id.user_id@));
        assert(decomposes(raw@, id.upper_text@, id.lower_text@, id.user_id@));
    }
    Ok(id)
}

} // verus!
