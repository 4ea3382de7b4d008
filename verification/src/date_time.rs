//! The timezone-aware timestamp of the file-metadata payload.
//!
//! The payload's first field is an RFC 3339 / ISO 8601 date-time with a
//! timezone offset. Reading and rendering that field is chrono's work; this
//! crate holds the date as its canonical rendering, the full offset-qualified
//! RFC 3339 form that chrono's `to_rfc3339` produces (for example
//! `2024-01-01T00:00:00+00:00`), normalized to UTC. What chrono accepts and
//! how it renders is named, not restated: `canon_of` maps the characters of a
//! field to the canonical form of the instant they denote, or to nothing when
//! they denote none.

use vstd::prelude::*;

verus! {

/// The canonical RFC 3339 rendering, in UTC, of the instant that `s`
/// denotes, or `None` when `s` is not an RFC 3339 date-time chrono accepts.
pub uninterp spec fn canon_of(s: Seq<char>) -> Option<Seq<char>>;

/// Relies on chrono's `FromStr for DateTime<Utc>` (RFC 3339 parsing) and
/// `DateTime::to_rfc3339`: both depend on the characters alone, a canonical
/// form parses back to the instant it renders and so re-canonicalizes to
/// itself, and `to_rfc3339` writes only digits, `-`, `+`, `:`, `.` and `T`,
/// never `;`.
#[verifier::external_body]
fn canonicalize_rfc3339(s: &str) -> (r: Option<String>)
    ensures
        r is Some <==> canon_of(s@) is Some,
        r matches Some(t) ==> canon_of(s@) == Some(t@),
        r matches Some(t) ==> canon_of(t@) == Some(t@),
        r matches Some(t) ==> forall|i: int| 0 <= i < t@.len() ==> t@[i] != ';',
{
    match s.parse::<chrono::DateTime<chrono::Utc>>() {
        Ok(d) => Some(d.to_rfc3339()),
        Err(_) => None,
    }
}

/// Whether `s` is a canonical date rendering: it re-canonicalizes to itself
/// and holds no field separator.
pub open spec fn valid_date_seq(s: Seq<char>) -> bool {
    canon_of(s) == Some(s) && forall|i: int| 0 <= i < s.len() ==> s[i] != ';'
}

/// A timezone-aware timestamp, held in its canonical RFC 3339 rendering.
#[derive(Debug, Clone)]
pub struct UtcDateTime {
    rfc3339: String,
}

impl View for UtcDateTime {
    type V = Seq<char>;

    closed spec fn view(&self) -> Seq<char> {
        self.rfc3339@
    }
}

impl UtcDateTime {
    /// Whether this value holds a canonical rendering, as every constructed
    /// value does.
    pub open spec fn wf(&self) -> bool {
        valid_date_seq(self@)
    }

    /// Reads an RFC 3339 date-time with offset; `None` when the text denotes
    /// no instant.
    pub fn from_rfc3339(s: &str) -> (r: Option<UtcDateTime>)
        ensures
            r is Some <==> canon_of(s@) is Some,
            r matches Some(d) ==> d.wf() && canon_of(s@) == Some(d@),
    {
        match canonicalize_rfc3339(s) {
            Some(t) => Some(UtcDateTime { rfc3339: t }),
            None => None,
        }
    }

    /// Renders the instant in full offset-qualified RFC 3339 form.
    pub fn to_rfc3339(&self) -> (r: String)
        ensures
            r@ == self@,
    {
        self.rfc3339.clone()
    }
}

} // verus!
