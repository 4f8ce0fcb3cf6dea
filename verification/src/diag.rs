//! Diagnostic records and their host-facing rendering.
//!
//! A record is one compiler-reported issue: a source-location reference, a
//! message, and zero or more remediation hints. The sink (kept by the
//! adapter) holds the records of the most recent compilation only; it is
//! replaced wholesale on every attempt, never merged. Each record is shown
//! to the host as one line of the shape
//! `SPAN: <location> ||| MSG: <message> ||| HINT: <comma-joined hints>`.

use vstd::prelude::*;
use vstd::string::StringExecFns;

verus! {

/// One compiler-reported issue, with plain-string fields.
pub struct DiagnosticRecord {
    /// Rendering of the source location the issue points at.
    pub span: String,
    /// Human-readable description of the issue.
    pub message: String,
    /// Remediation hints, possibly none.
    pub hints: Vec<String>,
}

/// Specification-level value of a [`DiagnosticRecord`].
pub struct DiagSnap {
    pub span: Seq<char>,
    pub message: Seq<char>,
    pub hints: Seq<Seq<char>>,
}

impl View for DiagnosticRecord {
    type V = DiagSnap;

    open spec fn view(&self) -> DiagSnap {
        DiagSnap { span: self.span@, message: self.message@, hints: self.hints.deep_view() }
    }
}

impl DeepView for DiagnosticRecord {
    type V = DiagSnap;

    open spec fn deep_view(&self) -> DiagSnap {
        self.view()
    }
}

/// The hints joined with `", "` between neighbours.
pub open spec fn join_hints(hints: Seq<Seq<char>>) -> Seq<char>
    decreases hints.len(),
{
    if hints.len() == 0 {
        Seq::empty()
    } else if hints.len() == 1 {
        hints[0]
    } else {
        join_hints(hints.drop_last()) + ", "@ + hints.last()
    }
}

/// The one-line rendering of a record.
pub open spec fn format_record(r: DiagSnap) -> Seq<char> {
    "SPAN: "@ + r.span + " ||| MSG: "@ + r.message + " ||| HINT: "@ + join_hints(r.hints)
}

/// Renders one record as its one-line form.
pub fn format_one(rec: &DiagnosticRecord) -> (r: String)
    ensures
        r@ == format_record(rec@),
{
    let mut s = String::new();
    s.append("SPAN: ");
    s.append(rec.span.as_str());
    s.append(" ||| MSG: ");
    s.append(rec.message.as_str());
    s.append(" ||| HINT: ");
    let ghost prefix = "SPAN: "@ + rec.span@ + " ||| MSG: "@ + rec.message@ + " ||| HINT: "@;
    assert(s@ == prefix);
    let n = rec.hints.len();
    for j in 0..n
        invariant
            n == rec.hints@.len(),
            s@ == prefix + join_hints(rec.hints.deep_view().take(j as int)),
    {
        let ghost h = rec.hints.deep_view();
        if j > 0 {
            s.append(", ");
        }
        s.append(rec.hints[j].as_str());
        proof {
            assert(h.take(j + 1).drop_last() =~= h.take(j as int));
            assert(h.take(j + 1).last() == h[j as int]);
            if j == 0 {
                assert(join_hints(h.take(1)) == h[0]);
            }
        }
    }
    proof {
        assert(rec.hints.deep_view().take(n as int) =~= rec.hints.deep_view());
    }
    s
}

/// Renders every record of a sink, in order.
pub fn format_all(recs: &Vec<DiagnosticRecord>) -> (r: Vec<String>)
    ensures
        r@.len() == recs@.len(),
        forall|i: int| 0 <= i < recs@.len() ==> r@[i]@ == format_record(recs@[i]@),
{
    let mut r: Vec<String> = Vec::new();
    let n = recs.len();
    for i in 0..n
        invariant
            n == recs@.len(),
            r@.len() == i,
            forall|k: int| 0 <= k < i ==> r@[k]@ == format_record(recs@[k]@),
    {
        let line = format_one(&recs[i]);
        r.push(line);
    }
    r
}

} // verus!
