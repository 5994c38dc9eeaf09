//! Access records: what the instrumentation layer reports when a lock is
//! acquired or released, and the exact text of the two trace line formats.

use vstd::prelude::*;
use vstd::string::StringExecFns;
use crate::text::spec_decimal;
use crate::text::u64_to_string;

verus! {

/// The four kinds of access record the instrumentation layer emits.
#[derive(Clone, Copy, PartialEq, Eq, Structural, Debug)]
pub enum OpKind {
    AcquireShared,
    AcquireExclusive,
    ReleaseShared,
    ReleaseExclusive,
}

/// Where and by whom an instrumented operation was requested: the caller's
/// source file and line, and the label of the executing worker.
#[derive(Clone, PartialEq, Eq, Debug)]
pub struct CallSite {
    pub file: String,
    pub line: u64,
    pub worker: String,
}

/// Resolves the label reported for a worker: the worker's own name when it
/// has one, a fixed placeholder otherwise.
pub fn worker_label(name: Option<String>) -> (r: String)
    ensures
        name matches Some(n) ==> r@ == n@,
        name is None ==> r@ == "unknown"@,
{
    match name {
        Some(n) => n,
        None => "unknown".to_owned(),
    }
}

/// The text of a call record line: which marker was invoked, at which source
/// location, on which worker.
pub open spec fn spec_call_record(file: Seq<char>, line: nat, worker: Seq<char>) -> Seq<char> {
    "Function 'fn()' called at "@ + file + ":"@ + spec_decimal(line) + " on thread "@ + worker
}

/// The text of the first release record line: which flavour of guard was
/// released and for how many milliseconds it was held.
pub open spec fn spec_release_line(kind: OpKind, duration_millis: u64) -> Seq<char> {
    (if kind == OpKind::ReleaseShared {
        "Read"@
    } else {
        "Write"@
    }) + " lock released. Duration: "@ + spec_decimal(duration_millis as nat) + "ms"@
}

/// Renders the call record line for `site`.
pub fn render_call_record(site: &CallSite) -> (r: String)
    ensures
        r@ == spec_call_record(site.file@, site.line as nat, site.worker@),
{
    let mut s = "Function 'fn()' called at ".to_owned();
    s.append(site.file.as_str());
    s.append(":");
    let line = u64_to_string(site.line);
    s.append(line.as_str());
    s.append(" on thread ");
    s.append(site.worker.as_str());
    proof {
        assert(s@ =~= spec_call_record(site.file@, site.line as nat, site.worker@));
    }
    s
}

/// A release record: the two trace lines emitted when a guard is released,
/// together with the values they were rendered from.
#[derive(Clone, PartialEq, Eq, Debug)]
pub struct ReleaseRecord {
    pub kind: OpKind,
    pub duration_millis: u64,
    /// The timing line, naming the guard flavour and the held duration.
    pub summary: String,
    /// The call record line attributing the release to the site that
    /// acquired the guard.
    pub attribution: String,
}

impl ReleaseRecord {
    /// Renders the release record for a guard of flavour `kind` that was held
    /// for `duration_millis` and acquired at `site`.
    pub fn new(kind: OpKind, duration_millis: u64, site: &CallSite) -> (r: ReleaseRecord)
        requires
            kind == OpKind::ReleaseShared || kind == OpKind::ReleaseExclusive,
        ensures
            r.kind == kind,
            r.duration_millis == duration_millis,
            r.summary@ == spec_release_line(kind, duration_millis),
            r.attribution@ == spec_call_record(site.file@, site.line as nat, site.worker@),
    {
        let mut summary = match kind {
            OpKind::ReleaseShared => "Read".to_owned(),
            _ => "Write".to_owned(),
        };
        summary.append(" lock released. Duration: ");
        let millis = u64_to_string(duration_millis);
        summary.append(millis.as_str());
        summary.append("ms");
        proof {
            assert(summary@ =~= spec_release_line(kind, duration_millis));
        }
        ReleaseRecord {
            kind,
            duration_millis,
            summary,
            attribution: render_call_record(site),
        }
    }
}

} // verus!
