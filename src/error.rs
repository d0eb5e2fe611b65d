//! The failures that stop an application from launching, and the value that
//! carries one up to the caller.

use vstd::prelude::*;
use figment::Error as FigmentError;
use crate::report::{report, records_of, span_of, abort_reason_of, Report};

verus! {

/// Declares figment's `Error`, the configuration-extraction error, so that it
/// can be carried through the library unopened.
#[verifier::external_type_specification]
#[verifier::external_body]
pub struct ExFigmentError(FigmentError);

/// An underlying error together with its causal chain: `message` is the
/// error's own description, `source` the error that caused it, if any.
pub struct ErrorChain {
    pub message: String,
    pub source: Option<Box<ErrorChain>>,
}

/// The descriptions along a causal chain, outermost first.
pub open spec fn chain_links(c: ErrorChain) -> Seq<String>
    decreases c,
{
    seq![c.message] + match c.source {
        Some(s) => chain_links(*s),
        None => Seq::empty(),
    }
}

/// Two registered handlers that match the same requests.
pub struct Collisions {
    /// Colliding routes, as pairs of their descriptions.
    pub routes: Vec<(String, String)>,
    /// Colliding catchers, as pairs of their descriptions.
    pub catchers: Vec<(String, String)>,
}

/// A startup hook ("fairing") that reported failure.
pub struct FairingInfo {
    pub name: String,
}

/// A pre-launch check that asked for the launch to be aborted, with the place
/// in the source where it was requested.
pub struct Sentry {
    pub type_label: String,
    pub file: String,
    pub line: u32,
    pub column: u32,
}

/// The kind of failure that occurred.
#[non_exhaustive]
pub enum ErrorKind {
    /// Binding to the provided address/port failed.
    Bind(ErrorChain),
    /// An I/O error occurred during launch.
    Io(ErrorChain),
    /// An error occurred in the runtime.
    Runtime(ErrorChain),
    /// A valid configuration could not be extracted.
    Config(FigmentError),
    /// Route or catcher collisions were detected.
    Collisions(Collisions),
    /// Launch fairing(s) failed.
    FailedFairings(Vec<FairingInfo>),
    /// Sentinels requested abort.
    SentinelAborts(Vec<Sentry>),
    /// Secrets are enabled outside a debug profile without a secret key; holds
    /// the name of the selected profile.
    InsecureSecretKey(String),
}

/// The one-line summary of a kind, which leaves out structured payloads.
pub open spec fn summary_of(k: ErrorKind) -> Seq<char> {
    match k {
        ErrorKind::Bind(e) => "binding failed: "@ + e.message@,
        ErrorKind::Io(e) => "I/O error: "@ + e.message@,
        ErrorKind::Collisions(_) => "collisions detected"@,
        ErrorKind::FailedFairings(_) => "launch fairing(s) failed"@,
        ErrorKind::Runtime(e) => "runtime error: "@ + e.message@,
        ErrorKind::InsecureSecretKey(_) => "insecure secret key config"@,
        ErrorKind::Config(_) => "failed to extract configuration"@,
        ErrorKind::SentinelAborts(_) => "sentinel(s) aborted"@,
    }
}

/// `prefix` followed by `detail`.
fn prefixed(prefix: &str, detail: &String) -> (r: String)
    ensures
        r@ == prefix@ + detail@,
{
    let mut s = prefix.to_string();
    s.append(detail.as_str());
    s
}

impl ErrorKind {
    /// The one-line summary of this kind.
    pub fn summary(&self) -> (r: String)
        ensures
            r@ == summary_of(*self),
    {
        match self {
            ErrorKind::Bind(e) => prefixed("binding failed: ", &e.message),
            ErrorKind::Io(e) => prefixed("I/O error: ", &e.message),
            ErrorKind::Collisions(_) => "collisions detected".to_string(),
            ErrorKind::FailedFairings(_) => "launch fairing(s) failed".to_string(),
            ErrorKind::Runtime(e) => prefixed("runtime error: ", &e.message),
            ErrorKind::InsecureSecretKey(_) => "insecure secret key config".to_string(),
            ErrorKind::Config(_) => "failed to extract configuration".to_string(),
            ErrorKind::SentinelAborts(_) => "sentinel(s) aborted".to_string(),
        }
    }
}

/// The abstract state of an [`Error`]: whether it has been inspected, and the
/// kind it carries.
pub struct ErrorView {
    pub handled: bool,
    pub kind: ErrorKind,
}

/// The state of a newly made error.
pub open spec fn fresh(kind: ErrorKind) -> ErrorView {
    ErrorView { handled: false, kind }
}

/// The state after an inspection: marked handled, the kind unchanged.
pub open spec fn inspected(v: ErrorView) -> ErrorView {
    ErrorView { handled: true, kind: v.kind }
}

/// Whether discarding an error in state `v` owes a report and an abort: only
/// when it was never inspected and the thread is not already unwinding.
pub open spec fn report_owed(v: ErrorView, panicking: bool) -> bool {
    !v.handled && !panicking
}

/// An error that occurs during launch or, more rarely, in the runtime after
/// launch.
///
/// It must be inspected before it is discarded: `kind` and `describe` mark it
/// handled. The owner that discards it asks `drop_report` whether a diagnostic
/// is owed; one is owed exactly when the error was never inspected and the
/// thread is not already unwinding, and the process is then aborted with the
/// report's reason.
///
/// Inspection takes `&mut self`: ownership already guarantees a single holder
/// at a time, so the flag needs no atomic access.
pub struct Error {
    handled: bool,
    kind: ErrorKind,
}

impl View for Error {
    type V = ErrorView;

    closed spec fn view(&self) -> ErrorView {
        ErrorView { handled: self.handled, kind: self.kind }
    }
}

impl Error {
    /// Wraps a kind; the error starts out not inspected.
    pub fn new(kind: ErrorKind) -> (r: Error)
        ensures
            r@ == fresh(kind),
    {
        Error { handled: false, kind }
    }

    fn was_handled(&self) -> (r: bool)
        ensures
            r == self@.handled,
    {
        self.handled
    }

    fn mark_handled(&mut self)
        ensures
            final(self)@ == inspected(old(self)@),
    {
        self.handled = true;
    }

    /// The kind of the error; marks the error inspected.
    pub fn kind(&mut self) -> (r: &ErrorKind)
        ensures
            final(self)@ == inspected(old(self)@),
            *r == old(self)@.kind,
    {
        self.mark_handled();
        &self.kind
    }

    /// The one-line summary of the error's kind; marks the error inspected.
    pub fn describe(&mut self) -> (r: String)
        ensures
            final(self)@ == inspected(old(self)@),
            r@ == summary_of(old(self)@.kind),
    {
        self.mark_handled();
        self.kind.summary()
    }

    /// What is owed when the error is discarded, given whether the thread is
    /// already unwinding: the full report on its kind exactly when a report is
    /// owed (the process then aborts with the report's reason), else nothing.
    pub fn drop_report(&self, panicking: bool) -> (r: Option<Report>)
        ensures
            r.is_some() == report_owed(self@, panicking),
            r matches Some(rep) ==> rep.span == span_of(self@.kind)
                && rep.records@ == records_of(self@.kind)
                && rep.abort_reason@ == abort_reason_of(self@.kind),
    {
        if self.was_handled() || panicking {
            return None;
        }
        Some(report(&self.kind))
    }
}

/// Whether `phrase` occurs in `text` as a contiguous piece.
pub open spec fn mentions(text: Seq<char>, phrase: Seq<char>) -> bool {
    exists|i: int| 0 <= i && i + phrase.len() <= text.len() && #[trigger] text.subrange(i, i + phrase.len()) == phrase
}

/// The phrase that names the cause of an abort.
pub open spec fn cause_phrase(k: ErrorKind) -> Seq<char> {
    match k {
        ErrorKind::Bind(_) => "bind error"@,
        ErrorKind::Io(_) => "i/o error"@,
        ErrorKind::Collisions(_) => "routing collisions"@,
        ErrorKind::FailedFairings(_) => "fairing failure"@,
        ErrorKind::Runtime(_) => "runtime failure"@,
        ErrorKind::InsecureSecretKey(_) => "insecure configuration"@,
        ErrorKind::Config(_) => "invalid configuration"@,
        ErrorKind::SentinelAborts(_) => "sentinel-triggered abort"@,
    }
}

/// An error that was inspected, by `kind` or `describe`, owes no report and no
/// abort when it is discarded, whatever its kind.
pub proof fn inspection_gates_abort(kind: ErrorKind, panicking: bool)
    ensures
        !report_owed(inspected(fresh(kind)), panicking),
{
}

/// An error discarded without any inspection, outside an unwind, owes the
/// report on its kind and an abort whose reason names the kind's cause.
pub proof fn uninspected_error_aborts(kind: ErrorKind)
    ensures
        report_owed(fresh(kind), false),
        mentions(abort_reason_of(kind), cause_phrase(kind)),
{
    let r = abort_reason_of(kind);
    let p = cause_phrase(kind);
    match kind {
        ErrorKind::Bind(_) => {
            reveal_strlit("aborting due to socket bind error");
            reveal_strlit("bind error");
            assert(r.subrange(23int, 23int + p.len()) =~= p);
        },
        ErrorKind::Io(_) => {
            reveal_strlit("aborting due to i/o error");
            reveal_strlit("i/o error");
            assert(r.subrange(16int, 16int + p.len()) =~= p);
        },
        ErrorKind::Collisions(_) => {
            reveal_strlit("routing collisions detected");
            reveal_strlit("routing collisions");
            assert(r.subrange(0int, 0int + p.len()) =~= p);
        },
        ErrorKind::FailedFairings(_) => {
            reveal_strlit("aborting due to launch fairing failure");
            reveal_strlit("fairing failure");
            assert(r.subrange(23int, 23int + p.len()) =~= p);
        },
        ErrorKind::Runtime(_) => {
            reveal_strlit("aborting due to runtime failure");
            reveal_strlit("runtime failure");
            assert(r.subrange(16int, 16int + p.len()) =~= p);
        },
        ErrorKind::InsecureSecretKey(_) => {
            reveal_strlit("aborting due to insecure configuration");
            reveal_strlit("insecure configuration");
            assert(r.subrange(16int, 16int + p.len()) =~= p);
        },
        ErrorKind::Config(_) => {
            reveal_strlit("aborting due to invalid configuration");
            reveal_strlit("invalid configuration");
            assert(r.subrange(16int, 16int + p.len()) =~= p);
        },
        ErrorKind::SentinelAborts(_) => {
            reveal_strlit("aborting due to sentinel-triggered abort(s)");
            reveal_strlit("sentinel-triggered abort");
            assert(r.subrange(16int, 16int + p.len()) =~= p);
        },
    }
}

/// Inspecting twice is the same as inspecting once: the kind is unchanged and
/// no report is owed after either inspection.
pub proof fn inspection_is_idempotent(v: ErrorView, panicking: bool)
    ensures
        inspected(inspected(v)) == inspected(v),
        inspected(inspected(v)).kind == v.kind,
        !report_owed(inspected(v), panicking),
{
}

/// An error discarded while the thread is already unwinding owes no report
/// and no abort, whether or not it was inspected.
pub proof fn no_report_while_unwinding(v: ErrorView)
    ensures
        !report_owed(v, true),
{
}

impl From<ErrorKind> for Error {
    fn from(kind: ErrorKind) -> (r: Error)
        ensures
            r@ == fresh(kind),
    {
        Error::new(kind)
    }
}

impl vstd::std_specs::convert::FromSpecImpl<ErrorKind> for Error {
    open spec fn obeys_from_spec() -> bool {
        true
    }

    closed spec fn from_spec(kind: ErrorKind) -> Error {
        Error { handled: false, kind }
    }
}

} // verus!
