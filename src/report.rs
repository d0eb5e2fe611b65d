//! The diagnostic report of a launch error: the structured records it sends to
//! the event sink, and the reason given when the process is aborted.

use vstd::prelude::*;
use crate::error::{chain_links, Collisions, ErrorChain, ErrorKind, FairingInfo, Sentry};

verus! {

/// Which group of handlers a collision was found in.
#[derive(PartialEq, Eq, Structural, Clone, Copy, Debug)]
pub enum HandlerGroup {
    Route,
    Catcher,
}

/// A remedy suggested to the operator.
#[derive(PartialEq, Eq, Structural, Clone, Copy, Debug)]
pub enum Hint {
    /// Route collisions can usually be resolved by ranking routes.
    RankRoutes,
    /// Disable the `secrets` feature or configure a `secret_key`.
    ConfigureSecretKey,
}

/// The scope that groups the records of one report.
#[derive(PartialEq, Eq, Structural, Clone, Copy, Debug)]
pub enum Span {
    BindError,
    IoError,
    Collisions,
    FairingError,
    RuntimeError,
    InsecureSecretKey,
    ConfigError,
    SentinelAborts,
}

/// One structured record for the event sink.
pub enum Record {
    /// One link of a causal chain.
    Cause(String),
    /// Heading of a non-empty group of collisions.
    CollisionGroup(HandlerGroup),
    /// `first` collides with `second`.
    Collision { first: String, second: String },
    /// The name of a failing fairing.
    Fairing(String),
    /// An aborting sentinel and the place it was requested.
    Sentinel { type_label: String, file: String, line: u32, column: u32 },
    /// The selected configuration profile.
    Profile(String),
    /// A suggested remedy.
    Hint(Hint),
    /// The kind's configuration error is to be shown by the configuration
    /// pretty-printer.
    Config,
    /// Compiling the templates failed; the causes follow.
    InitFailed,
    /// Rendering the named template failed; the causes follow.
    RenderFailed(String),
    /// A template that was asked for does not exist.
    MissingTemplate(String),
    /// A render context could not be converted for the engine.
    ContextError(String),
}

/// A full diagnostic: the scope, its records in order, and the abort reason.
pub struct Report {
    pub span: Span,
    pub records: Vec<Record>,
    pub abort_reason: &'static str,
}

/// One record per link of a causal chain, outermost first.
pub open spec fn cause_records(c: ErrorChain) -> Seq<Record> {
    chain_links(c).map_values(|m: String| Record::Cause(m))
}

/// A heading and one record per colliding pair; nothing for an empty group.
pub open spec fn collision_records(g: HandlerGroup, pairs: Seq<(String, String)>) -> Seq<Record> {
    if pairs.len() == 0 {
        Seq::empty()
    } else {
        seq![Record::CollisionGroup(g)] + pairs.map_values(
            |p: (String, String)| Record::Collision { first: p.0, second: p.1 },
        )
    }
}

/// The record of one aborting sentinel.
pub open spec fn sentinel_record(s: Sentry) -> Record {
    Record::Sentinel { type_label: s.type_label, file: s.file, line: s.line, column: s.column }
}

/// The scope of the report on a kind.
pub open spec fn span_of(k: ErrorKind) -> Span {
    match k {
        ErrorKind::Bind(_) => Span::BindError,
        ErrorKind::Io(_) => Span::IoError,
        ErrorKind::Collisions(_) => Span::Collisions,
        ErrorKind::FailedFairings(_) => Span::FairingError,
        ErrorKind::Runtime(_) => Span::RuntimeError,
        ErrorKind::InsecureSecretKey(_) => Span::InsecureSecretKey,
        ErrorKind::Config(_) => Span::ConfigError,
        ErrorKind::SentinelAborts(_) => Span::SentinelAborts,
    }
}

/// The records of the report on a kind, in the order they are emitted.
pub open spec fn records_of(k: ErrorKind) -> Seq<Record> {
    match k {
        ErrorKind::Bind(e) => cause_records(e),
        ErrorKind::Io(e) => cause_records(e),
        ErrorKind::Runtime(e) => cause_records(e),
        ErrorKind::Collisions(c) => collision_records(HandlerGroup::Route, c.routes@)
            + collision_records(HandlerGroup::Catcher, c.catchers@)
            + seq![Record::Hint(Hint::RankRoutes)],
        ErrorKind::FailedFairings(fs) => fs@.map_values(|f: FairingInfo| Record::Fairing(f.name)),
        ErrorKind::SentinelAborts(ss) => ss@.map_values(|s: Sentry| sentinel_record(s)),
        ErrorKind::InsecureSecretKey(p) => seq![
            Record::Profile(p),
            Record::Hint(Hint::ConfigureSecretKey),
        ],
        ErrorKind::Config(_) => seq![Record::Config],
    }
}

/// The reason given when the process is aborted because of a kind.
pub open spec fn abort_reason_of(k: ErrorKind) -> Seq<char> {
    match k {
        ErrorKind::Bind(_) => "aborting due to socket bind error"@,
        ErrorKind::Io(_) => "aborting due to i/o error"@,
        ErrorKind::Collisions(_) => "routing collisions detected"@,
        ErrorKind::FailedFairings(_) => "aborting due to launch fairing failure"@,
        ErrorKind::Runtime(_) => "aborting due to runtime failure"@,
        ErrorKind::InsecureSecretKey(_) => "aborting due to insecure configuration"@,
        ErrorKind::Config(_) => "aborting due to invalid configuration"@,
        ErrorKind::SentinelAborts(_) => "aborting due to sentinel-triggered abort(s)"@,
    }
}

/// The report on an I/O, bind or runtime error holds exactly one record per
/// link of the causal chain, outermost first.
pub proof fn causal_chain_complete(c: ErrorChain)
    ensures
        records_of(ErrorKind::Io(c)).len() == chain_links(c).len(),
        records_of(ErrorKind::Bind(c)) == records_of(ErrorKind::Io(c)),
        records_of(ErrorKind::Runtime(c)) == records_of(ErrorKind::Io(c)),
        forall|i: int| 0 <= i < chain_links(c).len() ==>
            #[trigger] records_of(ErrorKind::Io(c))[i] == Record::Cause(chain_links(c)[i]),
{
}

/// Appends one record per link of the causal chain, outermost first.
pub fn push_causes(c: &ErrorChain, out: &mut Vec<Record>)
    ensures
        final(out)@ == old(out)@ + cause_records(*c),
    decreases c,
{
    let ghost start = out@;
    out.push(Record::Cause(c.message.clone()));
    match &c.source {
        Some(s) => {
            push_causes(s, out);
        },
        None => {},
    }
    assert(final(out)@ =~= start + cause_records(*c));
}

/// Appends the records of one group of collisions.
fn push_collisions(g: HandlerGroup, pairs: &Vec<(String, String)>, out: &mut Vec<Record>)
    ensures
        final(out)@ == old(out)@ + collision_records(g, pairs@),
{
    if pairs.len() == 0 {
        assert(final(out)@ =~= old(out)@ + collision_records(g, pairs@));
        return;
    }
    let ghost start = out@;
    out.push(Record::CollisionGroup(g));
    let mut i: usize = 0;
    while i < pairs.len()
        invariant
            0 <= i <= pairs@.len(),
            out@ == start + seq![Record::CollisionGroup(g)] + pairs@.take(i as int).map_values(
                |p: (String, String)| Record::Collision { first: p.0, second: p.1 },
            ),
        decreases pairs@.len() - i,
    {
        let (a, b) = &pairs[i];
        out.push(Record::Collision { first: a.clone(), second: b.clone() });
        i += 1;
        assert(pairs@.take(i as int) =~= pairs@.take(i - 1) + seq![pairs@[i - 1]]);
    }
    assert(pairs@.take(i as int) =~= pairs@);
}

/// Builds the diagnostic report on a kind.
pub fn report(k: &ErrorKind) -> (r: Report)
    ensures
        r.span == span_of(*k),
        r.records@ == records_of(*k),
        r.abort_reason@ == abort_reason_of(*k),
{
    let mut records: Vec<Record> = Vec::new();
    match k {
        ErrorKind::Bind(e) => {
            push_causes(e, &mut records);
            Report { span: Span::BindError, records, abort_reason: "aborting due to socket bind error" }
        },
        ErrorKind::Io(e) => {
            push_causes(e, &mut records);
            Report { span: Span::IoError, records, abort_reason: "aborting due to i/o error" }
        },
        ErrorKind::Runtime(e) => {
            push_causes(e, &mut records);
            Report { span: Span::RuntimeError, records, abort_reason: "aborting due to runtime failure" }
        },
        ErrorKind::Collisions(c) => {
            push_collisions(HandlerGroup::Route, &c.routes, &mut records);
            push_collisions(HandlerGroup::Catcher, &c.catchers, &mut records);
            records.push(Record::Hint(Hint::RankRoutes));
            assert(records@ =~= records_of(*k));
            Report { span: Span::Collisions, records, abort_reason: "routing collisions detected" }
        },
        ErrorKind::FailedFairings(fs) => {
            let mut i: usize = 0;
            while i < fs.len()
                invariant
                    0 <= i <= fs@.len(),
                    records@ == fs@.take(i as int).map_values(|f: FairingInfo| Record::Fairing(f.name)),
                decreases fs@.len() - i,
            {
                records.push(Record::Fairing(fs[i].name.clone()));
                i += 1;
                assert(fs@.take(i as int) =~= fs@.take(i - 1) + seq![fs@[i - 1]]);
            }
            assert(fs@.take(i as int) =~= fs@);
            Report { span: Span::FairingError, records, abort_reason: "aborting due to launch fairing failure" }
        },
        ErrorKind::SentinelAborts(ss) => {
            let mut i: usize = 0;
            while i < ss.len()
                invariant
                    0 <= i <= ss@.len(),
                    records@ == ss@.take(i as int).map_values(|s: Sentry| sentinel_record(s)),
                decreases ss@.len() - i,
            {
                let s = &ss[i];
                records.push(Record::Sentinel {
                    type_label: s.type_label.clone(),
                    file: s.file.clone(),
                    line: s.line,
                    column: s.column,
                });
                i += 1;
                assert(ss@.take(i as int) =~= ss@.take(i - 1) + seq![ss@[i - 1]]);
            }
            assert(ss@.take(i as int) =~= ss@);
            Report { span: Span::SentinelAborts, records, abort_reason: "aborting due to sentinel-triggered abort(s)" }
        },
        ErrorKind::InsecureSecretKey(p) => {
            records.push(Record::Profile(p.clone()));
            records.push(Record::Hint(Hint::ConfigureSecretKey));
            assert(records@ =~= records_of(*k));
            Report { span: Span::InsecureSecretKey, records, abort_reason: "aborting due to insecure configuration" }
        },
        ErrorKind::Config(_) => {
            records.push(Record::Config);
            assert(records@ =~= records_of(*k));
            Report { span: Span::ConfigError, records, abort_reason: "aborting due to invalid configuration" }
        },
    }
}

} // verus!
