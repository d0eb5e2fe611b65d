use launch_error::error::{Collisions, Error, ErrorChain, ErrorKind, FairingInfo, Sentry};
use launch_error::report::{report, HandlerGroup, Hint, Record, Span};
use launch_error::template::{autoescape_suffixes, check_context, check_template, finish_init, finish_render, prepare_render, EXT};
use launch_error::tracing_context::TracingContext;

fn chain(messages: &[&str]) -> ErrorChain {
    let mut iter = messages.iter().rev();
    let mut cur = ErrorChain { message: iter.next().unwrap().to_string(), source: None };
    for m in iter {
        cur = ErrorChain { message: m.to_string(), source: Some(Box::new(cur)) };
    }
    cur
}

fn chain_of(e: &dyn std::error::Error) -> ErrorChain {
    ErrorChain { message: e.to_string(), source: e.source().map(|s| Box::new(chain_of(s))) }
}

fn render(engine: &tera::Tera, name: &str, context: tera::Value, log: &mut Vec<Record>) -> Option<String> {
    let ctx = prepare_render(engine, name, context, log)?;
    finish_render(name, engine.render(name, &ctx).map_err(|e| chain_of(&e)), log)
}

fn empty_object() -> tera::Value {
    tera::Value::Object(tera::Map::new())
}

fn engine_with(templates: Vec<(&str, &str)>) -> tera::Tera {
    let mut tera = tera::Tera::default();
    tera.add_raw_templates(templates).expect("templates compile");
    tera
}

fn causes(records: &[Record]) -> Vec<String> {
    records
        .iter()
        .map(|r| match r {
            Record::Cause(m) => m.clone(),
            _ => panic!("not a cause record"),
        })
        .collect()
}

#[test]
fn tracing_header_wins() {
    let t = TracingContext::new(Some("abc"), Some("req-1"));
    assert_eq!(t.as_str(), "abc");
}

#[test]
fn request_id_is_second_choice() {
    let t = TracingContext::new(None, Some("req-1"));
    assert_eq!(t.as_str(), "req-1");
}

#[test]
fn no_header_gives_none() {
    let t = TracingContext::new(None, None);
    assert_eq!(t.as_str(), "none");
}

#[test]
fn new_error_owes_a_report() {
    let e = Error::new(ErrorKind::Bind(chain(&["address in use"])));
    let rep = e.drop_report(false).expect("a report is owed");
    assert_eq!(rep.span, Span::BindError);
    assert_eq!(rep.abort_reason, "aborting due to socket bind error");
    assert!(rep.abort_reason.contains("bind error"));
    assert_eq!(causes(&rep.records), vec!["address in use".to_string()]);
}

#[test]
fn from_kind_starts_uninspected() {
    let e: Error = ErrorKind::Io(chain(&["broken pipe"])).into();
    let rep = e.drop_report(false).expect("a report is owed");
    assert_eq!(rep.abort_reason, "aborting due to i/o error");
}

#[test]
fn kind_marks_inspected() {
    let mut e = Error::new(ErrorKind::Io(chain(&["disk full"])));
    assert!(matches!(e.kind(), ErrorKind::Io(c) if c.message == "disk full"));
    assert!(e.drop_report(false).is_none());
}

#[test]
fn describe_marks_inspected() {
    let mut e = Error::new(ErrorKind::Bind(chain(&["address in use"])));
    assert_eq!(e.describe(), "binding failed: address in use");
    assert!(e.drop_report(false).is_none());
}

#[test]
fn kind_twice_is_same_kind() {
    let mut e = Error::new(ErrorKind::InsecureSecretKey("release".to_string()));
    let first = match e.kind() {
        ErrorKind::InsecureSecretKey(p) => p.clone(),
        _ => panic!("wrong kind"),
    };
    let second = match e.kind() {
        ErrorKind::InsecureSecretKey(p) => p.clone(),
        _ => panic!("wrong kind"),
    };
    assert_eq!(first, second);
    assert!(e.drop_report(false).is_none());
}

#[test]
fn no_report_while_unwinding() {
    let e = Error::new(ErrorKind::FailedFairings(vec![FairingInfo { name: "db".to_string() }]));
    assert!(e.drop_report(true).is_none());
}

#[test]
fn causal_chain_outer_to_inner() {
    let e = Error::new(ErrorKind::Io(chain(&["outer", "middle", "inner"])));
    let rep = e.drop_report(false).expect("a report is owed");
    assert_eq!(rep.records.len(), 3);
    assert_eq!(causes(&rep.records), vec!["outer", "middle", "inner"]);
}

#[test]
fn runtime_chain_is_reported() {
    let rep = report(&ErrorKind::Runtime(chain(&["task failed", "timeout"])));
    assert_eq!(rep.span, Span::RuntimeError);
    assert_eq!(rep.abort_reason, "aborting due to runtime failure");
    assert_eq!(causes(&rep.records), vec!["task failed", "timeout"]);
}

#[test]
fn sentinel_scenario() {
    let kind = ErrorKind::SentinelAborts(vec![Sentry {
        type_label: "MySentry".to_string(),
        file: "main.rs".to_string(),
        line: 10,
        column: 5,
    }]);
    let rep = Error::new(kind).drop_report(false).expect("a report is owed");
    assert_eq!(rep.span, Span::SentinelAborts);
    assert_eq!(rep.records.len(), 1);
    match &rep.records[0] {
        Record::Sentinel { type_label, file, line, column } => {
            assert_eq!(type_label, "MySentry");
            assert_eq!(format!("{}:{}:{}", file, line, column), "main.rs:10:5");
        }
        _ => panic!("not a sentinel record"),
    }
    assert_eq!(rep.abort_reason, "aborting due to sentinel-triggered abort(s)");
}

#[test]
fn collisions_are_grouped() {
    let kind = ErrorKind::Collisions(Collisions {
        routes: vec![
            ("GET /a".to_string(), "GET /<x>".to_string()),
            ("POST /b".to_string(), "POST /<y>".to_string()),
        ],
        catchers: vec![],
    });
    let rep = report(&kind);
    assert_eq!(rep.span, Span::Collisions);
    assert_eq!(rep.abort_reason, "routing collisions detected");
    assert!(rep.abort_reason.contains("routing collisions"));
    assert_eq!(rep.records.len(), 4);
    assert!(matches!(rep.records[0], Record::CollisionGroup(HandlerGroup::Route)));
    assert!(matches!(&rep.records[1], Record::Collision { first, second } if first == "GET /a" && second == "GET /<x>"));
    assert!(matches!(&rep.records[2], Record::Collision { first, second } if first == "POST /b" && second == "POST /<y>"));
    assert!(matches!(rep.records[3], Record::Hint(Hint::RankRoutes)));
}

#[test]
fn catcher_collisions_follow_routes() {
    let kind = ErrorKind::Collisions(Collisions {
        routes: vec![],
        catchers: vec![("404 /".to_string(), "404 /".to_string())],
    });
    let rep = report(&kind);
    assert_eq!(rep.records.len(), 3);
    assert!(matches!(rep.records[0], Record::CollisionGroup(HandlerGroup::Catcher)));
    assert!(matches!(&rep.records[1], Record::Collision { first, .. } if first == "404 /"));
    assert!(matches!(rep.records[2], Record::Hint(Hint::RankRoutes)));
}

#[test]
fn failed_fairings_are_named() {
    let kind = ErrorKind::FailedFairings(vec![
        FairingInfo { name: "db".to_string() },
        FairingInfo { name: "cache".to_string() },
    ]);
    let rep = report(&kind);
    assert_eq!(rep.span, Span::FairingError);
    assert_eq!(rep.abort_reason, "aborting due to launch fairing failure");
    assert!(matches!(&rep.records[0], Record::Fairing(n) if n == "db"));
    assert!(matches!(&rep.records[1], Record::Fairing(n) if n == "cache"));
    assert_eq!(rep.records.len(), 2);
}

#[test]
fn insecure_secret_key_names_profile() {
    let rep = report(&ErrorKind::InsecureSecretKey("release".to_string()));
    assert_eq!(rep.span, Span::InsecureSecretKey);
    assert_eq!(rep.abort_reason, "aborting due to insecure configuration");
    assert!(matches!(&rep.records[0], Record::Profile(p) if p == "release"));
    assert!(matches!(rep.records[1], Record::Hint(Hint::ConfigureSecretKey)));
}

#[test]
fn config_error_is_carried_through() {
    let err = figment::Error::from("missing field `port`".to_string());
    let rep = report(&ErrorKind::Config(err.clone()));
    assert_eq!(rep.span, Span::ConfigError);
    assert_eq!(rep.abort_reason, "aborting due to invalid configuration");
    assert_eq!(rep.records.len(), 1);
    assert!(matches!(rep.records[0], Record::Config));
    assert!(matches!(Error::new(ErrorKind::Config(err.clone())).kind(), ErrorKind::Config(e) if *e == err));
}

#[test]
fn summaries_hide_payloads() {
    let sum = |k: ErrorKind| k.summary();
    assert_eq!(sum(ErrorKind::Io(chain(&["eof"]))), "I/O error: eof");
    assert_eq!(sum(ErrorKind::Runtime(chain(&["boom"]))), "runtime error: boom");
    assert_eq!(sum(ErrorKind::Collisions(Collisions { routes: vec![], catchers: vec![] })), "collisions detected");
    assert_eq!(sum(ErrorKind::FailedFairings(vec![])), "launch fairing(s) failed");
    assert_eq!(sum(ErrorKind::InsecureSecretKey("x".to_string())), "insecure secret key config");
    assert_eq!(sum(ErrorKind::Config(figment::Error::from("bad"))), "failed to extract configuration");
    assert_eq!(sum(ErrorKind::SentinelAborts(vec![])), "sentinel(s) aborted");
}

#[test]
fn engine_extension_and_escapes() {
    assert_eq!(EXT, "tera");
    assert_eq!(autoescape_suffixes(), vec![".html.tera", ".htm.tera", ".xml.tera", ".html", ".htm", ".xml"]);
}

#[test]
fn init_with_base_in_same_batch() {
    let mut tera = tera::Tera::default();
    let res = tera
        .add_raw_templates(vec![
            ("base", "<p>{% block body %}{% endblock %}</p>"),
            ("page", "{% extends \"base\" %}{% block body %}hi{% endblock %}"),
        ])
        .map(|_| tera)
        .map_err(|e| chain_of(&e));
    let mut log = Vec::new();
    let engine = finish_init(res, &mut log).expect("initialises");
    assert!(log.is_empty());
    let out = render(&engine, "page", empty_object(), &mut log);
    assert_eq!(out, Some("<p>hi</p>".to_string()));
    assert!(log.is_empty());
}

#[test]
fn init_without_base_fails() {
    let mut tera = tera::Tera::default();
    let res = tera
        .add_raw_templates(vec![("page", "{% extends \"base\" %}{% block body %}hi{% endblock %}")])
        .map(|_| tera)
        .map_err(|e| chain_of(&e));
    let mut log = Vec::new();
    assert!(finish_init(res, &mut log).is_none());
    assert!(log.len() >= 2);
    assert!(matches!(log[0], Record::InitFailed));
    assert!(log[1..].iter().all(|r| matches!(r, Record::Cause(_))));
}

#[test]
fn missing_template_logs_once() {
    let mut log = Vec::new();
    assert!(!check_template("nope", false, &mut log));
    assert_eq!(log.len(), 1);
    assert!(matches!(&log[0], Record::MissingTemplate(n) if n == "nope"));
}

#[test]
fn present_template_logs_nothing() {
    let mut log = Vec::new();
    assert!(check_template("index", true, &mut log));
    assert!(log.is_empty());
}

#[test]
fn context_error_is_logged() {
    let mut log = Vec::new();
    assert_eq!(check_context::<u32>(Err("not a map".to_string()), &mut log), None);
    assert!(matches!(&log[0], Record::ContextError(m) if m == "not a map"));
    assert_eq!(check_context::<u32>(Ok(7), &mut log), Some(7));
    assert_eq!(log.len(), 1);
}

#[test]
fn render_error_logs_chain() {
    let mut log = Vec::new();
    assert_eq!(finish_render("page", Err(chain(&["render failed", "unknown var"])), &mut log), None);
    assert!(matches!(&log[0], Record::RenderFailed(n) if n == "page"));
    assert_eq!(causes(&log[1..]), vec!["render failed", "unknown var"]);
}

#[test]
fn render_missing_template_logs_once() {
    let engine = engine_with(vec![("index", "hello")]);
    let mut log = Vec::new();
    assert_eq!(render(&engine, "nope", empty_object(), &mut log), None);
    assert_eq!(log.len(), 1);
    assert!(matches!(&log[0], Record::MissingTemplate(n) if n == "nope"));
}

#[test]
fn render_produces_text() {
    let engine = engine_with(vec![("index", "hello {{ who }}")]);
    let mut map = tera::Map::new();
    map.insert("who".to_string(), tera::Value::String("world".to_string()));
    let mut log = Vec::new();
    assert_eq!(render(&engine, "index", tera::Value::Object(map), &mut log), Some("hello world".to_string()));
    assert!(log.is_empty());
}

#[test]
fn render_rejects_non_object_context() {
    let engine = engine_with(vec![("index", "hello")]);
    let mut log = Vec::new();
    assert_eq!(render(&engine, "index", tera::Value::Bool(true), &mut log), None);
    assert_eq!(log.len(), 1);
    assert!(matches!(log[0], Record::ContextError(_)));
}

#[test]
fn render_failure_logs_causes() {
    let engine = engine_with(vec![("index", "hello {{ missing }}")]);
    let mut log = Vec::new();
    assert_eq!(render(&engine, "index", empty_object(), &mut log), None);
    assert!(log.len() >= 2);
    assert!(matches!(&log[0], Record::RenderFailed(n) if n == "index"));
    assert!(log[1..].iter().all(|r| matches!(r, Record::Cause(_))));
}

#[test]
fn init_failure_heads_the_causes() {
    let mut log = Vec::new();
    let res: Result<u32, ErrorChain> = Err(chain(&["parse error", "unexpected token"]));
    assert_eq!(finish_init(res, &mut log), None);
    assert_eq!(log.len(), 3);
    assert!(matches!(log[0], Record::InitFailed));
    assert_eq!(causes(&log[1..]), vec!["parse error", "unexpected token"]);
}

#[test]
fn prepare_render_gives_context_for_held_template() {
    let engine = engine_with(vec![("index", "hello")]);
    let mut log = Vec::new();
    assert!(prepare_render(&engine, "index", empty_object(), &mut log).is_some());
    assert!(log.is_empty());
}
