//! The Tera template-engine adapter. Reading and compiling template files, and
//! rendering itself, are handed in as results; lookup and context conversion
//! are made here through the engine. Each step logs what failed, with its full causal
//! chain, and yields "no instance" or "no output" instead of failing.

use vstd::prelude::*;
use crate::error::ErrorChain;
use crate::report::{cause_records, push_causes, Record};
use tera::{Context, Tera, Value};

verus! {

/// Declares the Tera engine, which holds the compiled templates by name.
#[verifier::external_type_specification]
#[verifier::external_body]
pub struct ExTera(Tera);

/// Declares Tera's render context.
#[verifier::external_type_specification]
#[verifier::external_body]
pub struct ExContext(Context);

/// Declares Tera's structured value (a JSON value).
#[verifier::external_type_specification]
#[verifier::external_body]
pub struct ExValue(Value);

/// The names of the templates that an engine holds.
pub uninterp spec fn template_names(t: Tera) -> Set<Seq<char>>;

/// Relies on `Tera::get_template`, which looks the name up in the engine's
/// map of templates: `Ok` exactly when a template of that name is held.
#[verifier::external_body]
fn has_template(t: &Tera, name: &str) -> (r: bool)
    ensures
        r == template_names(*t).contains(name@),
{
    t.get_template(name).is_ok()
}

/// Relies on `Context::from_value`; a failure is given as its message.
#[verifier::external_body]
fn context_from(v: Value) -> (r: Result<Context, String>) {
    Context::from_value(v).map_err(|e| e.to_string())
}

/// The file extension that marks a template as belonging to the engine.
pub const EXT: &'static str = "tera";

/// File suffixes for which the engine escapes HTML/XML output.
pub fn autoescape_suffixes() -> (r: Vec<&'static str>)
    ensures
        r@.len() == 6,
        r@[0]@ == ".html.tera"@,
        r@[1]@ == ".htm.tera"@,
        r@[2]@ == ".xml.tera"@,
        r@[3]@ == ".html"@,
        r@[4]@ == ".htm"@,
        r@[5]@ == ".xml"@,
{
    vec![".html.tera", ".htm.tera", ".xml.tera", ".html", ".htm", ".xml"]
}

/// Finishes initialisation from the result of registering all templates at
/// once: the instance on success; otherwise no instance, with a heading that
/// initialisation failed followed by the error's causal chain.
pub fn finish_init<T>(registered: Result<T, ErrorChain>, log: &mut Vec<Record>) -> (r: Option<T>)
    ensures
        match registered {
            Ok(t) => r == Some(t) && final(log)@ == old(log)@,
            Err(e) => r.is_none() && final(log)@ == old(log)@ + seq![Record::InitFailed]
                + cause_records(e),
        },
{
    match registered {
        Ok(t) => Some(t),
        Err(e) => {
            log.push(Record::InitFailed);
            push_causes(&e, log);
            None
        },
    }
}

/// The first step of rendering: whether the template `name` was found. When
/// it was not, exactly one record saying so is logged and rendering stops.
pub fn check_template(name: &str, found: bool, log: &mut Vec<Record>) -> (r: bool)
    ensures
        r == found,
        found ==> final(log)@ == old(log)@,
        !found ==> {
            &&& final(log)@.len() == old(log)@.len() + 1
            &&& final(log)@.take(old(log)@.len() as int) == old(log)@
            &&& (final(log)@.last() matches Record::MissingTemplate(n) && n@ == name@)
        },
{
    if !found {
        log.push(Record::MissingTemplate(name.to_string()));
        assert(final(log)@.take(old(log)@.len() as int) =~= old(log)@);
    }
    found
}

/// The second step of rendering: the context converted for the engine, or
/// nothing, with the conversion error logged.
pub fn check_context<C>(converted: Result<C, String>, log: &mut Vec<Record>) -> (r: Option<C>)
    ensures
        match converted {
            Ok(c) => r == Some(c) && final(log)@ == old(log)@,
            Err(m) => r.is_none() && final(log)@ == old(log)@.push(Record::ContextError(m)),
        },
{
    match converted {
        Ok(c) => Some(c),
        Err(m) => {
            log.push(Record::ContextError(m));
            None
        },
    }
}

/// The last step of rendering, from the engine's result for template `name`:
/// the produced text; or no output, with a heading that names the template
/// followed by the rendering error's causal chain.
pub fn finish_render(name: &str, rendered: Result<String, ErrorChain>, log: &mut Vec<Record>) -> (r: Option<String>)
    ensures
        match rendered {
            Ok(s) => r == Some(s) && final(log)@ == old(log)@,
            Err(e) => {
                &&& r.is_none()
                &&& final(log)@.len() == old(log)@.len() + 1 + cause_records(e).len()
                &&& final(log)@.take(old(log)@.len() as int) == old(log)@
                &&& (final(log)@[old(log)@.len() as int] matches Record::RenderFailed(n) && n@ == name@)
                &&& final(log)@.skip(old(log)@.len() + 1int) == cause_records(e)
            },
        },
{
    match rendered {
        Ok(s) => Some(s),
        Err(e) => {
            let ghost start = log@;
            log.push(Record::RenderFailed(name.to_string()));
            let ghost mid = log@;
            push_causes(&e, log);
            assert(log@.take(start.len() as int) =~= start);
            assert(log@.skip(start.len() + 1int) =~= cause_records(e));
            assert(log@[start.len() as int] == mid[start.len() as int]);
            None
        },
    }
}

/// The steps before rendering template `name`. A name the engine does not
/// hold yields nothing and exactly one record naming it, with no conversion
/// attempted. Otherwise the context is converted: the engine's context to
/// render with, or nothing with exactly one record of the conversion error.
/// The template is rendered only when a context comes back.
pub fn prepare_render(t: &Tera, name: &str, context: Value, log: &mut Vec<Record>) -> (r: Option<Context>)
    ensures
        !template_names(*t).contains(name@) ==> {
            &&& r.is_none()
            &&& final(log)@.len() == old(log)@.len() + 1
            &&& final(log)@.take(old(log)@.len() as int) == old(log)@
            &&& (final(log)@.last() matches Record::MissingTemplate(n) && n@ == name@)
        },
        r.is_some() ==> template_names(*t).contains(name@) && final(log)@ == old(log)@,
        template_names(*t).contains(name@) && r.is_none() ==> {
            &&& final(log)@.len() == old(log)@.len() + 1
            &&& final(log)@.take(old(log)@.len() as int) == old(log)@
            &&& final(log)@.last() is ContextError
        },
{
    if !check_template(name, has_template(t, name), log) {
        return None;
    }
    let ghost start = log@;
    let r = check_context(context_from(context), log);
    assert(log@.take(start.len() as int) =~= start);
    r
}

} // verus!
