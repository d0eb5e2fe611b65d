//! The identifier that ties a request's log records together.

use vstd::prelude::*;

verus! {

/// The request identifier picked for a request's log records: the `tracing`
/// header if present, else the `x-request-id` header, else `"none"`.
pub open spec fn tracing_id_of(tracing: Option<Seq<char>>, request_id: Option<Seq<char>>) -> Seq<char> {
    match tracing {
        Some(t) => t,
        None => match request_id {
            Some(r) => r,
            None => "none"@,
        },
    }
}

/// The tracing identifier of a request.
pub struct TracingContext(String);

impl View for TracingContext {
    type V = Seq<char>;

    closed spec fn view(&self) -> Seq<char> {
        self.0@
    }
}

impl TracingContext {
    /// Picks the identifier from the request's `tracing` and `x-request-id`
    /// header values (the first value of each, if present).
    pub fn new(tracing: Option<&str>, request_id: Option<&str>) -> (r: TracingContext)
        ensures
            r@ == tracing_id_of(
                match tracing { Some(t) => Some(t@), None => None },
                match request_id { Some(t) => Some(t@), None => None },
            ),
    {
        if let Some(header) = tracing {
            return TracingContext(header.to_string());
        } else if let Some(header) = request_id {
            return TracingContext(header.to_string());
        }
        TracingContext("none".to_string())
    }

    /// The identifier as text.
    pub fn as_str(&self) -> (r: &str)
        ensures
            r@ == self@,
    {
        self.0.as_str()
    }
}

} // verus!
