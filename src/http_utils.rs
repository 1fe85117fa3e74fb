//! HTTP request methods, and building a plain error record.
use vstd::prelude::*;
use crate::err::{ErrorCode, HttpError, HttpErrorView};

verus! {

pub const METHOD_OPTIONS: &'static str = "OPTIONS";
pub const METHOD_GET: &'static str = "GET";
pub const METHOD_POST: &'static str = "POST";
pub const METHOD_PUT: &'static str = "PUT";
pub const METHOD_DELETE: &'static str = "DELETE";
pub const METHOD_HEAD: &'static str = "HEAD";
pub const METHOD_TRACE: &'static str = "TRACE";
pub const METHOD_CONNECT: &'static str = "CONNECT";
pub const METHOD_PATCH: &'static str = "PATCH";

/// An error record with the given code and message and no context.
pub fn err_msg(code: ErrorCode, message: &str) -> (r: HttpError)
    ensures
        r@ == (HttpErrorView { code: code@, message: message@, context: None }),
        code.wf() ==> r.wf(),
{
    HttpError { code, message: message.to_string(), context: None }
}

/// The request methods of HTTP.
#[derive(Debug, Clone, Copy, PartialEq, Eq, Structural)]
pub enum HttpMethod {
    Options,
    Get,
    Post,
    Put,
    Delete,
    Head,
    Trace,
    Connect,
    Patch,
}

/// The upper-case form of a text, as Unicode defines it.
pub uninterp spec fn upper_of(s: Seq<char>) -> Seq<char>;

/// Relies on `str::to_uppercase`: the result depends on the text alone.
#[verifier::external_body]
fn to_upper(s: &str) -> (r: String)
    ensures
        r@ == upper_of(s@),
{
    s.to_uppercase()
}

/// The name of a method, in upper case.
pub open spec fn method_name(m: HttpMethod) -> Seq<char> {
    match m {
        HttpMethod::Options => METHOD_OPTIONS@,
        HttpMethod::Get => METHOD_GET@,
        HttpMethod::Post => METHOD_POST@,
        HttpMethod::Put => METHOD_PUT@,
        HttpMethod::Delete => METHOD_DELETE@,
        HttpMethod::Head => METHOD_HEAD@,
        HttpMethod::Trace => METHOD_TRACE@,
        HttpMethod::Connect => METHOD_CONNECT@,
        HttpMethod::Patch => METHOD_PATCH@,
    }
}

/// The method whose upper-case name is exactly `s`, if any.
pub open spec fn method_named(s: Seq<char>) -> Option<HttpMethod> {
    if s == METHOD_OPTIONS@ {
        Some(HttpMethod::Options)
    } else if s == METHOD_GET@ {
        Some(HttpMethod::Get)
    } else if s == METHOD_POST@ {
        Some(HttpMethod::Post)
    } else if s == METHOD_PUT@ {
        Some(HttpMethod::Put)
    } else if s == METHOD_DELETE@ {
        Some(HttpMethod::Delete)
    } else if s == METHOD_HEAD@ {
        Some(HttpMethod::Head)
    } else if s == METHOD_TRACE@ {
        Some(HttpMethod::Trace)
    } else if s == METHOD_CONNECT@ {
        Some(HttpMethod::Connect)
    } else if s == METHOD_PATCH@ {
        Some(HttpMethod::Patch)
    } else {
        None
    }
}

/// Whether a text equals a name.
fn is_name(s: &String, name: &str) -> (r: bool)
    ensures
        r == (s@ == name@),
{
    *s == name.to_string()
}

/// The method whose upper-case name is exactly `upper`.
pub fn method_of_upper(upper: &String) -> (r: Option<HttpMethod>)
    ensures
        r == method_named(upper@),
{
    if is_name(upper, METHOD_OPTIONS) {
        Some(HttpMethod::Options)
    } else if is_name(upper, METHOD_GET) {
        Some(HttpMethod::Get)
    } else if is_name(upper, METHOD_POST) {
        Some(HttpMethod::Post)
    } else if is_name(upper, METHOD_PUT) {
        Some(HttpMethod::Put)
    } else if is_name(upper, METHOD_DELETE) {
        Some(HttpMethod::Delete)
    } else if is_name(upper, METHOD_HEAD) {
        Some(HttpMethod::Head)
    } else if is_name(upper, METHOD_TRACE) {
        Some(HttpMethod::Trace)
    } else if is_name(upper, METHOD_CONNECT) {
        Some(HttpMethod::Connect)
    } else if is_name(upper, METHOD_PATCH) {
        Some(HttpMethod::Patch)
    } else {
        None
    }
}

impl HttpMethod {
    /// The method named by `value`, in any case.
    pub fn from(value: &str) -> (r: Option<Self>)
        ensures
            r == method_named(upper_of(value@)),
    {
        let upper = to_upper(value);
        method_of_upper(&upper)
    }

    /// The method's name, in upper case.
    pub fn as_str(&self) -> (r: &'static str)
        ensures
            r@ == method_name(*self),
    {
        match self {
            HttpMethod::Options => METHOD_OPTIONS,
            HttpMethod::Get => METHOD_GET,
            HttpMethod::Post => METHOD_POST,
            HttpMethod::Put => METHOD_PUT,
            HttpMethod::Delete => METHOD_DELETE,
            HttpMethod::Head => METHOD_HEAD,
            HttpMethod::Trace => METHOD_TRACE,
            HttpMethod::Connect => METHOD_CONNECT,
            HttpMethod::Patch => METHOD_PATCH,
        }
    }

    /// The method's name, in upper case, as an owned text.
    pub fn to_string(&self) -> (r: String)
        ensures
            r@ == method_name(*self),
    {
        self.as_str().to_string()
    }
}

impl Default for HttpMethod {
    fn default() -> (r: Self)
        ensures
            r == HttpMethod::Get,
    {
        HttpMethod::Get
    }
}

} // verus!
