//! HTTP targets: `method:url` URNs, and the judgement of a response status.
use crate::ping_error::{PingError, ReplyFault, ResolveError};
use vstd::prelude::*;
use wheel_rs::urn_utils::Urn;

verus! {

/// Request methods an HTTP target may name.
#[derive(Debug, Clone, Copy, PartialEq, Eq, Structural)]
pub enum HttpMethod {
    Get,
    Post,
    Put,
    Delete,
    Options,
    Head,
    Patch,
}

/// The method whose upper-case name is `name`, if any.
pub open spec fn method_named(name: Seq<char>) -> Option<HttpMethod> {
    if name == "GET"@ {
        Some(HttpMethod::Get)
    } else if name == "POST"@ {
        Some(HttpMethod::Post)
    } else if name == "PUT"@ {
        Some(HttpMethod::Put)
    } else if name == "DELETE"@ {
        Some(HttpMethod::Delete)
    } else if name == "OPTIONS"@ {
        Some(HttpMethod::Options)
    } else if name == "HEAD"@ {
        Some(HttpMethod::Head)
    } else if name == "PATCH"@ {
        Some(HttpMethod::Patch)
    } else {
        None
    }
}

impl HttpMethod {
    /// Upper-case name of the method.
    pub open spec fn name_spec(self) -> Seq<char> {
        match self {
            HttpMethod::Get => "GET"@,
            HttpMethod::Post => "POST"@,
            HttpMethod::Put => "PUT"@,
            HttpMethod::Delete => "DELETE"@,
            HttpMethod::Options => "OPTIONS"@,
            HttpMethod::Head => "HEAD"@,
            HttpMethod::Patch => "PATCH"@,
        }
    }

    /// Upper-case name of the method, as sent in a request line.
    pub fn as_str(&self) -> (r: &'static str)
        ensures
            r@ == self.name_spec(),
    {
        match self {
            HttpMethod::Get => "GET",
            HttpMethod::Post => "POST",
            HttpMethod::Put => "PUT",
            HttpMethod::Delete => "DELETE",
            HttpMethod::Options => "OPTIONS",
            HttpMethod::Head => "HEAD",
            HttpMethod::Patch => "PATCH",
        }
    }

    /// The method whose upper-case name is `name`.
    pub fn from_name(name: &String) -> (r: Option<HttpMethod>)
        ensures
            r == method_named(name@),
    {
        if *name == String::from_str("GET") {
            Some(HttpMethod::Get)
        } else if *name == String::from_str("POST") {
            Some(HttpMethod::Post)
        } else if *name == String::from_str("PUT") {
            Some(HttpMethod::Put)
        } else if *name == String::from_str("DELETE") {
            Some(HttpMethod::Delete)
        } else if *name == String::from_str("OPTIONS") {
            Some(HttpMethod::Options)
        } else if *name == String::from_str("HEAD") {
            Some(HttpMethod::Head)
        } else if *name == String::from_str("PATCH") {
            Some(HttpMethod::Patch)
        } else {
            None
        }
    }
}

/// `s` begins with `prefix`.
pub open spec fn starts_with(s: Seq<char>, prefix: Seq<char>) -> bool {
    prefix.len() <= s.len() && s.subrange(0, prefix.len() as int) == prefix
}

/// The text of a method name, if there is one.
pub open spec fn name_view(m: Option<String>) -> Option<Seq<char>> {
    match m {
        Some(name) => Some(name@),
        None => None,
    }
}

/// What the URN parser makes of `urn`: the name of its method, if it has one,
/// and its URL; `None` when it rejects the string.
pub uninterp spec fn urn_parts(urn: Seq<char>) -> Option<(Option<Seq<char>>, Seq<char>)>;

/// Relies on wheel_rs::urn_utils::Urn::from_str to split a `method:url` URN. Its
/// source shows: a string that starts with `http:` or `https:` is kept whole as
/// the URL with the method GET; an accepted URN has a non-empty URL; a method,
/// when present, is printed as one of the seven upper-case names.
#[verifier::external_body]
fn parse_urn(urn: &str) -> (r: Option<(Option<String>, String)>)
    ensures
        r is None <==> urn_parts(urn@) is None,
        r is Some ==> urn_parts(urn@) == Some((name_view((r->0).0), (r->0).1@)),
        r is Some ==> (r->0).1@.len() > 0,
        r is Some && (r->0).0 is Some ==> method_named((r->0).0->0@) is Some,
        starts_with(urn@, "http:"@) || starts_with(urn@, "https:"@) ==> r is Some && name_view(
            (r->0).0,
        ) == Some("GET"@) && (r->0).1@ == urn@,
{
    Urn::from_str(urn).ok().map(|u| (u.method.map(|m| m.to_string()), u.url))
}

/// Method and URL of an HTTP probe.
#[derive(Debug, Clone)]
pub struct HttpTarget {
    pub method: HttpMethod,
    pub url: String,
}

/// Outcome of building an HTTP target from what the URN parser returned.
pub open spec fn target_of_parts(parts: Option<(Option<Seq<char>>, Seq<char>)>) -> Result<
    (HttpMethod, Seq<char>),
    ResolveError,
> {
    match parts {
        None => Err(ResolveError::InvalidUrn),
        Some((None, _)) => Err(ResolveError::MissingMethod),
        Some((Some(name), url)) => match method_named(name) {
            Some(m) => Ok((m, url)),
            None => Err(ResolveError::InvalidUrn),
        },
    }
}

/// A parsed URN as plain text.
pub open spec fn parts_view(parts: Option<(Option<String>, String)>) -> Option<
    (Option<Seq<char>>, Seq<char>),
> {
    match parts {
        Some((m, url)) => Some((name_view(m), url@)),
        None => None,
    }
}

/// Outcome of building an HTTP target from the URN `urn`.
pub open spec fn http_target_of(urn: Seq<char>) -> Result<(HttpMethod, Seq<char>), ResolveError> {
    target_of_parts(urn_parts(urn))
}

impl HttpTarget {
    pub open spec fn view(&self) -> (HttpMethod, Seq<char>) {
        (self.method, self.url@)
    }

    /// Builds the target from a parsed URN: a missing method or one that is not
    /// a known name is rejected, as is a URN the parser refused (`None`).
    pub fn from_parts(parts: Option<(Option<String>, String)>) -> (r: Result<HttpTarget, ResolveError>)
        ensures
            match r {
                Ok(t) => target_of_parts(parts_view(parts)) == Ok::<
                    (HttpMethod, Seq<char>),
                    ResolveError,
                >(t@),
                Err(e) => target_of_parts(parts_view(parts)) == Err::<
                    (HttpMethod, Seq<char>),
                    ResolveError,
                >(e),
            },
    {
        match parts {
            None => Err(ResolveError::InvalidUrn),
            Some((None, _)) => Err(ResolveError::MissingMethod),
            Some((Some(name), url)) => match HttpMethod::from_name(&name) {
                Some(method) => Ok(HttpTarget { method, url }),
                None => Err(ResolveError::InvalidUrn),
            },
        }
    }

    /// Parses a `method:url` URN. A target that starts with `http:` or `https:`
    /// is a GET of the whole string.
    pub fn parse(urn: &str) -> (r: Result<HttpTarget, ResolveError>)
        ensures
            match r {
                Ok(t) => http_target_of(urn@) == Ok::<(HttpMethod, Seq<char>), ResolveError>(t@),
                Err(e) => http_target_of(urn@) == Err::<(HttpMethod, Seq<char>), ResolveError>(e),
            },
            starts_with(urn@, "http:"@) || starts_with(urn@, "https:"@) ==> (r matches Ok(t)
                && t.method == HttpMethod::Get && t.url@ == urn@),
    {
        let parts = parse_urn(urn);
        proof {
            reveal_strlit("GET");
        }
        HttpTarget::from_parts(parts)
    }
}

/// Judges an HTTP response status: success for 2xx, else an invalid reply
/// carrying the status code.
pub fn status_outcome(status: u16) -> (r: Result<(), PingError>)
    ensures
        200 <= status <= 299 ==> r is Ok,
        !(200 <= status <= 299) ==> r == Err::<(), PingError>(
            PingError::InvalidReply(ReplyFault::Status(status)),
        ),
{
    if 200 <= status && status <= 299 {
        Ok(())
    } else {
        Err(PingError::InvalidReply(ReplyFault::Status(status)))
    }
}

} // verus!
