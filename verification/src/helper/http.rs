use vstd::prelude::*;

verus! {

/// The HTTP request method a notification call uses.
#[allow(non_camel_case_types)]
#[derive(Clone, Copy, Debug, PartialEq, Eq, Structural)]
pub enum HttpMethod {
    GET,
    POST,
    PUT,
    DELETE,
    PATCH,
}

/// What `str::to_lowercase` returns for a string: a function of its
/// characters alone.
pub uninterp spec fn lower_of(s: Seq<char>) -> Seq<char>;

/// Relies on `str::to_lowercase`: the lowercase form of the string, depending
/// on its characters alone.
#[verifier::external_body]
fn to_lowercase(s: &str) -> (r: String)
    ensures
        r@ == lower_of(s@),
{
    s.to_lowercase()
}

impl HttpMethod {
    /// The method's name on the wire.
    pub open spec fn spec_str(self) -> Seq<char> {
        match self {
            HttpMethod::GET => "GET"@,
            HttpMethod::POST => "POST"@,
            HttpMethod::PUT => "PUT"@,
            HttpMethod::DELETE => "DELETE"@,
            HttpMethod::PATCH => "PATCH"@,
        }
    }

    pub fn as_str(&self) -> (r: &str)
        ensures
            r@ == self.spec_str(),
    {
        match self {
            HttpMethod::GET => "GET",
            HttpMethod::POST => "POST",
            HttpMethod::PUT => "PUT",
            HttpMethod::DELETE => "DELETE",
            HttpMethod::PATCH => "PATCH",
        }
    }

    /// The method a configuration string names, compared without regard to
    /// case; anything unrecognized falls back to GET.
    pub open spec fn spec_from_str(s: Seq<char>) -> HttpMethod {
        let low = lower_of(s);
        if low == "get"@ {
            HttpMethod::GET
        } else if low == "post"@ {
            HttpMethod::POST
        } else if low == "put"@ {
            HttpMethod::PUT
        } else if low == "delete"@ {
            HttpMethod::DELETE
        } else if low == "patch"@ {
            HttpMethod::PATCH
        } else {
            HttpMethod::GET
        }
    }

    pub fn from_str(method: &str) -> (r: HttpMethod)
        ensures
            r == HttpMethod::spec_from_str(method@),
    {
        let low = to_lowercase(method);
        if low == "get".to_owned() {
            HttpMethod::GET
        } else if low == "post".to_owned() {
            HttpMethod::POST
        } else if low == "put".to_owned() {
            HttpMethod::PUT
        } else if low == "delete".to_owned() {
            HttpMethod::DELETE
        } else if low == "patch".to_owned() {
            HttpMethod::PATCH
        } else {
            HttpMethod::GET
        }
    }
}

} // verus!
