use vstd::prelude::*;

use std::collections::HashMap;

use crate::check::model::{ProbeFailReason, ProbeOutcome};

verus! {

/// The HTTP request method a probe uses.
#[allow(non_camel_case_types)]
#[derive(Clone, Copy, Debug, PartialEq, Eq, Structural)]
pub enum HttpMethod {
    GET,
    POST,
    PUT,
    DELETE,
    PATCH,
}

impl HttpMethod {
    /// The method's name on the wire.
    pub open spec fn spec_str(self) -> Seq<char> {
        match self {
            HttpMethod::GET => "GET"@,
            HttpMethod::POST => "POST"@,
            HttpMethod::PUT => "PUT"@,
            HttpMethod::DELETE => "DELETE"@,
            HttpMethod::PATCH => "PATCH"@,
        }
    }

    pub fn as_str(&self) -> (r: &str)
        ensures
            r@ == self.spec_str(),
    {
        match self {
            HttpMethod::GET => "GET",
            HttpMethod::POST => "POST",
            HttpMethod::PUT => "PUT",
            HttpMethod::DELETE => "DELETE",
            HttpMethod::PATCH => "PATCH",
        }
    }
}

/// Configuration of one HTTP-like probe: where to call, how, with which hard
/// timeout (whole seconds), and which response status codes count as success.
/// `is_insecure` is an explicit opt-in that accepts otherwise-invalid
/// certificates and hostnames, never a silent default.
#[derive(Clone, Debug)]
pub struct HttpCheck {
    pub method: HttpMethod,
    pub is_insecure: bool,
    pub url: String,
    pub timeout: u64,
    pub headers: Option<HashMap<String, String>>,
    pub accept_codes: Vec<u16>,
}

impl HttpCheck {
    pub fn set_http_settings(
        &mut self,
        method: HttpMethod,
        url: String,
        timeout: u64,
        headers: Option<HashMap<String, String>>,
    )
        ensures
            final(self).method == method,
            final(self).url == url,
            final(self).timeout == timeout,
            final(self).headers == headers,
            final(self).is_insecure == old(self).is_insecure,
            final(self).accept_codes == old(self).accept_codes,
    {
        self.method = method;
        self.url = url;
        self.timeout = timeout;
        self.headers = headers;
    }

    /// The timeout the probe call must enforce, in whole seconds. A
    /// configured zero means the built-in default of 10 seconds, never "no
    /// timeout".
    pub fn effective_timeout(&self) -> (r: u64)
        ensures
            r == (if self.timeout == 0 {
                10u64
            } else {
                self.timeout
            }),
            r > 0,
    {
        if self.timeout == 0 {
            10
        } else {
            self.timeout
        }
    }

    pub fn method_as_str(&self) -> (r: &str)
        ensures
            r@ == self.method.spec_str(),
    {
        self.method.as_str()
    }

    /// Whether a response status code counts as success for this probe.
    pub fn status_matches(&self, status_code: u16) -> (r: bool)
        ensures
            r == self.accept_codes@.contains(status_code),
    {
        let mut i: usize = 0;
        while i < self.accept_codes.len()
            invariant
                0 <= i <= self.accept_codes@.len(),
                forall|k: int| 0 <= k < i ==> self.accept_codes@[k] != status_code,
            decreases self.accept_codes@.len() - i,
        {
            if self.accept_codes[i] == status_code {
                return true;
            }
            i = i + 1;
        }
        false
    }

    /// Classify a completed probe call from the response status it observed:
    /// an accepted status is a success, any other is a failure with a
    /// distinguishable "bad status" reason carrying the observed code.
    pub fn classify_response(&self, status_code: u16) -> (r: ProbeOutcome)
        ensures
            r == (if self.accept_codes@.contains(status_code) {
                ProbeOutcome::Success
            } else {
                ProbeOutcome::Failure(ProbeFailReason::BadStatus(status_code))
            }),
    {
        if self.status_matches(status_code) {
            ProbeOutcome::Success
        } else {
            ProbeOutcome::Failure(ProbeFailReason::BadStatus(status_code))
        }
    }
}

} // verus!
