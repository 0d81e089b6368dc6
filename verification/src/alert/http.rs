use vstd::prelude::*;

use std::collections::HashMap;

use crate::helper::http::HttpMethod;

verus! {

/// Configuration of one generic HTTP webhook notification: method, target,
/// hard timeout in whole seconds, an optional body (a literal, or a file path
/// whose contents are sent when `body_is_file` is set), optional headers, and
/// the insecure-TLS opt-in.
#[derive(Debug, Clone)]
pub struct HttpAlert {
    pub method: HttpMethod,
    pub url: String,
    pub timeout: u64,
    pub body: Option<String>,
    pub body_is_file: bool,
    pub headers: Option<HashMap<String, String>>,
    pub is_insecure: bool,
}

impl HttpAlert {
    pub fn new(
        method: HttpMethod,
        url: String,
        timeout: u64,
        body: Option<String>,
        body_is_file: bool,
        headers: Option<HashMap<String, String>>,
        is_insecure: bool,
    ) -> (r: Self)
        ensures
            r.method == method,
            r.url == url,
            r.timeout == timeout,
            r.body == body,
            r.body_is_file == body_is_file,
            r.headers == headers,
            r.is_insecure == is_insecure,
    {
        Self { method, url, timeout, body, body_is_file, headers, is_insecure }
    }

    /// The timeout the delivery call must enforce, in whole seconds. A
    /// configured zero means the built-in default of 10 seconds, never "no
    /// timeout".
    pub fn effective_timeout(&self) -> (r: u64)
        ensures
            r == (if self.timeout == 0 {
                10u64
            } else {
                self.timeout
            }),
            r > 0,
    {
        if self.timeout == 0 {
            10
        } else {
            self.timeout
        }
    }

    /// The body this notification sends, given the contents read from the
    /// configured file when the body names one: the file's contents in that
    /// case, the configured literal otherwise, nothing when no body is set.
    pub fn effective_body(&self, file_contents: Option<String>) -> (r: Option<String>)
        ensures
            r == (match self.body {
                Some(body) => if self.body_is_file {
                    file_contents
                } else {
                    Some(body)
                },
                None => None::<String>,
            }),
    {
        match &self.body {
            Some(body) => {
                if self.body_is_file {
                    file_contents
                } else {
                    Some(body.clone())
                }
            },
            None => None,
        }
    }
}

} // verus!
