use vstd::prelude::*;

verus! {

/// The one-member body a webhook-chat notification sends when no raw payload
/// is configured.
#[derive(Debug, Clone)]
pub struct DiscordWebHookBody {
    pub content: String,
}

/// Configuration of one webhook-chat notification: the webhook to call, a
/// hard timeout in whole seconds, the insecure-TLS opt-in, a basic templated
/// message, and an optional raw payload that is sent verbatim instead.
#[derive(Debug, Clone)]
pub struct DiscordAlert {
    pub webhook_url: String,
    pub timeout: u32,
    pub is_insecure: bool,
    pub content_basic: String,
    pub content_raw: Option<String>,
}

/// What serde_json's encoding of an object with one `content` string member
/// returns: a function of the content's characters alone.
pub uninterp spec fn json_content_payload(content: Seq<char>) -> Seq<char>;

/// Relies on serde_json's `Value` serialization: the JSON text of an object
/// whose single `content` member holds the given string.
#[verifier::external_body]
fn encode_content_payload(content: &String) -> (r: String)
    ensures
        r@ == json_content_payload(content@),
{
    let mut body = serde_json::Map::new();
    body.insert(String::from("content"), serde_json::Value::String(content.clone()));
    serde_json::Value::Object(body).to_string()
}

impl DiscordAlert {
    pub fn new(
        webhook_url: String,
        timeout: u32,
        is_insecure: bool,
        content_basic: String,
        content_raw: Option<String>,
    ) -> (r: Self)
        ensures
            r.webhook_url == webhook_url,
            r.timeout == timeout,
            r.is_insecure == is_insecure,
            r.content_basic == content_basic,
            r.content_raw == content_raw,
    {
        Self { webhook_url, timeout, is_insecure, content_basic, content_raw }
    }

    /// The timeout the delivery call must enforce, in whole seconds. A
    /// configured zero means the built-in default of 10 seconds, never "no
    /// timeout".
    pub fn effective_timeout(&self) -> (r: u32)
        ensures
            r == (if self.timeout == 0 {
                10u32
            } else {
                self.timeout
            }),
            r > 0,
    {
        if self.timeout == 0 {
            10
        } else {
            self.timeout
        }
    }

    /// The body this notification sends: a configured raw payload verbatim,
    /// otherwise the basic message wrapped as a one-member JSON object.
    pub open spec fn spec_payload(self) -> Seq<char> {
        match self.content_raw {
            Some(raw) => raw@,
            None => json_content_payload(self.content_basic@),
        }
    }

    pub fn payload(&self) -> (r: String)
        ensures
            r@ == self.spec_payload(),
    {
        match &self.content_raw {
            Some(raw) => raw.clone(),
            None => encode_content_payload(&self.content_basic),
        }
    }
}

} // verus!
