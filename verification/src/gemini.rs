//! Gemini client, the fallback of the synthesis tier: its message types,
//! and what is made of the endpoint's answer. The request itself is sent by
//! the application.

use vstd::prelude::*;
use crate::config::GeminiConfig;
use crate::http::{build_http_client, http_error_text};
use crate::text::{decimal, push_decimal};

verus! {

#[derive(Debug, Clone)]
pub enum GeminiError {
    HttpError(String),
    ApiError(String),
    ParseError(String),
}

/// The text of a Gemini error, as it is shown to the user.
pub open spec fn gemini_error_text(e: GeminiError) -> Seq<char> {
    match e {
        GeminiError::HttpError(m) => "HTTP error: "@ + m@,
        GeminiError::ApiError(m) => "API error: "@ + m@,
        GeminiError::ParseError(m) => "Parse error: "@ + m@,
    }
}

impl GeminiError {
    /// The text of this error, as it is shown to the user.
    pub fn message(&self) -> (r: String)
        ensures
            r@ == gemini_error_text(*self),
    {
        let (head, m) = match self {
            GeminiError::HttpError(m) => ("HTTP error: ", m),
            GeminiError::ApiError(m) => ("API error: ", m),
            GeminiError::ParseError(m) => ("Parse error: ", m),
        };
        let mut s = String::from_str(head);
        s.append(m.as_str());
        s
    }
}

/// A turn of a Gemini conversation.
#[derive(Debug, Clone)]
pub struct Content {
    pub role: String,
    pub parts: Vec<Part>,
}

#[derive(Debug, Clone)]
pub struct Part {
    pub text: String,
}

/// A generation as the endpoint returns it.
#[derive(Debug, Clone)]
pub struct GeminiResponse {
    pub candidates: Vec<Candidate>,
    pub usage_metadata: Option<UsageMetadata>,
}

#[derive(Debug, Clone)]
pub struct Candidate {
    pub content: Content,
    pub finish_reason: String,
}

#[derive(Debug, Clone, Copy)]
pub struct UsageMetadata {
    pub prompt_tokens: u32,
    pub completion_tokens: u32,
    pub total_tokens: u32,
}

/// The text of a generation: the first part of the first candidate, or
/// the empty text where there is none.
pub open spec fn generation_text(r: GeminiResponse) -> Seq<char> {
    if r.candidates@.len() > 0 && r.candidates@[0].content.parts@.len() > 0 {
        r.candidates@[0].content.parts@[0].text@
    } else {
        Seq::empty()
    }
}

/// The tokens a generation used: its total, or 0 where it reports no usage.
pub open spec fn generation_tokens(r: GeminiResponse) -> u32 {
    match r.usage_metadata {
        Some(u) => u.total_tokens,
        None => 0,
    }
}

/// The text and the token count of a generation.
pub fn generation_output(response: &GeminiResponse) -> (r: (String, u32))
    ensures
        r.0@ == generation_text(*response),
        r.1 == generation_tokens(*response),
{
    let text = if response.candidates.len() > 0 && response.candidates[0].content.parts.len() > 0 {
        response.candidates[0].content.parts[0].text.clone()
    } else {
        String::new()
    };
    let tokens = match &response.usage_metadata {
        Some(u) => u.total_tokens,
        None => 0,
    };
    (text, tokens)
}

/// The body of a generation, or the API error (with the status and the
/// body) where the status is not 200.
pub fn generation_body(status: u16, body: String) -> (r: Result<String, GeminiError>)
    ensures
        status == 200 ==> r == Ok::<String, GeminiError>(body),
        status != 200 ==> (r matches Err(GeminiError::ApiError(m)) && m@ == "status="@ + decimal(
            status as nat,
        ) + ": "@ + body@),
{
    if status != 200 {
        let mut m = String::from_str("status=");
        push_decimal(&mut m, status as u64);
        m.append(": ");
        m.append(body.as_str());
        return Err(GeminiError::ApiError(m));
    }
    Ok(body)
}

/// The single user turn that carries `prompt`.
pub fn user_turn(prompt: String) -> (c: Content)
    ensures
        c.role@ == "user"@,
        c.parts@.len() == 1,
        c.parts@[0].text == prompt,
{
    let mut parts: Vec<Part> = Vec::new();
    parts.push(Part { text: prompt });
    Content { role: String::from_str("user"), parts }
}

/// A Gemini client: its configuration and its HTTP client.
pub struct GeminiClient {
    config: GeminiConfig,
    http_client: reqwest::Client,
}

impl GeminiClient {
    pub closed spec fn spec_config(&self) -> GeminiConfig {
        self.config
    }

    /// A client for `config`, whose requests time out after the
    /// configuration's `timeout_secs`. Building the HTTP client can fail
    /// (on the environment, not on `config`); that failure is reported as an
    /// HTTP error.
    pub fn new(config: GeminiConfig) -> (r: Result<Self, GeminiError>)
        ensures
            r matches Ok(c) ==> c.spec_config() == config,
            r matches Err(e) ==> e is HttpError,
    {
        match build_http_client(config.timeout_secs) {
            Ok(http_client) => Ok(GeminiClient { config, http_client }),
            Err(e) => Err(GeminiError::HttpError(http_error_text(&e))),
        }
    }

    pub fn config(&self) -> (c: &GeminiConfig)
        ensures
            *c == self.spec_config(),
    {
        &self.config
    }

    /// The HTTP client this client holds: the one built, with the
    /// configuration's timeout, when this client was made.
    pub closed spec fn spec_http_client(&self) -> reqwest::Client {
        self.http_client
    }

    /// The HTTP client requests are sent with: the one this client holds.
    pub fn http_client(&self) -> (r: &reqwest::Client)
        ensures
            *r == self.spec_http_client(),
    {
        &self.http_client
    }

    /// The output-token limit sent with a request: the caller's, or else
    /// the configuration's.
    pub fn request_max_tokens(&self, max_tokens: Option<u32>) -> (r: u32)
        ensures
            r == (match max_tokens {
                Some(t) => t,
                None => self.spec_config().max_output_tokens,
            }),
    {
        match max_tokens {
            Some(t) => t,
            None => self.config.max_output_tokens,
        }
    }

    /// The URL a request is posted to: the configured endpoint with the key.
    pub fn request_url(&self, api_key: &str) -> (r: String)
        ensures
            r@ == self.spec_config().base_url@ + "/?key="@ + api_key@,
    {
        let mut s = self.config.base_url.clone();
        s.append("/?key=");
        s.append(api_key);
        s
    }
}

} // verus!
