//! MiniMax chat client: the message and response types, the token
//! estimate that a reservation is taken for, and what is made of the
//! endpoint's answer. The request itself is sent by the application.

use vstd::prelude::*;
use crate::config::{MiniMaxConfig, t4_minimax_config};
use crate::http::{build_http_client, http_error_text};
use crate::text::{decimal, push_decimal};

verus! {

/// One chat message.
#[derive(Debug, Clone)]
pub struct Message {
    pub role: String,
    pub content: String,
}

/// A chat completion as the endpoint returns it.
#[derive(Debug, Clone)]
pub struct MiniMaxResponse {
    pub id: String,
    pub choices: Vec<Choice>,
    pub usage: Usage,
}

#[derive(Debug, Clone)]
pub struct Choice {
    pub finish_reason: String,
    pub message: Message,
}

#[derive(Debug, Clone, Copy)]
pub struct Usage {
    pub prompt_tokens: u32,
    pub completion_tokens: u32,
    pub total_tokens: u32,
}

#[derive(Debug, Clone)]
pub enum MiniMaxError {
    HttpError(String),
    ApiError { code: u16, message: String },
    ParseError(String),
    BudgetExhausted,
}

/// The text of a MiniMax error, as it is shown to the user.
pub open spec fn minimax_error_text(e: MiniMaxError) -> Seq<char> {
    match e {
        MiniMaxError::HttpError(m) => "HTTP error: "@ + m@,
        MiniMaxError::ApiError { code, message } => "API error: "@ + decimal(code as nat)
            + " \u{2014} "@ + message@,
        MiniMaxError::ParseError(m) => "Parse error: "@ + m@,
        MiniMaxError::BudgetExhausted => "Budget exhausted"@,
    }
}

impl MiniMaxError {
    /// The text of this error, as it is shown to the user.
    pub fn message(&self) -> (r: String)
        ensures
            r@ == minimax_error_text(*self),
    {
        match self {
            MiniMaxError::HttpError(m) => {
                let mut s = String::from_str("HTTP error: ");
                s.append(m.as_str());
                s
            },
            MiniMaxError::ApiError { code, message } => {
                let mut s = String::from_str("API error: ");
                push_decimal(&mut s, *code as u64);
                s.append(" \u{2014} ");
                s.append(message.as_str());
                s
            },
            MiniMaxError::ParseError(m) => {
                let mut s = String::from_str("Parse error: ");
                s.append(m.as_str());
                s
            },
            MiniMaxError::BudgetExhausted => String::from_str("Budget exhausted"),
        }
    }
}

impl Message {
    /// A message with the given role and content.
    pub fn new(role: &str, content: &str) -> (m: Message)
        ensures
            m.role@ == role@,
            m.content@ == content@,
    {
        Message { role: String::from_str(role), content: String::from_str(content) }
    }
}

/// The byte length of the UTF-8 encoding of `s`.
pub open spec fn utf8_len(s: Seq<char>) -> nat {
    vstd::utf8::encode_utf8(s).len()
}

/// The token estimate of one message: a quarter of its content's byte
/// length, that length (a `usize`) taken as a `u32`.
pub open spec fn message_estimate(m: Message) -> u32 {
    (((utf8_len(m.content@) as usize) as u32) / 4) as u32
}

/// The token estimate of a conversation: the sum of its messages' estimates.
pub open spec fn conversation_estimate(msgs: Seq<Message>) -> int
    decreases msgs.len(),
{
    if msgs.len() == 0 {
        0
    } else {
        conversation_estimate(msgs.drop_last()) + message_estimate(msgs.last())
    }
}

/// The `max_tokens` sent with a chat request: the caller's, or else the
/// configuration's.
pub open spec fn request_max_tokens_of(max_tokens: Option<u32>, config: MiniMaxConfig) -> u32 {
    match max_tokens {
        Some(t) => t,
        None => config.max_tokens,
    }
}

/// The text of the first choice of a completion, or the empty text where
/// there is none.
pub open spec fn first_choice_text_of(choices: Seq<Choice>) -> Seq<char> {
    if choices.len() > 0 {
        choices[0].message.content@
    } else {
        Seq::empty()
    }
}

/// A MiniMax client: its configuration and its HTTP client.
pub struct MiniMaxClient {
    config: MiniMaxConfig,
    http_client: reqwest::Client,
}

impl MiniMaxClient {
    /// The configuration this client sends its requests with.
    pub closed spec fn spec_config(&self) -> MiniMaxConfig {
        self.config
    }

    /// A client for `config`, whose requests time out after the
    /// configuration's `timeout_secs`. Building the HTTP client can fail
    /// (on the environment, not on `config`); that failure is reported as an
    /// HTTP error.
    pub fn new(config: MiniMaxConfig) -> (r: Result<Self, MiniMaxError>)
        ensures
            r matches Ok(c) ==> c.spec_config() == config,
            r matches Err(e) ==> e is HttpError,
    {
        match build_http_client(config.timeout_secs) {
            Ok(http_client) => Ok(MiniMaxClient { config, http_client }),
            Err(e) => Err(MiniMaxError::HttpError(http_error_text(&e))),
        }
    }

    /// A client for the deep-reasoning configuration.
    pub fn with_default() -> (r: Result<Self, MiniMaxError>)
        ensures
            r matches Ok(c) ==> {
                &&& c.spec_config().model@ == crate::config::minimax_model()
                &&& c.spec_config().max_tokens == 8192
                &&& c.spec_config().timeout_secs == 120
            },
            r matches Err(e) ==> e is HttpError,
    {
        Self::new(t4_minimax_config())
    }

    pub fn config(&self) -> (c: &MiniMaxConfig)
        ensures
            *c == self.spec_config(),
    {
        &self.config
    }

    /// The HTTP client this client holds: the one built, with the
    /// configuration's timeout, when this client was made.
    pub closed spec fn spec_http_client(&self) -> reqwest::Client {
        self.http_client
    }

    /// The HTTP client requests are sent with: the one this client holds.
    pub fn http_client(&self) -> (r: &reqwest::Client)
        ensures
            *r == self.spec_http_client(),
    {
        &self.http_client
    }

    /// Rough estimate of the tokens of a conversation: about four bytes per
    /// token, summed over the messages' contents.
    pub fn estimate_tokens(&self, messages: &[Message]) -> (r: u32)
        requires
            conversation_estimate(messages@) <= u32::MAX,
        ensures
            r == conversation_estimate(messages@),
    {
        estimate_conversation(messages)
    }

    /// The `max_tokens` sent with a chat request.
    pub fn request_max_tokens(&self, max_tokens: Option<u32>) -> (r: u32)
        ensures
            r == request_max_tokens_of(max_tokens, self.spec_config()),
    {
        match max_tokens {
            Some(t) => t,
            None => self.config.max_tokens,
        }
    }
}

proof fn lemma_estimate_monotone(msgs: Seq<Message>, i: int)
    requires
        0 <= i <= msgs.len(),
    ensures
        conversation_estimate(msgs.take(i)) <= conversation_estimate(msgs),
        0 <= conversation_estimate(msgs.take(i)),
    decreases msgs.len(),
{
    if msgs.len() == 0 {
        assert(msgs.take(i) =~= msgs);
    } else if i == msgs.len() {
        assert(msgs.take(i) =~= msgs);
        lemma_estimate_monotone(msgs.drop_last(), i - 1);
        assert(msgs.drop_last().take(i - 1) =~= msgs.drop_last().take(i - 1));
    } else {
        lemma_estimate_monotone(msgs.drop_last(), i);
        assert(msgs.drop_last().take(i) =~= msgs.take(i));
    }
}

/// The token estimate of a conversation, as the client computes it.
pub fn estimate_conversation(messages: &[Message]) -> (r: u32)
    requires
        conversation_estimate(messages@) <= u32::MAX,
    ensures
        r == conversation_estimate(messages@),
{
    let mut total: u32 = 0;
    let mut i: usize = 0;
    while i < messages.len()
        invariant
            i <= messages@.len(),
            total == conversation_estimate(messages@.take(i as int)),
            conversation_estimate(messages@) <= u32::MAX,
        decreases messages@.len() - i,
    {
        proof {
            lemma_estimate_monotone(messages@, i + 1);
            assert(messages@.take(i + 1).drop_last() =~= messages@.take(i as int));
        }
        let len: usize = messages[i].content.as_str().len();
        let part: u32 = (#[verifier::truncate] (len as u32)) / 4;
        assert(part == message_estimate(messages@[i as int]));
        total = total + part;
        i = i + 1;
    }
    proof {
        assert(messages@.take(i as int) =~= messages@);
    }
    total
}

/// The body of a completion, or the API error where the status is not 200.
pub fn api_response_body(status: u16, body: String) -> (r: Result<String, MiniMaxError>)
    ensures
        status == 200 ==> r == Ok::<String, MiniMaxError>(body),
        status != 200 ==> (r matches Err(MiniMaxError::ApiError { code, message }) && code
            == status && message@ == body@),
{
    if status != 200 {
        return Err(MiniMaxError::ApiError { code: status, message: body.clone() });
    }
    Ok(body)
}

/// The text of the first choice, or the empty text.
pub fn first_choice_text(choices: &Vec<Choice>) -> (r: String)
    ensures
        r@ == first_choice_text_of(choices@),
{
    if choices.len() > 0 {
        choices[0].message.content.clone()
    } else {
        String::new()
    }
}

/// The `Authorization` header value for `api_key`.
pub fn bearer_header(api_key: &str) -> (r: String)
    ensures
        r@ == "Bearer "@ + api_key@,
{
    let mut s = String::from_str("Bearer ");
    s.append(api_key);
    s
}

} // verus!
