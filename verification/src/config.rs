//! Provider configurations of the synthesis (T3) and deep-reasoning (T4)
//! tiers. The sampling temperature of each configuration is a float and is
//! kept beside these settings by the application.

use vstd::prelude::*;

verus! {

/// Settings of a MiniMax chat endpoint.
#[derive(Debug, Clone)]
pub struct MiniMaxConfig {
    pub model: String,
    pub base_url: String,
    pub max_tokens: u32,
    pub timeout_secs: u64,
    pub api_key_env: String,
}

/// Settings of the Gemini endpoint used as the synthesis fallback.
#[derive(Debug, Clone)]
pub struct GeminiConfig {
    pub model: String,
    pub base_url: String,
    pub max_output_tokens: u32,
    pub timeout_secs: u64,
    pub api_key_env: String,
}

/// The MiniMax model of both tiers.
pub open spec fn minimax_model() -> Seq<char> {
    "MiniMax-M2.7-highspeed"@
}

/// The MiniMax chat-completion endpoint.
pub open spec fn minimax_url() -> Seq<char> {
    "https://api.minimax.chat/v1/text/chatcompletion_v2"@
}

impl MiniMaxConfig {
    /// Deep reasoning: long answers, long timeout.
    pub fn t4_default() -> (c: Self)
        ensures
            c.model@ == minimax_model(),
            c.base_url@ == minimax_url(),
            c.max_tokens == 8192,
            c.timeout_secs == 120,
            c.api_key_env@ == "MINIMAX_API_KEY"@,
    {
        MiniMaxConfig {
            model: String::from_str("MiniMax-M2.7-highspeed"),
            base_url: String::from_str("https://api.minimax.chat/v1/text/chatcompletion_v2"),
            max_tokens: 8192,
            timeout_secs: 120,
            api_key_env: String::from_str("MINIMAX_API_KEY"),
        }
    }

    /// Synthesis: shorter answers, shorter timeout.
    pub fn t3_default() -> (c: Self)
        ensures
            c.model@ == minimax_model(),
            c.base_url@ == minimax_url(),
            c.max_tokens == 2048,
            c.timeout_secs == 60,
            c.api_key_env@ == "MINIMAX_API_KEY"@,
    {
        MiniMaxConfig {
            model: String::from_str("MiniMax-M2.7-highspeed"),
            base_url: String::from_str("https://api.minimax.chat/v1/text/chatcompletion_v2"),
            max_tokens: 2048,
            timeout_secs: 60,
            api_key_env: String::from_str("MINIMAX_API_KEY"),
        }
    }
}

impl GeminiConfig {
    /// The synthesis fallback.
    pub fn t3_fallback() -> (c: Self)
        ensures
            c.model@ == "gemini-2.0-flash"@,
            c.base_url@
                == "https://generativelanguage.googleapis.com/v1beta/models/gemini-2.0-flash:generateContent"@,
            c.max_output_tokens == 2048,
            c.timeout_secs == 60,
            c.api_key_env@ == "GEMINI_API_KEY"@,
    {
        GeminiConfig {
            model: String::from_str("gemini-2.0-flash"),
            base_url: String::from_str(
                "https://generativelanguage.googleapis.com/v1beta/models/gemini-2.0-flash:generateContent",
            ),
            max_output_tokens: 2048,
            timeout_secs: 60,
            api_key_env: String::from_str("GEMINI_API_KEY"),
        }
    }
}

pub fn t4_minimax_config() -> (c: MiniMaxConfig)
    ensures
        c.model@ == minimax_model(),
        c.base_url@ == minimax_url(),
        c.max_tokens == 8192,
        c.timeout_secs == 120,
        c.api_key_env@ == "MINIMAX_API_KEY"@,
{
    MiniMaxConfig::t4_default()
}

pub fn t3_minimax_config() -> (c: MiniMaxConfig)
    ensures
        c.model@ == minimax_model(),
        c.base_url@ == minimax_url(),
        c.max_tokens == 2048,
        c.timeout_secs == 60,
        c.api_key_env@ == "MINIMAX_API_KEY"@,
{
    MiniMaxConfig::t3_default()
}

pub fn t3_gemini_config() -> (c: GeminiConfig)
    ensures
        c.model@ == "gemini-2.0-flash"@,
        c.max_output_tokens == 2048,
        c.timeout_secs == 60,
        c.api_key_env@ == "GEMINI_API_KEY"@,
{
    GeminiConfig::t3_fallback()
}

} // verus!
