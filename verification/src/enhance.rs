use crate::text::str_eq;
use vstd::prelude::*;
use vstd::string::StringExecFns;

verus! {

// Note enhancement routes a request to a text-generation provider and
// wraps the note in a mode-specific instruction prompt. The HTTP glue
// lives outside this crate; the prompt and the routing decision are
// verified.

/// A note-enhancement request: the note text, the enhancement mode, the
/// provider to route to, and the provider's credentials and model choice.
pub struct EnhanceRequest {
    pub content: String,
    pub mode: String,
    pub provider: String,
    pub api_key: Option<String>,
    pub model: Option<String>,
}

/// The enhanced text handed back to the caller.
pub struct EnhanceResponse {
    pub result: String,
}

/// Which backend a request is routed to.
#[derive(Clone, Copy, Debug, PartialEq, Eq, Structural)]
pub enum ProviderRoute {
    /// The local inference server.
    Local,
    /// The OpenAI API, with the caller's key.
    OpenAi,
    /// The Anthropic API, with the caller's key.
    Anthropic,
}

/// Why a request cannot be routed.
#[derive(Clone, Copy, Debug, PartialEq, Eq, Structural)]
pub enum RouteError {
    /// A cloud provider was named without an API key.
    MissingApiKey,
    /// The provider string names no known backend.
    UnknownProvider,
}

/// The instruction prefix for each enhancement mode; an unknown mode gets
/// the generic instruction.
pub open spec fn prompt_prefix(mode: Seq<char>) -> Seq<char> {
    if mode == "polish"@ {
        "You are a meeting notes editor. Polish the following raw notes: fix grammar, add structure with headers, keep the author's voice. Output only the improved notes in Markdown.\n\n"@
    } else if mode == "summarize"@ {
        "Summarize the following meeting notes in 3-5 concise bullet points. Output only the bullets in Markdown.\n\n"@
    } else if mode == "action_items"@ {
        "Extract all action items from the following meeting notes. For each, note the owner if mentioned and any deadline. Output as a Markdown checklist.\n\n"@
    } else if mode == "decisions"@ {
        "Extract all decisions made in the following meeting notes. Output as a Markdown list.\n\n"@
    } else {
        "Process the following meeting notes:\n\n"@
    }
}

/// The full prompt: the mode's instruction prefix followed by the note.
pub open spec fn prompt_spec(content: Seq<char>, mode: Seq<char>) -> Seq<char> {
    prompt_prefix(mode) + content
}

/// Wrap a note in the instruction prompt for the given mode.
pub fn build_prompt(content: &str, mode: &str) -> (r: String)
    ensures
        r@ == prompt_spec(content@, mode@),
{
    let mut out: String = if str_eq(mode, "polish") {
        String::from_str(
            "You are a meeting notes editor. Polish the following raw notes: fix grammar, add structure with headers, keep the author's voice. Output only the improved notes in Markdown.\n\n",
        )
    } else if str_eq(mode, "summarize") {
        String::from_str(
            "Summarize the following meeting notes in 3-5 concise bullet points. Output only the bullets in Markdown.\n\n",
        )
    } else if str_eq(mode, "action_items") {
        String::from_str(
            "Extract all action items from the following meeting notes. For each, note the owner if mentioned and any deadline. Output as a Markdown checklist.\n\n",
        )
    } else if str_eq(mode, "decisions") {
        String::from_str(
            "Extract all decisions made in the following meeting notes. Output as a Markdown list.\n\n",
        )
    } else {
        String::from_str("Process the following meeting notes:\n\n")
    };
    out.append(content);
    out
}

/// Where a request goes: `local` needs no key; the cloud providers demand
/// one; anything else is unknown.
pub open spec fn route_spec(provider: Seq<char>, has_key: bool) -> Result<
    ProviderRoute,
    RouteError,
> {
    if provider == "local"@ {
        Ok(ProviderRoute::Local)
    } else if provider == "openai"@ {
        if has_key {
            Ok(ProviderRoute::OpenAi)
        } else {
            Err(RouteError::MissingApiKey)
        }
    } else if provider == "anthropic"@ {
        if has_key {
            Ok(ProviderRoute::Anthropic)
        } else {
            Err(RouteError::MissingApiKey)
        }
    } else {
        Err(RouteError::UnknownProvider)
    }
}

/// Decide how a request is routed, exactly as `route_spec` says.
pub fn route_enhancement(provider: &str, has_api_key: bool) -> (r: Result<
    ProviderRoute,
    RouteError,
>)
    ensures
        r == route_spec(provider@, has_api_key),
{
    if str_eq(provider, "local") {
        Ok(ProviderRoute::Local)
    } else if str_eq(provider, "openai") {
        if has_api_key {
            Ok(ProviderRoute::OpenAi)
        } else {
            Err(RouteError::MissingApiKey)
        }
    } else if str_eq(provider, "anthropic") {
        if has_api_key {
            Ok(ProviderRoute::Anthropic)
        } else {
            Err(RouteError::MissingApiKey)
        }
    } else {
        Err(RouteError::UnknownProvider)
    }
}

} // verus!
