//! Provider configuration: which vision API to call, with which key and model.

use vstd::prelude::*;
use crate::text::{push_str, push_chars, to_chars, from_chars, slice_of, trim_end_matches,
    trim_end_matches_chars};
use crate::keys::{clean_key, sanitize_key};

verus! {

/// Default Groq model.
pub const GROQ_MODEL_DEFAULT: &'static str = "meta-llama/llama-4-scout-17b-16e-instruct";

/// Default Groq chat-completions endpoint.
pub const GROQ_URL_DEFAULT: &'static str = "https://api.groq.com/openai/v1/chat/completions";

/// Default OpenRouter model.
pub const OPENROUTER_MODEL_DEFAULT: &'static str = "meta-llama/llama-4-maverick:free";

/// Default OpenRouter chat-completions endpoint.
pub const OPENROUTER_URL_DEFAULT: &'static str = "https://openrouter.ai/api/v1/chat/completions";

/// Example self-hosted UI-TARS model name.
pub const UITARS_MODEL_EXAMPLE: &'static str = "bytedance-research/UI-TARS-7B-SFT";

/// Example self-hosted endpoint.
pub const UITARS_URL_EXAMPLE: &'static str = "http://localhost:8000/v1/chat/completions";

/// The persisted settings. `provider`: 0 = Groq, 1 = OpenRouter,
/// 2 = local / self-hosted; any other value is treated as Groq.
#[derive(Clone, Debug)]
pub struct PointerConfig {
    pub provider: u8,
    pub groq_api_key: String,
    pub groq_model: String,
    pub groq_url: String,
    pub openrouter_api_key: String,
    pub openrouter_model: String,
    pub openrouter_url: String,
    pub local_base_url: String,
    pub local_api_key: String,
    pub local_model: String,
}

/// The environment variables a fresh configuration starts from; `None` where
/// a variable is unset (or not valid Unicode).
pub struct ConfigEnv {
    pub groq_api_key: Option<String>,
    pub groq_model: Option<String>,
    pub groq_url: Option<String>,
    pub openrouter_api_key: Option<String>,
    pub openrouter_model: Option<String>,
}

/// The value of an optional variable, or `default`.
pub open spec fn or_default(v: Option<String>, default: Seq<char>) -> Seq<char> {
    match v {
        Some(s) => s@,
        None => default,
    }
}

/// The key used for the selected provider.
pub open spec fn spec_effective_api_key(c: PointerConfig) -> Seq<char> {
    if c.provider == 1 {
        c.openrouter_api_key@
    } else if c.provider == 2 {
        c.local_api_key@
    } else {
        c.groq_api_key@
    }
}

/// The model used for the selected provider.
pub open spec fn spec_effective_model(c: PointerConfig) -> Seq<char> {
    if c.provider == 1 {
        c.openrouter_model@
    } else if c.provider == 2 {
        c.local_model@
    } else {
        c.groq_model@
    }
}

/// The endpoint used for the selected provider; a local base URL gets
/// `/chat/completions` appended after its trailing slashes are removed.
pub open spec fn spec_effective_api_url(c: PointerConfig) -> Seq<char> {
    if c.provider == 1 {
        c.openrouter_url@
    } else if c.provider == 2 {
        local_endpoint(c.local_base_url@)
    } else {
        c.groq_url@
    }
}

/// The chat-completions endpoint of a self-hosted server: the base URL
/// without trailing slashes, then `/chat/completions`.
pub open spec fn local_endpoint(base: Seq<char>) -> Seq<char> {
    trim_end_matches(base, "/"@) + "/chat/completions"@
}

/// Computes `local_endpoint`.
pub fn local_chat_url(base: &str) -> (u: String)
    ensures
        u@ == local_endpoint(base@),
{
    let b = to_chars(base);
    let slash = to_chars("/");
    let trimmed = trim_end_matches_chars(b.as_slice(), slash.as_slice());
    let mut u = String::new();
    push_chars(&mut u, trimmed.as_slice());
    push_str(&mut u, "/chat/completions");
    assert(u@ =~= local_endpoint(base@));
    u
}

/// A string holding `s`.
fn owned(s: &str) -> (r: String)
    ensures
        r@ == s@,
{
    s.to_owned()
}

/// The OpenRouter model a configuration file without one gets.
pub fn default_or_model() -> (s: String)
    ensures
        s@ == OPENROUTER_MODEL_DEFAULT@,
{
    owned(OPENROUTER_MODEL_DEFAULT)
}

/// The OpenRouter endpoint a configuration file without one gets.
pub fn default_or_url() -> (s: String)
    ensures
        s@ == OPENROUTER_URL_DEFAULT@,
{
    owned(OPENROUTER_URL_DEFAULT)
}

/// The value of an optional variable, or `default`.
fn value_or(v: Option<String>, default: &str) -> (s: String)
    ensures
        s@ == or_default(v, default@),
{
    match v {
        Some(s) => s,
        None => owned(default),
    }
}

impl PointerConfig {
    /// The configuration of a fresh install: Groq selected, keys and models
    /// taken from the environment where set, the documented defaults
    /// otherwise, and `EMPTY` as the local key.
    pub fn from_env(env: ConfigEnv) -> (c: PointerConfig)
        ensures
            c.provider == 0,
            c.groq_api_key@ == or_default(env.groq_api_key, Seq::empty()),
            c.groq_model@ == or_default(env.groq_model, GROQ_MODEL_DEFAULT@),
            c.groq_url@ == or_default(env.groq_url, GROQ_URL_DEFAULT@),
            c.openrouter_api_key@ == or_default(env.openrouter_api_key, Seq::empty()),
            c.openrouter_model@ == or_default(env.openrouter_model, OPENROUTER_MODEL_DEFAULT@),
            c.openrouter_url@ == OPENROUTER_URL_DEFAULT@,
            c.local_base_url@ == Seq::<char>::empty(),
            c.local_api_key@ == "EMPTY"@,
            c.local_model@ == Seq::<char>::empty(),
    {
        proof {
            reveal_strlit("");
        }
        PointerConfig {
            provider: 0,
            groq_api_key: value_or(env.groq_api_key, ""),
            groq_model: value_or(env.groq_model, GROQ_MODEL_DEFAULT),
            groq_url: value_or(env.groq_url, GROQ_URL_DEFAULT),
            openrouter_api_key: value_or(env.openrouter_api_key, ""),
            openrouter_model: value_or(env.openrouter_model, OPENROUTER_MODEL_DEFAULT),
            openrouter_url: owned(OPENROUTER_URL_DEFAULT),
            local_base_url: String::new(),
            local_api_key: owned("EMPTY"),
            local_model: String::new(),
        }
    }

    /// The API key of the selected provider.
    pub fn effective_api_key(&self) -> (k: &str)
        ensures
            k@ == spec_effective_api_key(*self),
            self.provider == 1 ==> k@ == self.openrouter_api_key@,
            self.provider == 2 ==> k@ == self.local_api_key@,
            self.provider != 1 && self.provider != 2 ==> k@ == self.groq_api_key@,
    {
        match self.provider {
            1 => self.openrouter_api_key.as_str(),
            2 => self.local_api_key.as_str(),
            _ => self.groq_api_key.as_str(),
        }
    }

    /// The model of the selected provider.
    pub fn effective_model(&self) -> (m: &str)
        ensures
            m@ == spec_effective_model(*self),
            self.provider == 1 ==> m@ == self.openrouter_model@,
            self.provider == 2 ==> m@ == self.local_model@,
            self.provider != 1 && self.provider != 2 ==> m@ == self.groq_model@,
    {
        match self.provider {
            1 => self.openrouter_model.as_str(),
            2 => self.local_model.as_str(),
            _ => self.groq_model.as_str(),
        }
    }

    /// The chat-completions endpoint of the selected provider.
    pub fn effective_api_url(&self) -> (u: String)
        ensures
            u@ == spec_effective_api_url(*self),
            self.provider == 1 ==> u@ == self.openrouter_url@,
            self.provider == 2 ==> u@ == trim_end_matches(self.local_base_url@, "/"@)
                + "/chat/completions"@,
            self.provider != 1 && self.provider != 2 ==> u@ == self.groq_url@,
    {
        match self.provider {
            1 => self.openrouter_url.clone(),
            2 => local_chat_url(self.local_base_url.as_str()),
            _ => self.groq_url.clone(),
        }
    }
}

impl PointerConfig {
    /// Cleans the three API keys as `keys::sanitize_key` does (white space
    /// removed, a key pasted several times kept once); nothing else changes.
    pub fn clean_keys(&mut self)
        ensures
            final(self).groq_api_key@ == clean_key(old(self).groq_api_key@),
            final(self).openrouter_api_key@ == clean_key(old(self).openrouter_api_key@),
            final(self).local_api_key@ == clean_key(old(self).local_api_key@),
            final(self).provider == old(self).provider,
            final(self).groq_model@ == old(self).groq_model@,
            final(self).groq_url@ == old(self).groq_url@,
            final(self).openrouter_model@ == old(self).openrouter_model@,
            final(self).openrouter_url@ == old(self).openrouter_url@,
            final(self).local_base_url@ == old(self).local_base_url@,
            final(self).local_model@ == old(self).local_model@,
    {
        self.groq_api_key = sanitize_key(self.groq_api_key.as_str());
        self.openrouter_api_key = sanitize_key(self.openrouter_api_key.as_str());
        self.local_api_key = sanitize_key(self.local_api_key.as_str());
    }
}

/// The name of a provider as the settings list it; unknown values are Groq.
pub open spec fn provider_label(provider: u8) -> Seq<char> {
    if provider == 1 {
        "OpenRouter"@
    } else if provider == 2 {
        "Local / Self-hosted"@
    } else {
        "Groq"@
    }
}

/// Computes `provider_label`.
pub fn provider_name(provider: u8) -> (s: &'static str)
    ensures
        s@ == provider_label(provider),
{
    if provider == 1 {
        "OpenRouter"
    } else if provider == 2 {
        "Local / Self-hosted"
    } else {
        "Groq"
    }
}

/// How many characters of a key the log shows.
pub const KEY_PREVIEW_CHARS: usize = 17;

/// A key as the log shows it: its first `KEY_PREVIEW_CHARS` characters, then `...`.
pub open spec fn key_preview_text(key: Seq<char>) -> Seq<char> {
    let n = if key.len() < KEY_PREVIEW_CHARS {
        key.len() as int
    } else {
        KEY_PREVIEW_CHARS as int
    };
    key.take(n) + "..."@
}

/// Computes `key_preview_text`.
pub fn key_preview(key: &str) -> (s: String)
    ensures
        s@ == key_preview_text(key@),
{
    let cs = to_chars(key);
    let n = if cs.len() < KEY_PREVIEW_CHARS {
        cs.len()
    } else {
        KEY_PREVIEW_CHARS
    };
    let head = slice_of(cs.as_slice(), 0, n);
    let mut s = from_chars(head.as_slice());
    push_str(&mut s, "...");
    assert(s@ =~= key_preview_text(key@));
    s
}

/// Trailing slashes on a local base URL do not change the endpoint used.
pub proof fn law_trailing_slash_ignored(c: PointerConfig, d: PointerConfig)
    requires
        c.provider == 2,
        d.provider == 2,
        d.local_base_url@ == c.local_base_url@ + "/"@,
    ensures
        spec_effective_api_url(d) == spec_effective_api_url(c),
{
    reveal_strlit("/");
    let s = c.local_base_url@;
    let t = d.local_base_url@;
    assert(t.skip(t.len() - 1) =~= "/"@);
    assert(t.take(t.len() - 1) =~= s);
}

/// Providers other than 1 (OpenRouter) and 2 (local) use the Groq settings.
pub proof fn law_unknown_provider_is_groq(c: PointerConfig)
    requires
        c.provider != 1,
        c.provider != 2,
    ensures
        spec_effective_api_key(c) == c.groq_api_key@,
        spec_effective_model(c) == c.groq_model@,
        spec_effective_api_url(c) == c.groq_url@,
{
}

/// Addresses of the model-settings widgets, recorded once when the panel is
/// built.
pub struct MsPtrs {
    pub provider_popup: usize,
    pub groq_api_fld: usize,
    pub groq_mdl_fld: usize,
    pub groq_url_fld: usize,
    pub or_api_fld: usize,
    pub or_mdl_fld: usize,
    pub or_url_fld: usize,
    pub loc_url_fld: usize,
    pub loc_key_fld: usize,
    pub loc_mdl_fld: usize,
    pub groq_box: usize,
    pub or_box: usize,
    pub loc_box: usize,
    pub status_lbl: usize,
}

} // verus!
