//! The chat client: an immutable pairing of a provider and options,
//! with the pure setup work every call shares.

use vstd::prelude::*;
use crate::models::DiscoveryPlan;
use crate::options::AiChatOptions;
use crate::options::ChatMessage;
use crate::options::ChatSamplingOptions;
use crate::options::NormalizedRequest;
use crate::provider::AiProvider;
use crate::provider::ProviderCapabilities;
use crate::provider::WireFamily;

verus! {

/// Where a request's credential travels: explicitly with every
/// request when a custom base URL was supplied, or through the
/// provider's environment-style slot when not.  `Environment` with an
/// empty key means no credential is placed anywhere (Ollama).
#[derive(Debug, Clone, PartialEq, Eq)]
pub enum CredentialRouting {
    Explicit { base_url: String, api_key: String, family: WireFamily },
    Environment { env_key: String, api_key: String },
}

/// A chat client: provider and options are fixed at construction and
/// no call mutates them.
#[derive(Debug, Clone)]
pub struct AiChatClient {
    pub provider: AiProvider,
    pub options: AiChatOptions,
}

impl AiChatClient {
    /// Pairs a provider with options.
    pub fn new(provider: AiProvider, options: AiChatOptions) -> (r: Self)
        ensures
            r.provider == provider,
            r.options == options,
    {
        AiChatClient { provider, options }
    }

    /// Whether this client's provider can enumerate its models.
    pub fn supports_list_models(&self) -> (r: bool)
        ensures
            r == crate::provider::supports_listing(self.provider),
    {
        crate::provider::listing_supported(&self.provider)
    }

    /// The capability entry for this client's provider.
    pub fn get_provider_capabilities(&self) -> (r: ProviderCapabilities)
        ensures
            r.supports_list_models == crate::provider::supports_listing(self.provider),
            r.supports_custom_base_url == crate::provider::supports_custom_url(self.provider),
            r.description@ == crate::provider::description_of(self.provider),
    {
        crate::provider::capabilities_of(&self.provider)
    }

    /// Whether this client's provider exposes an OpenAI-compatible
    /// listing API.
    pub fn supports_openai_compatible_api(&self) -> (r: bool)
        ensures
            r == crate::provider::openai_compatible(self.provider),
    {
        crate::provider::openai_compatible_api(&self.provider)
    }

    /// The default endpoint used when the options carry no base URL.
    pub fn get_default_base_url(&self) -> (r: String)
        ensures
            r@ == crate::provider::default_base_url_of(self.provider),
    {
        crate::provider::default_base_url_for(&self.provider)
    }

    /// Whether a model identifier survives the exclusion filter.
    pub fn should_include_model(&self, model_id: &str) -> (r: bool)
        ensures
            r == crate::models::model_id_kept(model_id@),
    {
        crate::models::include_model_id(model_id)
    }

    /// Trims a base URL and gives it exactly one trailing `/`.
    pub fn normalize_base_url(url: &str) -> (r: String)
        ensures
            r@ == crate::text::normalize_spec(url@),
    {
        crate::text::normalize_base_url(url)
    }

    /// The wire family this client speaks on the wire.
    pub fn get_adapter_kind(&self) -> (r: WireFamily)
        ensures
            r == crate::provider::wire_family_of(self.provider),
    {
        crate::provider::wire_family_for(&self.provider)
    }

    /// The model-listing URL this client would call: its own base URL
    /// when one was set (normalized), else the provider's default.
    pub fn resolved_models_url(&self) -> (r: String)
        ensures
            r@ == crate::models::models_url_of(self.provider, self.options.base_url),
    {
        crate::models::resolved_models_url(&self.provider, &self.options.base_url)
    }

    /// Plans a model-discovery call for this client.
    pub fn plan_model_discovery(&self) -> (r: DiscoveryPlan)
        ensures
            !crate::provider::supports_listing(self.provider)
                ==> (r matches DiscoveryPlan::Unsupported { response }
                && !response.success
                && response.models@.len() == 0
                && (response.error_message matches Option::Some(m)
                    && m@ == crate::models::unsupported_listing_message())
                && crate::models::listing_consistent(response)),
            crate::provider::supports_listing(self.provider) && crate::provider::openai_compatible(
                self.provider,
            ) ==> (r matches DiscoveryPlan::DirectHttp { url } && url@
                == crate::models::models_url_of(self.provider, self.options.base_url)),
            crate::provider::supports_listing(self.provider) && !crate::provider::openai_compatible(
                self.provider,
            ) ==> (r matches DiscoveryPlan::ProviderNative { family } && family
                == crate::provider::wire_family_of(self.provider)),
    {
        crate::models::plan_discovery(&self.provider, &self.options.base_url)
    }

    /// How this client routes its credential: explicitly with every
    /// request when a custom base URL was set, else through the
    /// provider's environment-style slot.
    pub fn credential_routing(&self) -> (r: CredentialRouting)
        ensures
            self.options.base_url matches Option::Some(u)
                ==> (r matches CredentialRouting::Explicit { base_url, api_key, family }
                && base_url@ == crate::text::normalize_spec(u@)
                && api_key@ == self.options.api_key@
                && family == crate::provider::wire_family_of(self.provider)),
            self.options.base_url is None
                ==> (r matches CredentialRouting::Environment { env_key, api_key }
                && env_key@ == crate::provider::credential_env_key_of(self.provider)
                && api_key@ == self.options.api_key@),
    {
        match &self.options.base_url {
            Option::Some(u) => CredentialRouting::Explicit {
                base_url: crate::text::normalize_base_url(u.as_str()),
                api_key: self.options.api_key.clone(),
                family: crate::provider::wire_family_for(&self.provider),
            },
            Option::None => CredentialRouting::Environment {
                env_key: crate::provider::credential_env_key(&self.provider),
                api_key: self.options.api_key.clone(),
            },
        }
    }

    /// The normalized request: the dedicated system prompt is passed
    /// through beside the messages, which map over one to one, in
    /// order, with their roles unchanged.
    pub fn build_chat_request(&self, messages: Vec<ChatMessage>) -> (r: NormalizedRequest)
        ensures
            r.system == self.options.system_prompt,
            r.messages == messages,
    {
        NormalizedRequest {
            system: crate::options::clone_opt_string(&self.options.system_prompt),
            messages,
        }
    }

    /// The sampling-options object for a single-shot call: present
    /// exactly when the caller set at least one sampling field, and
    /// carrying exactly the fields that were set.
    pub fn build_chat_options(&self) -> (r: Option<ChatSamplingOptions>)
        ensures
            (r is Some) <==> (self.options.temperature_milli is Some
                || self.options.top_p_milli is Some
                || self.options.max_tokens is Some
                || self.options.stop_sequences is Some),
            r matches Option::Some(o) ==> o.temperature_milli == self.options.temperature_milli
                && o.top_p_milli == self.options.top_p_milli
                && o.max_tokens == self.options.max_tokens
                && (self.options.stop_sequences matches Option::Some(y)
                    ==> (o.stop_sequences matches Option::Some(x) && x@ == y@))
                && (self.options.stop_sequences is None ==> o.stop_sequences is None)
                && !o.capture_content
                && !o.capture_usage,
    {
        if self.options.temperature_milli.is_none() && self.options.top_p_milli.is_none()
            && self.options.max_tokens.is_none() && self.options.stop_sequences.is_none() {
            Option::None
        } else {
            Option::Some(
                ChatSamplingOptions {
                    temperature_milli: self.options.temperature_milli,
                    top_p_milli: self.options.top_p_milli,
                    max_tokens: self.options.max_tokens,
                    stop_sequences: crate::options::clone_opt_string_vec(
                        &self.options.stop_sequences,
                    ),
                    capture_content: false,
                    capture_usage: false,
                },
            )
        }
    }

    /// The sampling-options object for a streaming call: always
    /// present, with content and usage capture forced on so the
    /// closing `Done` event can carry the accumulated text and the
    /// counters.
    pub fn build_chat_options_for_stream(&self) -> (r: Option<ChatSamplingOptions>)
        ensures
            r matches Option::Some(o) && o.temperature_milli == self.options.temperature_milli
                && o.top_p_milli == self.options.top_p_milli
                && o.max_tokens == self.options.max_tokens
                && (self.options.stop_sequences matches Option::Some(y)
                    ==> (o.stop_sequences matches Option::Some(x) && x@ == y@))
                && (self.options.stop_sequences is None ==> o.stop_sequences is None)
                && o.capture_content
                && o.capture_usage,
    {
        Option::Some(
            ChatSamplingOptions {
                temperature_milli: self.options.temperature_milli,
                top_p_milli: self.options.top_p_milli,
                max_tokens: self.options.max_tokens,
                stop_sequences: crate::options::clone_opt_string_vec(
                    &self.options.stop_sequences,
                ),
                capture_content: true,
                capture_usage: true,
            },
        )
    }
}

/// Pairs a provider with options.
pub fn create_ai_chat_client(provider: AiProvider, options: AiChatOptions) -> (r: AiChatClient)
    ensures
        r.provider == provider,
        r.options == options,
{
    AiChatClient::new(provider, options)
}

} // verus!
