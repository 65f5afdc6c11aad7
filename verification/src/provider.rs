//! The provider registry: a pure, total map from a provider tag to
//! its capabilities, wire family, default endpoint and credential
//! slot.

use vstd::prelude::*;

verus! {

/// A named chat-completion backend, plus a free-form `Custom` entry
/// for arbitrary OpenAI-compatible endpoints.
#[derive(Debug, Clone, PartialEq, Eq)]
pub enum AiProvider {
    OpenAI,
    Anthropic,
    Cohere,
    Gemini,
    Groq,
    Ollama,
    Xai,
    DeepSeek,
    Custom { name: String },
}

/// The wire-protocol dialect a provider speaks.  `DeepSeek` and
/// `Custom` speak the OpenAI dialect; every other provider speaks its
/// own.
#[derive(Debug, Clone, Copy, PartialEq, Eq, Structural)]
pub enum WireFamily {
    OpenAi,
    Anthropic,
    Cohere,
    Gemini,
    Groq,
    Ollama,
    Xai,
}

/// What a provider supports, together with a short description.
#[derive(Debug, Clone, PartialEq, Eq)]
pub struct ProviderCapabilities {
    pub supports_list_models: bool,
    pub supports_custom_base_url: bool,
    pub description: String,
}

/// Whether the provider can enumerate its models dynamically.
pub open spec fn supports_listing(p: AiProvider) -> bool {
    match p {
        AiProvider::OpenAI => true,
        AiProvider::Ollama => true,
        AiProvider::DeepSeek => true,
        AiProvider::Custom { .. } => true,
        _ => false,
    }
}

/// Whether the provider accepts a custom base URL.
pub open spec fn supports_custom_url(p: AiProvider) -> bool {
    match p {
        AiProvider::OpenAI => true,
        AiProvider::Ollama => true,
        AiProvider::DeepSeek => true,
        AiProvider::Custom { .. } => true,
        _ => false,
    }
}

/// Whether the provider exposes an OpenAI-compatible listing API.
pub open spec fn openai_compatible(p: AiProvider) -> bool {
    match p {
        AiProvider::OpenAI => true,
        AiProvider::DeepSeek => true,
        AiProvider::Custom { .. } => true,
        _ => false,
    }
}

/// The wire family each provider speaks.
pub open spec fn wire_family_of(p: AiProvider) -> WireFamily {
    match p {
        AiProvider::OpenAI => WireFamily::OpenAi,
        AiProvider::Anthropic => WireFamily::Anthropic,
        AiProvider::Cohere => WireFamily::Cohere,
        AiProvider::Gemini => WireFamily::Gemini,
        AiProvider::Groq => WireFamily::Groq,
        AiProvider::Ollama => WireFamily::Ollama,
        AiProvider::Xai => WireFamily::Xai,
        AiProvider::DeepSeek => WireFamily::OpenAi,
        AiProvider::Custom { .. } => WireFamily::OpenAi,
    }
}

/// The default endpoint used when no base URL is supplied.  Only
/// OpenAI and DeepSeek have one of their own; every other provider
/// falls back to the OpenAI endpoint.
pub open spec fn default_base_url_of(p: AiProvider) -> Seq<char> {
    match p {
        AiProvider::DeepSeek => "https://api.deepseek.com/v1/"@,
        _ => "https://api.openai.com/v1/"@,
    }
}

/// The environment-style variable that carries the provider's
/// credential when no explicit routing is used; empty for Ollama,
/// which usually needs none.
pub open spec fn credential_env_key_of(p: AiProvider) -> Seq<char> {
    match p {
        AiProvider::OpenAI => "OPENAI_API_KEY"@,
        AiProvider::Anthropic => "ANTHROPIC_API_KEY"@,
        AiProvider::Cohere => "COHERE_API_KEY"@,
        AiProvider::Gemini => "GEMINI_API_KEY"@,
        AiProvider::Groq => "GROQ_API_KEY"@,
        AiProvider::Ollama => Seq::<char>::empty(),
        AiProvider::Xai => "XAI_API_KEY"@,
        AiProvider::DeepSeek => "DEEPSEEK_API_KEY"@,
        AiProvider::Custom { .. } => "CUSTOM_API_KEY"@,
    }
}

/// The fixed part of a provider's description.
pub open spec fn description_of(p: AiProvider) -> Seq<char> {
    match p {
        AiProvider::OpenAI => "OpenAI 官方 API，支持 GPT 系列模型"@,
        AiProvider::Anthropic => "Anthropic 系列模型，需要手动配置模型列表"@,
        AiProvider::Cohere => "Cohere Command 系列模型，需要手动配置模型列表"@,
        AiProvider::Gemini => "Google Gemini 系列模型，需要手动配置模型列表"@,
        AiProvider::Groq => "Groq 高速推理平台，需要手动配置模型列表"@,
        AiProvider::Ollama => "Ollama 本地模型服务，支持动态获取已安装的模型"@,
        AiProvider::Xai => "xAI Grok 系列模型，需要手动配置模型列表"@,
        AiProvider::DeepSeek => "DeepSeek 模型，使用 OpenAI 兼容接口"@,
        AiProvider::Custom { name } => "自定义提供商: "@ + name@
            + "，假设支持 OpenAI 兼容接口"@,
    }
}

pub(crate) fn listing_supported(provider: &AiProvider) -> (r: bool)
    ensures
        r == supports_listing(*provider),
{
    match provider {
        AiProvider::OpenAI => true,
        AiProvider::Ollama => true,
        AiProvider::Anthropic => false,
        AiProvider::Cohere => false,
        AiProvider::Gemini => false,
        AiProvider::Groq => false,
        AiProvider::Xai => false,
        AiProvider::DeepSeek => true,
        AiProvider::Custom { .. } => true,
    }
}

/// Whether the provider can enumerate its models dynamically.
pub fn check_provider_supports_list_models(provider: AiProvider) -> (r: bool)
    ensures
        r == supports_listing(provider),
{
    listing_supported(&provider)
}

pub(crate) fn openai_compatible_api(provider: &AiProvider) -> (r: bool)
    ensures
        r == openai_compatible(*provider),
{
    match provider {
        AiProvider::OpenAI => true,
        AiProvider::DeepSeek => true,
        AiProvider::Custom { .. } => true,
        _ => false,
    }
}

pub(crate) fn wire_family_for(provider: &AiProvider) -> (r: WireFamily)
    ensures
        r == wire_family_of(*provider),
{
    match provider {
        AiProvider::OpenAI => WireFamily::OpenAi,
        AiProvider::Anthropic => WireFamily::Anthropic,
        AiProvider::Cohere => WireFamily::Cohere,
        AiProvider::Gemini => WireFamily::Gemini,
        AiProvider::Groq => WireFamily::Groq,
        AiProvider::Ollama => WireFamily::Ollama,
        AiProvider::Xai => WireFamily::Xai,
        AiProvider::DeepSeek => WireFamily::OpenAi,
        AiProvider::Custom { .. } => WireFamily::OpenAi,
    }
}

pub(crate) fn capabilities_of(provider: &AiProvider) -> (r: ProviderCapabilities)
    ensures
        r.supports_list_models == supports_listing(*provider),
        r.supports_custom_base_url == supports_custom_url(*provider),
        r.description@ == description_of(*provider),
{
    match provider {
        AiProvider::OpenAI => ProviderCapabilities {
            supports_list_models: true,
            supports_custom_base_url: true,
            description: String::from_str("OpenAI 官方 API，支持 GPT 系列模型"),
        },
        AiProvider::Anthropic => ProviderCapabilities {
            supports_list_models: false,
            supports_custom_base_url: false,
            description: String::from_str("Anthropic 系列模型，需要手动配置模型列表"),
        },
        AiProvider::Cohere => ProviderCapabilities {
            supports_list_models: false,
            supports_custom_base_url: false,
            description: String::from_str("Cohere Command 系列模型，需要手动配置模型列表"),
        },
        AiProvider::Gemini => ProviderCapabilities {
            supports_list_models: false,
            supports_custom_base_url: false,
            description: String::from_str("Google Gemini 系列模型，需要手动配置模型列表"),
        },
        AiProvider::Groq => ProviderCapabilities {
            supports_list_models: false,
            supports_custom_base_url: false,
            description: String::from_str("Groq 高速推理平台，需要手动配置模型列表"),
        },
        AiProvider::Ollama => ProviderCapabilities {
            supports_list_models: true,
            supports_custom_base_url: true,
            description: String::from_str("Ollama 本地模型服务，支持动态获取已安装的模型"),
        },
        AiProvider::Xai => ProviderCapabilities {
            supports_list_models: false,
            supports_custom_base_url: false,
            description: String::from_str("xAI Grok 系列模型，需要手动配置模型列表"),
        },
        AiProvider::DeepSeek => ProviderCapabilities {
            supports_list_models: true,
            supports_custom_base_url: true,
            description: String::from_str("DeepSeek 模型，使用 OpenAI 兼容接口"),
        },
        AiProvider::Custom { name } => ProviderCapabilities {
            supports_list_models: true,
            supports_custom_base_url: true,
            description: String::from_str("自定义提供商: ").concat(name.as_str()).concat(
                "，假设支持 OpenAI 兼容接口",
            ),
        },
    }
}

/// The capability entry for a provider, as a fixed table; the entry
/// for `Custom` carries the custom name verbatim in its description.
pub fn get_provider_capabilities_info(provider: AiProvider) -> (r: ProviderCapabilities)
    ensures
        r.supports_list_models == supports_listing(provider),
        r.supports_custom_base_url == supports_custom_url(provider),
        r.description@ == description_of(provider),
{
    capabilities_of(&provider)
}

pub(crate) fn default_base_url_for(provider: &AiProvider) -> (r: String)
    ensures
        r@ == default_base_url_of(*provider),
{
    match provider {
        AiProvider::DeepSeek => String::from_str("https://api.deepseek.com/v1/"),
        _ => String::from_str("https://api.openai.com/v1/"),
    }
}

/// The name of the environment-style credential slot for a provider;
/// empty when the provider needs none.
pub fn credential_env_key(provider: &AiProvider) -> (r: String)
    ensures
        r@ == credential_env_key_of(*provider),
{
    match provider {
        AiProvider::OpenAI => String::from_str("OPENAI_API_KEY"),
        AiProvider::Anthropic => String::from_str("ANTHROPIC_API_KEY"),
        AiProvider::Cohere => String::from_str("COHERE_API_KEY"),
        AiProvider::Gemini => String::from_str("GEMINI_API_KEY"),
        AiProvider::Groq => String::from_str("GROQ_API_KEY"),
        AiProvider::Ollama => String::new(),
        AiProvider::Xai => String::from_str("XAI_API_KEY"),
        AiProvider::DeepSeek => String::from_str("DEEPSEEK_API_KEY"),
        AiProvider::Custom { .. } => String::from_str("CUSTOM_API_KEY"),
    }
}

} // verus!
