//! Model discovery: the exclusion filter, the listing result shape,
//! and the plan that picks a discovery path per provider.

use vstd::prelude::*;
use crate::text::contains_substr;

verus! {

/// What `str::to_lowercase` returns for a string: a fixed function of
/// its characters alone.
pub uninterp spec fn lower_of(s: Seq<char>) -> Seq<char>;

/// Relies on `str::to_lowercase`: the result depends on the
/// characters of the input alone.
#[verifier::external_body]
pub(crate) fn to_lowercase_string(s: &str) -> (r: String)
    ensures
        r@ == lower_of(s@),
{
    s.to_lowercase()
}

/// Whether an already-lowercased identifier contains one of the fixed
/// banned substrings that mark non-chat models.
pub open spec fn is_banned(low: Seq<char>) -> bool {
    contains_substr(low, "whisper"@) || contains_substr(low, "tts"@) || contains_substr(
        low,
        "dall-e"@,
    ) || contains_substr(low, "embedding"@) || contains_substr(low, "moderation"@)
        || contains_substr(low, "babbage"@) || contains_substr(low, "ada"@) || contains_substr(
        low,
        "curie"@,
    ) || contains_substr(low, "davinci"@)
}

/// Whether a model identifier survives the exclusion filter: its
/// lowercase form contains none of the banned substrings.
pub open spec fn model_id_kept(id: Seq<char>) -> bool {
    !is_banned(lower_of(id))
}

/// The filter predicate, as one named value so every contract speaks
/// of the same function.
pub open spec fn kept_pred() -> spec_fn(Seq<char>) -> bool {
    |id: Seq<char>| model_id_kept(id)
}

/// The character sequences of a list of strings.
pub open spec fn str_views(ids: Seq<String>) -> Seq<Seq<char>> {
    ids.map_values(|s: String| s@)
}

/// Whether an already-lowercased identifier contains a banned
/// substring.
pub fn has_excluded_pattern(low: &str) -> (r: bool)
    ensures
        r == is_banned(low@),
{
    crate::text::str_contains(low, "whisper") || crate::text::str_contains(low, "tts")
        || crate::text::str_contains(low, "dall-e") || crate::text::str_contains(low, "embedding")
        || crate::text::str_contains(low, "moderation") || crate::text::str_contains(
        low,
        "babbage",
    ) || crate::text::str_contains(low, "ada") || crate::text::str_contains(low, "curie")
        || crate::text::str_contains(low, "davinci")
}

/// Whether one model identifier survives the exclusion filter.
pub fn include_model_id(model_id: &str) -> (r: bool)
    ensures
        r == model_id_kept(model_id@),
{
    let low = to_lowercase_string(model_id);
    !has_excluded_pattern(low.as_str())
}

/// Keeps exactly the identifiers that survive the exclusion filter,
/// in their original order.
pub fn filter_model_ids(ids: Vec<String>) -> (r: Vec<String>)
    ensures
        str_views(r@) == str_views(ids@).filter(kept_pred()),
{
    let mut r: Vec<String> = Vec::new();
    let mut i: usize = 0;
    proof {
        reveal(Seq::filter);
        assert(str_views(ids@.take(0)) =~= Seq::<Seq<char>>::empty());
        assert(str_views(r@) =~= Seq::<Seq<char>>::empty());
    }
    while i < ids.len()
        invariant
            i <= ids@.len(),
            str_views(r@) == str_views(ids@.take(i as int)).filter(kept_pred()),
        decreases ids@.len() - i,
    {
        let id = ids[i].clone();
        let keep = include_model_id(id.as_str());
        proof {
            let a = str_views(ids@.take(i as int));
            let single = seq![ids@[i as int]@];
            assert(str_views(ids@.take(i + 1)) =~= a + single);
            Seq::filter_distributes_over_add(a, single, kept_pred());
            reveal(Seq::filter);
            assert(single.drop_last() =~= Seq::<Seq<char>>::empty());
            assert(single.drop_last().filter(kept_pred()) =~= Seq::<Seq<char>>::empty());
            if kept_pred()(ids@[i as int]@) {
                assert(single.filter(kept_pred()) =~= single);
            } else {
                assert(single.filter(kept_pred()) =~= Seq::<Seq<char>>::empty());
            }
        }
        if keep {
            r.push(id);
            proof {
                assert(str_views(r@) =~= str_views(ids@.take(i + 1)).filter(kept_pred()));
            }
        } else {
            proof {
                assert(str_views(r@) =~= str_views(ids@.take(i + 1)).filter(kept_pred()));
            }
        }
        i = i + 1;
    }
    proof {
        assert(ids@.take(ids@.len() as int) =~= ids@);
    }
    r
}

/// The exclusion filter keeps exactly the identifiers whose lowercase
/// form contains no banned substring, each one an element of the
/// input, in the input's order.
pub proof fn lemma_filter_model_ids(ids: Seq<Seq<char>>)
    ensures
        forall|j: int|
            0 <= j < ids.filter(kept_pred()).len() ==> model_id_kept(
                #[trigger] ids.filter(kept_pred())[j],
            ),
        forall|j: int|
            0 <= j < ids.len() && model_id_kept(#[trigger] ids[j]) ==> ids.filter(
                kept_pred(),
            ).contains(ids[j]),
        forall|x: Seq<char>|
            ids.filter(kept_pred()).contains(x) ==> ids.contains(x) && model_id_kept(x),
{
    broadcast use Seq::lemma_filter_pred;
    broadcast use Seq::lemma_filter_contains;
    broadcast use Seq::lemma_filter_contains_rev;

    assert forall|j: int| 0 <= j < ids.filter(kept_pred()).len() implies model_id_kept(
        #[trigger] ids.filter(kept_pred())[j],
    ) by {
        assert(kept_pred()(ids.filter(kept_pred())[j]));
    }
    assert forall|x: Seq<char>| ids.filter(kept_pred()).contains(x) implies ids.contains(x)
        && model_id_kept(x) by {
        ids.lemma_filter_contains_rev(kept_pred(), x);
        assert(kept_pred()(x));
    }
}

/// One model object of an OpenAI-compatible listing response; only
/// the identifier matters, unknown fields are ignored upstream.
#[derive(Debug, Clone, PartialEq, Eq)]
pub struct OpenAiModel {
    pub id: String,
    pub object: Option<String>,
    pub created: Option<i64>,
    pub owned_by: Option<String>,
}

/// An OpenAI-compatible model listing response.
#[derive(Debug, Clone, PartialEq, Eq)]
pub struct OpenAiModelsResponse {
    pub object: Option<String>,
    pub data: Vec<OpenAiModel>,
}

/// The outcome of one model-discovery call.  Success and the error
/// message are mutually exclusive, and a failure carries no models.
#[derive(Debug, Clone, PartialEq, Eq)]
pub struct ModelListResponse {
    pub models: Vec<String>,
    pub success: bool,
    pub error_message: Option<String>,
}

/// The invariant every listing result satisfies: an error message
/// exists exactly on failure, it is never empty, and a failure
/// carries no models.
pub open spec fn listing_consistent(r: ModelListResponse) -> bool {
    &&& r.success <==> r.error_message is None
    &&& !r.success ==> r.models@.len() == 0
    &&& r.error_message matches Option::Some(m) ==> m@.len() > 0
}

pub open spec fn unsupported_listing_message() -> Seq<char> {
    "此提供商不支持动态获取模型列表，请手动添加模型"@
}

pub open spec fn http_failure_message(status: int, body: Seq<char>) -> Seq<char> {
    "HTTP 错误 "@ + crate::text::dec_digits(status) + ": "@ + body
}

pub open spec fn decode_failure_message(detail: Seq<char>) -> Seq<char> {
    "解析响应失败: "@ + detail
}

pub open spec fn transport_failure_message(detail: Seq<char>) -> Seq<char> {
    "网络请求失败: "@ + detail
}

pub open spec fn native_failure_message(detail: Seq<char>) -> Seq<char> {
    "获取模型列表失败: "@ + detail
}

/// The fixed failure returned, without any network call, when the
/// provider cannot list models.
pub fn unsupported_listing_response() -> (r: ModelListResponse)
    ensures
        !r.success,
        r.models@.len() == 0,
        r.error_message matches Option::Some(m) && m@ == unsupported_listing_message(),
        listing_consistent(r),
{
    proof {
        reveal_strlit("此提供商不支持动态获取模型列表，请手动添加模型");
    }
    ModelListResponse {
        models: Vec::new(),
        success: false,
        error_message: Option::Some(
            String::from_str("此提供商不支持动态获取模型列表，请手动添加模型"),
        ),
    }
}

/// What one direct-HTTP listing attempt produced, as plain values:
/// the decoded identifiers, or the failure that ended it.
#[derive(Debug, Clone, PartialEq, Eq)]
pub enum FetchOutcome {
    Listing { ids: Vec<String> },
    HttpFailure { status: u16, body: String },
    DecodeFailure { detail: String },
    TransportFailure { detail: String },
}

/// Shapes the result of a direct-HTTP listing attempt: decoded
/// identifiers pass through the exclusion filter; each failure kind
/// becomes a failure result with its own message.
pub fn listing_outcome_response(outcome: FetchOutcome) -> (r: ModelListResponse)
    ensures
        outcome matches FetchOutcome::Listing { ids } ==> r.success && r.error_message is None
            && str_views(r.models@) == str_views(ids@).filter(kept_pred()),
        outcome matches FetchOutcome::HttpFailure { status, body } ==> !r.success
            && r.models@.len() == 0 && (r.error_message matches Option::Some(m) && m@
            == http_failure_message(status as int, body@)),
        outcome matches FetchOutcome::DecodeFailure { detail } ==> !r.success && r.models@.len()
            == 0 && (r.error_message matches Option::Some(m) && m@ == decode_failure_message(
            detail@,
        )),
        outcome matches FetchOutcome::TransportFailure { detail } ==> !r.success
            && r.models@.len() == 0 && (r.error_message matches Option::Some(m) && m@
            == transport_failure_message(detail@)),
        listing_consistent(r),
{
    match outcome {
        FetchOutcome::Listing { ids } => ModelListResponse {
            models: filter_model_ids(ids),
            success: true,
            error_message: Option::None,
        },
        FetchOutcome::HttpFailure { status, body } => {
            proof {
                reveal_strlit("HTTP 错误 ");
            }
            let msg = String::from_str("HTTP 错误 ").concat(
                crate::text::u16_to_string(status).as_str(),
            ).concat(": ").concat(body.as_str());
            ModelListResponse {
                models: Vec::new(),
                success: false,
                error_message: Option::Some(msg),
            }
        },
        FetchOutcome::DecodeFailure { detail } => {
            proof {
                reveal_strlit("解析响应失败: ");
            }
            let msg = String::from_str("解析响应失败: ").concat(detail.as_str());
            ModelListResponse {
                models: Vec::new(),
                success: false,
                error_message: Option::Some(msg),
            }
        },
        FetchOutcome::TransportFailure { detail } => {
            proof {
                reveal_strlit("网络请求失败: ");
            }
            let msg = String::from_str("网络请求失败: ").concat(detail.as_str());
            ModelListResponse {
                models: Vec::new(),
                success: false,
                error_message: Option::Some(msg),
            }
        },
    }
}

/// Shapes the result of the provider-native discovery path: the
/// returned names pass through unchanged, and an error is wrapped
/// into a failure result.
pub fn native_listing_response(outcome: Result<Vec<String>, String>) -> (r: ModelListResponse)
    ensures
        outcome matches Result::Ok(ids) ==> r.success && r.error_message is None && r.models@
            == ids@,
        outcome matches Result::Err(detail) ==> !r.success && r.models@.len() == 0
            && (r.error_message matches Option::Some(m) && m@ == native_failure_message(detail@)),
        listing_consistent(r),
{
    match outcome {
        Result::Ok(ids) => ModelListResponse {
            models: ids,
            success: true,
            error_message: Option::None,
        },
        Result::Err(detail) => {
            proof {
                reveal_strlit("获取模型列表失败: ");
            }
            let msg = String::from_str("获取模型列表失败: ").concat(detail.as_str());
            ModelListResponse {
                models: Vec::new(),
                success: false,
                error_message: Option::Some(msg),
            }
        },
    }
}

/// The identifiers of a listing response's model objects.
pub open spec fn model_ids_of(data: Seq<OpenAiModel>) -> Seq<Seq<char>> {
    data.map_values(|m: OpenAiModel| m.id@)
}

/// Extracts the identifiers of a decoded listing response and runs
/// them through the exclusion filter, keeping their order.
pub fn filter_models_response(response: OpenAiModelsResponse) -> (r: Vec<String>)
    ensures
        str_views(r@) == model_ids_of(response.data@).filter(kept_pred()),
{
    let mut ids: Vec<String> = Vec::new();
    let mut i: usize = 0;
    while i < response.data.len()
        invariant
            i <= response.data@.len(),
            str_views(ids@) == model_ids_of(response.data@.take(i as int)),
        decreases response.data@.len() - i,
    {
        let ghost pre = ids@;
        ids.push(response.data[i].id.clone());
        proof {
            assert(str_views(pre).len() == pre.len());
            assert(model_ids_of(response.data@.take(i as int)).len() == i);
            assert(pre.len() == i);
            assert(ids@ == pre.push(response.data@[i as int].id));
            assert forall|k: int| 0 <= k < i + 1 implies str_views(ids@)[k] == model_ids_of(
                response.data@.take(i + 1),
            )[k] by {
                assert(str_views(ids@)[k] == ids@[k]@);
                assert(model_ids_of(response.data@.take(i + 1))[k] == response.data@.take(
                    i + 1,
                )[k].id@);
                if k < i {
                    assert(str_views(pre)[k] == model_ids_of(response.data@.take(i as int))[k]);
                    assert(ids@[k] == pre[k]);
                }
            }
            assert(str_views(ids@) =~= model_ids_of(response.data@.take(i + 1)));
        }
        i = i + 1;
    }
    proof {
        assert(response.data@.take(response.data@.len() as int) =~= response.data@);
    }
    let r = filter_model_ids(ids);
    r
}

/// The URL of the model-listing endpoint under a base URL.
pub open spec fn models_url_spec(base: Seq<char>) -> Seq<char> {
    crate::text::normalize_spec(base) + "models"@
}

/// The listing URL a client resolves: the caller's base URL when one
/// was given (normalized), else the provider's default endpoint.
pub open spec fn models_url_of(p: crate::provider::AiProvider, base_url: Option<String>) -> Seq<
    char,
> {
    match base_url {
        Option::Some(u) => models_url_spec(u@),
        Option::None => crate::provider::default_base_url_of(p) + "models"@,
    }
}

/// The model-listing endpoint under a base URL: the normalized base
/// with `models` appended.
pub fn models_endpoint_url(base_url: &str) -> (r: String)
    ensures
        r@ == models_url_spec(base_url@),
{
    crate::text::normalize_base_url(base_url).concat("models")
}

pub(crate) fn resolved_models_url(
    provider: &crate::provider::AiProvider,
    base_url: &Option<String>,
) -> (r: String)
    ensures
        r@ == models_url_of(*provider, *base_url),
{
    match base_url {
        Option::Some(u) => models_endpoint_url(u.as_str()),
        Option::None => crate::provider::default_base_url_for(provider).concat("models"),
    }
}

/// How a discovery call proceeds for one provider: it is refused
/// outright, it goes to the OpenAI-compatible listing endpoint, or it
/// is delegated to the provider-native path.  Only `DirectHttp`
/// carries an endpoint, so no network call belongs to the other two.
#[derive(Debug, Clone, PartialEq, Eq)]
pub enum DiscoveryPlan {
    Unsupported { response: ModelListResponse },
    DirectHttp { url: String },
    ProviderNative { family: crate::provider::WireFamily },
}

/// Plans a discovery call.  A provider that cannot list models gets
/// the fixed failure response at once, with no endpoint to call; an
/// OpenAI-compatible provider gets the resolved listing URL; any
/// other listing-capable provider is sent down its native path.
pub fn plan_discovery(
    provider: &crate::provider::AiProvider,
    base_url: &Option<String>,
) -> (r: DiscoveryPlan)
    ensures
        !crate::provider::supports_listing(*provider) ==> (r matches DiscoveryPlan::Unsupported {
            response,
        } && !response.success && response.models@.len() == 0 && (
        response.error_message matches Option::Some(m) && m@ == unsupported_listing_message())
            && listing_consistent(response)),
        crate::provider::supports_listing(*provider) && crate::provider::openai_compatible(
            *provider,
        ) ==> (r matches DiscoveryPlan::DirectHttp { url } && url@ == models_url_of(
            *provider,
            *base_url,
        )),
        crate::provider::supports_listing(*provider) && !crate::provider::openai_compatible(
            *provider,
        ) ==> (r matches DiscoveryPlan::ProviderNative { family } && family
            == crate::provider::wire_family_of(*provider)),
{
    if !crate::provider::listing_supported(provider) {
        DiscoveryPlan::Unsupported { response: unsupported_listing_response() }
    } else if crate::provider::openai_compatible_api(provider) {
        DiscoveryPlan::DirectHttp { url: resolved_models_url(provider, base_url) }
    } else {
        DiscoveryPlan::ProviderNative { family: crate::provider::wire_family_for(provider) }
    }
}

} // verus!
