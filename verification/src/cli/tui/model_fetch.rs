//! Asking a provider which models it offers.

use vstd::prelude::*;
use vstd::string::*;
use crate::json::Json;
#[allow(unused_imports)]
use crate::json;
#[allow(unused_imports)]
use crate::json::JsonView;
use crate::text;

verus! {

/// A field of the form of a provider that takes models.
#[derive(Debug, Clone, Copy, PartialEq, Eq, Structural)]
pub enum ProviderAddField {
    ClaudeModelConfig,
    CodexModel,
    GeminiModel,
    HermesModels,
}

/// How a provider is asked.
#[derive(Debug, Clone, Copy, PartialEq, Eq, Structural)]
pub enum ModelFetchStrategy {
    /// With a bearer token.
    Bearer,
    /// As Anthropic is.
    Anthropic,
    /// With a Google API key.
    GoogleApiKey,
}

/// How the provider of a field is asked.
pub open spec fn strategy_of(field: ProviderAddField) -> ModelFetchStrategy {
    match field {
        ProviderAddField::ClaudeModelConfig => ModelFetchStrategy::Anthropic,
        ProviderAddField::CodexModel => ModelFetchStrategy::Bearer,
        ProviderAddField::GeminiModel => ModelFetchStrategy::GoogleApiKey,
        ProviderAddField::HermesModels => ModelFetchStrategy::Bearer,
    }
}

/// How the provider of a field is asked.
pub fn model_fetch_strategy_for_field(field: ProviderAddField) -> (r: ModelFetchStrategy)
    ensures
        r == strategy_of(field),
{
    match field {
        ProviderAddField::ClaudeModelConfig => ModelFetchStrategy::Anthropic,
        ProviderAddField::CodexModel => ModelFetchStrategy::Bearer,
        ProviderAddField::GeminiModel => ModelFetchStrategy::GoogleApiKey,
        ProviderAddField::HermesModels => ModelFetchStrategy::Bearer,
    }
}

/// The addresses at which a provider may list its models, the likeliest first.
pub open spec fn candidates(base: Seq<char>, strategy: ModelFetchStrategy) -> Seq<Seq<char>> {
    let suffix = "/anthropic"@;
    if strategy == ModelFetchStrategy::GoogleApiKey {
        seq![base + "/models"@]
    } else if strategy == ModelFetchStrategy::Anthropic && text::ends_with(base, suffix) {
        let root = base.take(base.len() - suffix.len());
        seq![base + "/v1/models"@, root + "/v1/models"@, root + "/models"@]
    } else {
        seq![base + "/v1/models"@, base + "/models"@]
    }
}

/// Adds an address.
fn push_url(urls: &mut Vec<String>, base: &str, path: &str)
    ensures
        text::views(final(urls)@) == text::views(old(urls)@).push(base@ + path@),
{
    let ghost before = urls@;
    urls.push(text::concat2(base, path));
    assert(text::views(urls@) =~= text::views(before).push(base@ + path@));
}

/// The addresses at which a provider may list its models, the likeliest first. What
/// speaks the protocol of Anthropic below a path of that name may list its models
/// beside that path.
pub fn build_model_fetch_candidate_urls(base: &str, strategy: ModelFetchStrategy) -> (r: Vec<
    String,
>)
    ensures
        text::views(r@) == candidates(base@, strategy),
{
    let mut urls: Vec<String> = Vec::new();
    assert(text::views(urls@) =~= seq![]);
    if strategy == ModelFetchStrategy::GoogleApiKey {
        push_url(&mut urls, base, "/models");
    } else if strategy == ModelFetchStrategy::Anthropic && text::has_suffix(base, "/anthropic") {
        let chars = text::chars_of(base);
        proof {
            reveal_strlit("/anthropic");
        }
        let root = text::text_of(&chars, 0, chars.len() - 10);
        assert(root@ =~= base@.take(base@.len() - 10));
        push_url(&mut urls, base, "/v1/models");
        push_url(&mut urls, root.as_str(), "/v1/models");
        push_url(&mut urls, root.as_str(), "/models");
    } else {
        push_url(&mut urls, base, "/v1/models");
        push_url(&mut urls, base, "/models");
    }
    assert(text::views(urls@) =~= candidates(base@, strategy));
    urls
}

/// The items of a list in a field of an answer.
pub open spec fn list_in(answer: JsonView, name: Seq<char>) -> Option<Seq<JsonView>> {
    match answer.field(name) {
        Some(JsonView::Array(items)) => Some(items),
        _ => None,
    }
}

/// The name of a model, in either of the forms in which providers list them.
pub open spec fn model_name(item: JsonView, gemini: bool) -> Option<Seq<char>> {
    if gemini {
        match json::field_text(item, "name"@) {
            Some(name) => match text::strip_prefix(name, "models/"@) {
                Some(short) => Some(short),
                None => Some(name),
            },
            None => None,
        }
    } else {
        json::field_text(item, "id"@)
    }
}

/// The names of the first `n` models, each once, where it is first named.
pub open spec fn model_names(items: Seq<JsonView>, gemini: bool, n: int) -> Seq<Seq<char>>
    decreases n,
{
    if n <= 0 || n > items.len() {
        seq![]
    } else {
        let earlier = model_names(items, gemini, n - 1);
        match model_name(items[n - 1], gemini) {
            Some(name) => if earlier.contains(name) {
                earlier
            } else {
                earlier.push(name)
            },
            None => earlier,
        }
    }
}

/// The names of the models that an answer lists.
pub open spec fn models_in(answer: JsonView) -> Seq<Seq<char>> {
    match list_in(answer, "data"@) {
        Some(items) => model_names(items, false, items.len() as int),
        None => match list_in(answer, "models"@) {
            Some(items) => model_names(items, true, items.len() as int),
            None => seq![],
        },
    }
}

/// Whether a text is one of a list.
fn is_among(texts: &Vec<String>, wanted: &str) -> (r: bool)
    ensures
        r == text::views(texts@).contains(wanted@),
{
    let mut i: usize = 0;
    while i < texts.len()
        invariant
            i <= texts@.len(),
            forall|k: int| 0 <= k < i ==> (#[trigger] texts@[k])@ != wanted@,
        decreases texts@.len() - i,
    {
        if text::same_text(texts[i].as_str(), wanted) {
            assert(text::views(texts@)[i as int] == wanted@);
            return true;
        }
        i = i + 1;
    }
    proof {
        if text::views(texts@).contains(wanted@) {
            let k = choose|k: int|
                0 <= k < text::views(texts@).len() && text::views(texts@)[k] == wanted@;
            assert(texts@[k]@ == wanted@);
        }
    }
    false
}

/// The name of a model.
fn read_model_name<'a>(item: &'a Json, gemini: bool) -> (r: Option<&'a str>)
    ensures
        json::option_text(r) == model_name(item@, gemini),
{
    if gemini {
        match item.get_str("name") {
            Some(name) => match text::after_prefix(name, "models/") {
                Some(short) => Some(short),
                None => Some(name),
            },
            None => None,
        }
    } else {
        item.get_str("id")
    }
}

/// The names of models, each once, where it is first named.
fn read_model_names(items: &Vec<Json>, gemini: bool) -> (r: Vec<String>)
    ensures
        text::views(r@) == model_names(
            json::item_views(items@),
            gemini,
            items@.len() as int,
        ),
{
    let ghost views = json::item_views(items@);
    let mut r: Vec<String> = Vec::new();
    assert(text::views(r@) =~= seq![]);
    let mut i: usize = 0;
    while i < items.len()
        invariant
            i <= items@.len() == views.len(),
            views == json::item_views(items@),
            text::views(r@) == model_names(views, gemini, i as int),
        decreases items@.len() - i,
    {
        assert(views[i as int] == items@[i as int]@);
        if let Some(name) = read_model_name(&items[i], gemini) {
            if !is_among(&r, name) {
                let ghost before = r@;
                r.push(name.to_owned());
                assert(text::views(r@) =~= text::views(before).push(name@));
            }
        }
        i = i + 1;
    }
    r
}

/// The names of the models that an answer lists, each once, where it is first named.
pub fn parse_model_ids_from_response(answer: &Json) -> (r: Vec<String>)
    ensures
        text::views(r@) == models_in(answer@),
{
    if let Some(Json::Array(items)) = answer.get("data") {
        return read_model_names(items, false);
    }
    if let Some(Json::Array(items)) = answer.get("models") {
        return read_model_names(items, true);
    }
    let r: Vec<String> = Vec::new();
    assert(text::views(r@) =~= seq![]);
    r
}

proof fn lemma_names_are_distinct(items: Seq<JsonView>, gemini: bool, n: int)
    requires
        0 <= n <= items.len(),
    ensures
        model_names(items, gemini, n).no_duplicates(),
    decreases n,
{
    if n > 0 {
        lemma_names_are_distinct(items, gemini, n - 1);
    }
}

/// No model is listed twice.
pub proof fn law_models_are_listed_once(answer: JsonView)
    ensures
        models_in(answer).no_duplicates(),
{
    if let Some(items) = list_in(answer, "data"@) {
        lemma_names_are_distinct(items, false, items.len() as int);
    } else if let Some(items) = list_in(answer, "models"@) {
        lemma_names_are_distinct(items, true, items.len() as int);
    }
}

} // verus!
