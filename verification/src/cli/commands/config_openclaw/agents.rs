//! What OpenClaw takes for its agents where nothing else is said.

use vstd::prelude::*;
use vstd::string::*;
use crate::cli::commands::config_openclaw::tools;
use crate::cli::commands::report;
use crate::cli::commands::report::CommandError;
#[allow(unused_imports)]
use crate::cli::commands::report::CommandErrorView;
use crate::json::Json;
use crate::text;

verus! {

/// A field that says how agents run.
#[derive(Debug, Clone, Copy, PartialEq, Eq, Structural)]
pub enum OpenClawRuntimeField {
    Workspace,
    TimeoutSeconds,
    ContextTokens,
    MaxConcurrent,
}

/// The defaults as texts that can be changed. A number that was read is kept beside its
/// text, so that it can be written as it was.
#[derive(Debug)]
pub struct AgentsForm {
    pub primary_model: String,
    pub fallbacks: Vec<String>,
    pub workspace: String,
    pub timeout: String,
    pub timeout_seconds_seed: Option<Json>,
    /// Whether the time limit stands under its former name.
    pub has_legacy_timeout: bool,
    pub context_tokens: String,
    pub context_tokens_seed: Option<Json>,
    pub max_concurrent: String,
    pub max_concurrent_seed: Option<Json>,
}

/// The model of [`AgentsForm`].
pub struct FormView {
    pub primary_model: Seq<char>,
    pub fallbacks: Seq<Seq<char>>,
    pub workspace: Seq<char>,
    pub timeout: Seq<char>,
    pub timeout_seconds_seed: Option<Json>,
    pub has_legacy_timeout: bool,
    pub context_tokens: Seq<char>,
    pub context_tokens_seed: Option<Json>,
    pub max_concurrent: Seq<char>,
    pub max_concurrent_seed: Option<Json>,
}

impl View for AgentsForm {
    type V = FormView;

    open spec fn view(&self) -> FormView {
        FormView {
            primary_model: self.primary_model@,
            fallbacks: text::views(self.fallbacks@),
            workspace: self.workspace@,
            timeout: self.timeout@,
            timeout_seconds_seed: self.timeout_seconds_seed,
            has_legacy_timeout: self.has_legacy_timeout,
            context_tokens: self.context_tokens@,
            context_tokens_seed: self.context_tokens_seed,
            max_concurrent: self.max_concurrent@,
            max_concurrent_seed: self.max_concurrent_seed,
        }
    }
}

/// A change of the defaults.
#[derive(Debug)]
pub enum AgentsEdit {
    /// Takes this model first, or none.
    Primary(Option<String>),
    /// Adds a model to fall back to.
    AddFallback(String),
    /// Takes out a model to fall back to, given as it stands in the list.
    RemoveFallback(String),
    /// Takes out all models to fall back to.
    ClearFallbacks,
    /// Sets how agents run.
    SetRuntime(OpenClawRuntimeField, String),
    /// Takes back how agents run.
    UnsetRuntime(OpenClawRuntimeField),
}

/// The defaults once they have been changed.
pub open spec fn changed(form: FormView, edit: AgentsEdit) -> FormView {
    match edit {
        AgentsEdit::Primary(Some(model)) => FormView { primary_model: text::trim(model@), ..form },
        AgentsEdit::Primary(None) => FormView { primary_model: seq![], ..form },
        AgentsEdit::AddFallback(model) => FormView {
            fallbacks: form.fallbacks.push(model@),
            ..form
        },
        AgentsEdit::RemoveFallback(model) => FormView {
            fallbacks: tools::without(form.fallbacks, model@),
            ..form
        },
        AgentsEdit::ClearFallbacks => FormView { fallbacks: seq![], ..form },
        AgentsEdit::SetRuntime(OpenClawRuntimeField::Workspace, value) => FormView {
            workspace: value@,
            ..form
        },
        AgentsEdit::SetRuntime(OpenClawRuntimeField::TimeoutSeconds, value) => FormView {
            timeout: value@,
            ..form
        },
        AgentsEdit::SetRuntime(OpenClawRuntimeField::ContextTokens, value) => FormView {
            context_tokens: value@,
            ..form
        },
        AgentsEdit::SetRuntime(OpenClawRuntimeField::MaxConcurrent, value) => FormView {
            max_concurrent: value@,
            ..form
        },
        AgentsEdit::UnsetRuntime(OpenClawRuntimeField::Workspace) => FormView {
            workspace: seq![],
            ..form
        },
        AgentsEdit::UnsetRuntime(OpenClawRuntimeField::TimeoutSeconds) => FormView {
            timeout: seq![],
            timeout_seconds_seed: None,
            has_legacy_timeout: false,
            ..form
        },
        AgentsEdit::UnsetRuntime(OpenClawRuntimeField::ContextTokens) => FormView {
            context_tokens: seq![],
            context_tokens_seed: None,
            ..form
        },
        AgentsEdit::UnsetRuntime(OpenClawRuntimeField::MaxConcurrent) => FormView {
            max_concurrent: seq![],
            max_concurrent_seed: None,
            ..form
        },
    }
}

/// Whether a change asks for a model without a name.
pub open spec fn names_no_model(edit: AgentsEdit) -> bool {
    edit matches AgentsEdit::Primary(Some(model)) && text::is_blank(model@)
}

/// An empty text.
fn nothing() -> (r: String)
    ensures
        r@ == Seq::<char>::empty(),
{
    let r = String::new();
    assert(r@ =~= Seq::<char>::empty());
    r
}

impl AgentsEdit {
    /// The defaults once they have been changed. A model that is to be taken first must
    /// have a name.
    pub fn apply(&self, form: AgentsForm) -> (r: Result<AgentsForm, CommandError>)
        ensures
            match r {
                Ok(after) => !names_no_model(*self) && after@ == changed(form@, *self),
                Err(error) => names_no_model(*self) && error@ == CommandErrorView::InvalidInput(
                    report::empty_message("model"@),
                ),
            },
    {
        let mut form = form;
        match self {
            AgentsEdit::Primary(Some(model)) => match report::non_empty("model", model.as_str()) {
                Ok(name) => {
                    form.primary_model = name.to_owned();
                },
                Err(error) => {
                    return Err(error);
                },
            },
            AgentsEdit::Primary(None) => {
                form.primary_model = nothing();
            },
            AgentsEdit::AddFallback(model) => {
                let ghost before = form.fallbacks@;
                form.fallbacks.push(model.clone());
                assert(text::views(form.fallbacks@) =~= text::views(before).push(model@));
            },
            AgentsEdit::RemoveFallback(model) => {
                form.fallbacks = tools::texts_without(&form.fallbacks, model.as_str());
            },
            AgentsEdit::ClearFallbacks => {
                form.fallbacks = Vec::new();
                assert(text::views(form.fallbacks@) =~= seq![]);
            },
            AgentsEdit::SetRuntime(field, value) => match field {
                OpenClawRuntimeField::Workspace => {
                    form.workspace = value.clone();
                },
                OpenClawRuntimeField::TimeoutSeconds => {
                    form.timeout = value.clone();
                },
                OpenClawRuntimeField::ContextTokens => {
                    form.context_tokens = value.clone();
                },
                OpenClawRuntimeField::MaxConcurrent => {
                    form.max_concurrent = value.clone();
                },
            },
            AgentsEdit::UnsetRuntime(field) => match field {
                OpenClawRuntimeField::Workspace => {
                    form.workspace = nothing();
                },
                OpenClawRuntimeField::TimeoutSeconds => {
                    form.timeout = nothing();
                    form.timeout_seconds_seed = None;
                    form.has_legacy_timeout = false;
                },
                OpenClawRuntimeField::ContextTokens => {
                    form.context_tokens = nothing();
                    form.context_tokens_seed = None;
                },
                OpenClawRuntimeField::MaxConcurrent => {
                    form.max_concurrent = nothing();
                    form.max_concurrent_seed = None;
                },
            },
        }
        Ok(form)
    }

    /// Whether the defaults may be written after this change: a time limit under its
    /// former name that is not a number stands in the way, unless how agents run is
    /// being set, which writes it under its new name as it is.
    pub fn check_save(&self, has_unmigratable_legacy_timeout: bool) -> (r: Result<(), CommandError>)
        ensures
            r is Err <==> has_unmigratable_legacy_timeout && !(self is SetRuntime),
            r is Err ==> r->Err_0@ == CommandErrorView::InvalidInput(
                "Legacy agents.defaults.timeout must be numeric before saving."@,
            ),
    {
        match self {
            AgentsEdit::SetRuntime(_, _) => Ok(()),
            _ => if has_unmigratable_legacy_timeout {
                Err(
                    CommandError::InvalidInput(
                        "Legacy agents.defaults.timeout must be numeric before saving.".to_owned(),
                    ),
                )
            } else {
                Ok(())
            },
        }
    }
}

/// What was set and then taken back is gone, whatever was there before.
pub proof fn law_unset_undoes_set(form: FormView, field: OpenClawRuntimeField, value: String)
    ensures
        changed(
            changed(form, AgentsEdit::SetRuntime(field, value)),
            AgentsEdit::UnsetRuntime(field),
        ) == changed(form, AgentsEdit::UnsetRuntime(field)),
{
}

/// A change of how agents run leaves the models as they are, and a change of the models
/// leaves how agents run.
pub proof fn law_models_and_runtime_are_apart(form: FormView, edit: AgentsEdit)
    ensures
        edit is SetRuntime || edit is UnsetRuntime ==> {
            &&& changed(form, edit).primary_model == form.primary_model
            &&& changed(form, edit).fallbacks == form.fallbacks
        },
        !(edit is SetRuntime) && !(edit is UnsetRuntime) ==> {
            &&& changed(form, edit).workspace == form.workspace
            &&& changed(form, edit).timeout == form.timeout
            &&& changed(form, edit).context_tokens == form.context_tokens
            &&& changed(form, edit).max_concurrent == form.max_concurrent
        },
{
}

} // verus!
