//! Which tools OpenClaw may use.

use vstd::prelude::*;
use vstd::string::*;
#[allow(unused_imports)]
use crate::json;
use crate::json::Json;
#[allow(unused_imports)]
use crate::json::JsonView;
use crate::text;

verus! {

/// A set of tools that goes by a name.
#[derive(Debug, Clone, Copy, PartialEq, Eq, Structural)]
pub enum OpenClawToolsProfile {
    Minimal,
    Coding,
    Messaging,
    Full,
}

/// The name of a profile.
pub open spec fn profile_name(profile: OpenClawToolsProfile) -> Seq<char> {
    match profile {
        OpenClawToolsProfile::Minimal => "minimal"@,
        OpenClawToolsProfile::Coding => "coding"@,
        OpenClawToolsProfile::Messaging => "messaging"@,
        OpenClawToolsProfile::Full => "full"@,
    }
}

impl OpenClawToolsProfile {
    /// The name of the profile.
    pub fn as_str(self) -> (r: &'static str)
        ensures
            r@ == profile_name(self),
    {
        match self {
            OpenClawToolsProfile::Minimal => "minimal",
            OpenClawToolsProfile::Coding => "coding",
            OpenClawToolsProfile::Messaging => "messaging",
            OpenClawToolsProfile::Full => "full",
        }
    }
}

/// What a list of rules is for.
#[derive(Debug, Clone, Copy, PartialEq, Eq, Structural)]
pub enum ToolsRuleKind {
    Allow,
    Deny,
}

/// The heading of a list of rules.
pub fn rule_label(kind: ToolsRuleKind) -> (r: &'static str)
    ensures
        r@ == (match kind {
            ToolsRuleKind::Allow => "Allow"@,
            ToolsRuleKind::Deny => "Deny"@,
        }),
{
    match kind {
        ToolsRuleKind::Allow => "Allow",
        ToolsRuleKind::Deny => "Deny",
    }
}

/// Which tools OpenClaw may use.
#[derive(Debug)]
pub struct OpenClawToolsConfig {
    pub profile: Option<String>,
    pub allow: Vec<String>,
    pub deny: Vec<String>,
    /// What else is configured, which is left as it is.
    pub extra: Json,
}

/// The model of [`OpenClawToolsConfig`], without what is left as it is.
pub struct ToolsView {
    pub profile: Option<Seq<char>>,
    pub allow: Seq<Seq<char>>,
    pub deny: Seq<Seq<char>>,
}

impl View for OpenClawToolsConfig {
    type V = ToolsView;

    open spec fn view(&self) -> ToolsView {
        ToolsView {
            profile: text::option_view(self.profile),
            allow: text::views(self.allow@),
            deny: text::views(self.deny@),
        }
    }
}

/// Whether anything else is configured.
pub open spec fn holds_anything(extra: JsonView) -> bool {
    extra matches JsonView::Object(fields) && fields != Map::<Seq<char>, JsonView>::empty()
}

impl OpenClawToolsConfig {
    /// Whether anything else is configured.
    pub fn has_extra(&self) -> (r: bool)
        ensures
            r == holds_anything(self.extra@),
    {
        match &self.extra {
            Json::Object(fields) => {
                proof {
                    let views = json::field_views(fields@);
                    if views.len() > 0 {
                        assert(json::field_map(views).dom().contains(views.last().0));
                    } else {
                        assert(json::field_map(views) =~= Map::empty());
                    }
                }
                fields.len() > 0
            },
            _ => false,
        }
    }
}

/// Rules without white space around them, and without those that are blank.
pub open spec fn tidy(rules: Seq<Seq<char>>) -> Seq<Seq<char>>
    decreases rules.len(),
{
    if rules.len() == 0 {
        seq![]
    } else {
        let earlier = tidy(rules.drop_last());
        if text::is_blank(rules.last()) {
            earlier
        } else {
            earlier.push(text::trim(rules.last()))
        }
    }
}

/// Rules without those that are just `rule`.
pub open spec fn without(rules: Seq<Seq<char>>, rule: Seq<char>) -> Seq<Seq<char>>
    decreases rules.len(),
{
    if rules.len() == 0 {
        seq![]
    } else {
        let earlier = without(rules.drop_last(), rule);
        if rules.last() == rule {
            earlier
        } else {
            earlier.push(rules.last())
        }
    }
}

/// Rules without white space around them, and without those that are blank.
pub fn tidy_rules(rules: &Vec<String>) -> (r: Vec<String>)
    ensures
        text::views(r@) == tidy(text::views(rules@)),
{
    let ghost all = text::views(rules@);
    let mut r: Vec<String> = Vec::new();
    assert(text::views(r@) =~= tidy(all.take(0)));
    let mut i: usize = 0;
    while i < rules.len()
        invariant
            i <= rules@.len(),
            all == text::views(rules@),
            text::views(r@) == tidy(all.take(i as int)),
        decreases rules@.len() - i,
    {
        assert(all[i as int] == rules@[i as int]@);
        assert(all.take(i + 1).drop_last() =~= all.take(i as int));
        if !text::blank(rules[i].as_str()) {
            let ghost before = r@;
            r.push(text::trimmed(rules[i].as_str()).to_owned());
            assert(text::views(r@) =~= text::views(before).push(text::trim(all[i as int])));
        }
        i = i + 1;
    }
    assert(all.take(i as int) =~= all);
    r
}

/// Texts without those that are just `wanted`.
pub fn texts_without(texts: &Vec<String>, wanted: &str) -> (r: Vec<String>)
    ensures
        text::views(r@) == without(text::views(texts@), wanted@),
{
    let ghost all = text::views(texts@);
    let mut r: Vec<String> = Vec::new();
    assert(text::views(r@) =~= without(all.take(0), wanted@));
    let mut i: usize = 0;
    while i < texts.len()
        invariant
            i <= texts@.len(),
            all == text::views(texts@),
            text::views(r@) == without(all.take(i as int), wanted@),
        decreases texts@.len() - i,
    {
        assert(all[i as int] == texts@[i as int]@);
        assert(all.take(i + 1).drop_last() =~= all.take(i as int));
        if !text::same_text(texts[i].as_str(), wanted) {
            let ghost before = r@;
            r.push(texts[i].clone());
            assert(text::views(r@) =~= text::views(before).push(all[i as int]));
        }
        i = i + 1;
    }
    assert(all.take(i as int) =~= all);
    r
}

/// A change of which tools OpenClaw may use.
#[derive(Debug)]
pub enum ToolsEdit {
    /// Takes this profile, or none.
    Profile(Option<OpenClawToolsProfile>),
    /// Adds a rule.
    Add(ToolsRuleKind, String),
    /// Takes out a rule, given as it stands in the list.
    Remove(ToolsRuleKind, String),
    /// Takes out all rules.
    Clear(ToolsRuleKind),
}

/// Which tools OpenClaw may use, with tidy lists.
pub open spec fn tidied(tools: ToolsView) -> ToolsView {
    ToolsView { profile: tools.profile, allow: tidy(tools.allow), deny: tidy(tools.deny) }
}

/// A configuration with another list of rules.
pub open spec fn with_rules(tools: ToolsView, kind: ToolsRuleKind, rules: Seq<Seq<char>>) -> ToolsView {
    match kind {
        ToolsRuleKind::Allow => ToolsView { allow: rules, ..tools },
        ToolsRuleKind::Deny => ToolsView { deny: rules, ..tools },
    }
}

/// The list of rules of a kind.
pub open spec fn rules_of(tools: ToolsView, kind: ToolsRuleKind) -> Seq<Seq<char>> {
    match kind {
        ToolsRuleKind::Allow => tools.allow,
        ToolsRuleKind::Deny => tools.deny,
    }
}

/// A configuration once it has been changed, before its lists are tidied.
pub open spec fn changed(tools: ToolsView, edit: ToolsEdit) -> ToolsView {
    match edit {
        ToolsEdit::Profile(profile) => ToolsView {
            profile: match profile {
                Some(profile) => Some(profile_name(profile)),
                None => None,
            },
            ..tools
        },
        ToolsEdit::Add(kind, rule) => with_rules(tools, kind, rules_of(tools, kind).push(rule@)),
        ToolsEdit::Remove(kind, rule) => with_rules(
            tools,
            kind,
            without(rules_of(tools, kind), rule@),
        ),
        ToolsEdit::Clear(kind) => with_rules(tools, kind, seq![]),
    }
}

/// The list of rules of a kind.
pub fn rule_list(tools: &OpenClawToolsConfig, kind: ToolsRuleKind) -> (r: &Vec<String>)
    ensures
        text::views(r@) == rules_of(tools@, kind),
{
    match kind {
        ToolsRuleKind::Allow => &tools.allow,
        ToolsRuleKind::Deny => &tools.deny,
    }
}

/// A configuration with tidy lists.
pub fn normalize_tools_config(tools: OpenClawToolsConfig) -> (r: OpenClawToolsConfig)
    ensures
        r@ == tidied(tools@),
        r.extra == tools.extra,
{
    OpenClawToolsConfig {
        profile: tools.profile,
        allow: tidy_rules(&tools.allow),
        deny: tidy_rules(&tools.deny),
        extra: tools.extra,
    }
}

/// A configuration with another list of rules.
fn put_rules(tools: OpenClawToolsConfig, kind: ToolsRuleKind, rules: Vec<String>) -> (r:
    OpenClawToolsConfig)
    ensures
        r@ == with_rules(tools@, kind, text::views(rules@)),
        r.extra == tools.extra,
{
    match kind {
        ToolsRuleKind::Allow => OpenClawToolsConfig { allow: rules, ..tools },
        ToolsRuleKind::Deny => OpenClawToolsConfig { deny: rules, ..tools },
    }
}

impl ToolsEdit {
    /// The configuration once it has been changed, with tidy lists.
    pub fn apply(&self, tools: OpenClawToolsConfig) -> (r: OpenClawToolsConfig)
        ensures
            r@ == tidied(changed(tools@, *self)),
            r.extra == tools.extra,
    {
        let edited = match self {
            ToolsEdit::Profile(profile) => {
                let profile = match profile {
                    Some(profile) => Some(profile.as_str().to_owned()),
                    None => None,
                };
                OpenClawToolsConfig { profile, ..tools }
            },
            ToolsEdit::Add(kind, rule) => {
                let mut rules = text::copy_texts(rule_list(&tools, *kind));
                let ghost before = rules@;
                rules.push(rule.clone());
                assert(text::views(rules@) =~= text::views(before).push(rule@));
                put_rules(tools, *kind, rules)
            },
            ToolsEdit::Remove(kind, rule) => {
                let rules = texts_without(rule_list(&tools, *kind), rule.as_str());
                put_rules(tools, *kind, rules)
            },
            ToolsEdit::Clear(kind) => {
                let rules: Vec<String> = Vec::new();
                assert(text::views(rules@) =~= seq![]);
                put_rules(tools, *kind, rules)
            },
        };
        normalize_tools_config(edited)
    }
}

proof fn lemma_tidy_push(rules: Seq<Seq<char>>, rule: Seq<char>)
    ensures
        tidy(rules.push(rule)) == (if text::is_blank(rule) {
            tidy(rules)
        } else {
            tidy(rules).push(text::trim(rule))
        }),
{
    assert(rules.push(rule).drop_last() =~= rules);
}

proof fn lemma_tidy_is_tidy(rules: Seq<Seq<char>>)
    ensures
        forall|i: int|
            0 <= i < tidy(rules).len() ==> !text::is_blank(#[trigger] tidy(rules)[i])
                && text::trim(tidy(rules)[i]) == tidy(rules)[i],
    decreases rules.len(),
{
    if rules.len() > 0 {
        lemma_tidy_is_tidy(rules.drop_last());
        lemma_trim_twice(rules.last());
        let earlier = tidy(rules.drop_last());
        assert forall|i: int| 0 <= i < tidy(rules).len() implies !text::is_blank(
            #[trigger] tidy(rules)[i],
        ) && text::trim(tidy(rules)[i]) == tidy(rules)[i] by {
            if i < earlier.len() {
                assert(tidy(rules)[i] == earlier[i]);
            }
        }
    }
}

proof fn lemma_trim_end_twice(t: Seq<char>)
    ensures
        text::trim_end(text::trim_end(t)) == text::trim_end(t),
    decreases t.len(),
{
    if t.len() > 0 && text::is_white_space(t.last()) {
        lemma_trim_end_twice(t.drop_last());
    }
}

proof fn lemma_trim_end_keeps_start(t: Seq<char>)
    requires
        t.len() > 0 ==> !text::is_white_space(t[0]),
    ensures
        text::trim_start(text::trim_end(t)) == text::trim_end(t),
    decreases t.len(),
{
    if t.len() > 0 && text::is_white_space(t.last()) {
        if t.len() > 1 {
            assert(t.drop_last()[0] == t[0]);
        }
        lemma_trim_end_keeps_start(t.drop_last());
    }
}

proof fn lemma_trim_start_starts(t: Seq<char>)
    ensures
        text::trim_start(t).len() > 0 ==> !text::is_white_space(text::trim_start(t)[0]),
    decreases t.len(),
{
    if t.len() > 0 && text::is_white_space(t[0]) {
        lemma_trim_start_starts(t.skip(1));
    }
}

proof fn lemma_trim_twice(t: Seq<char>)
    ensures
        text::trim(text::trim(t)) == text::trim(t),
{
    lemma_trim_start_starts(t);
    lemma_trim_end_twice(text::trim_start(t));
    lemma_trim_end_keeps_start(text::trim_start(t));
}

/// What is written has no blank rule, and no rule with white space around it.
pub proof fn law_written_rules_are_tidy(tools: ToolsView, edit: ToolsEdit, kind: ToolsRuleKind, i: int)
    requires
        0 <= i < rules_of(tidied(changed(tools, edit)), kind).len(),
    ensures
        ({
            let rule = rules_of(tidied(changed(tools, edit)), kind)[i];
            !text::is_blank(rule) && text::trim(rule) == rule
        }),
{
    lemma_tidy_is_tidy(rules_of(changed(tools, edit), kind));
}

/// A change of one list leaves the other as it is, but for tidying it.
pub proof fn law_other_rules_stay(tools: ToolsView, edit: ToolsEdit)
    ensures
        match edit {
            ToolsEdit::Profile(_) => {
                &&& tidied(changed(tools, edit)).allow == tidy(tools.allow)
                &&& tidied(changed(tools, edit)).deny == tidy(tools.deny)
            },
            ToolsEdit::Add(ToolsRuleKind::Allow, _) => tidied(changed(tools, edit)).deny == tidy(
                tools.deny,
            ),
            ToolsEdit::Add(ToolsRuleKind::Deny, _) => tidied(changed(tools, edit)).allow == tidy(
                tools.allow,
            ),
            ToolsEdit::Remove(ToolsRuleKind::Allow, _) => tidied(changed(tools, edit)).deny
                == tidy(tools.deny),
            ToolsEdit::Remove(ToolsRuleKind::Deny, _) => tidied(changed(tools, edit)).allow
                == tidy(tools.allow),
            ToolsEdit::Clear(ToolsRuleKind::Allow) => tidied(changed(tools, edit)).deny == tidy(
                tools.deny,
            ),
            ToolsEdit::Clear(ToolsRuleKind::Deny) => tidied(changed(tools, edit)).allow == tidy(
                tools.allow,
            ),
        },
{
}

/// A rule that was added is the last one of its list.
pub proof fn law_an_added_rule_is_last(tools: ToolsView, kind: ToolsRuleKind, rule: String)
    requires
        !text::is_blank(rule@),
    ensures
        rules_of(tidied(changed(tools, ToolsEdit::Add(kind, rule))), kind) == tidy(
            rules_of(tools, kind),
        ).push(text::trim(rule@)),
{
    lemma_tidy_push(rules_of(tools, kind), rule@);
}

} // verus!
