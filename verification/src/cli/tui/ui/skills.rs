//! The skills that are installed, and the repositories that skills come from.

use vstd::prelude::*;
use vstd::string::*;
use crate::app_type::{AppLabels, EnabledApps};
use crate::text;

verus! {

/// An installed skill.
#[derive(Debug)]
pub struct InstalledSkill {
    pub id: String,
    pub name: String,
    pub directory: String,
    pub description: Option<String>,
    pub apps: EnabledApps,
    pub repo_owner: Option<String>,
    pub repo_name: Option<String>,
    pub readme_url: Option<String>,
}

/// The model of [`InstalledSkill`].
pub struct SkillView {
    pub id: Seq<char>,
    pub name: Seq<char>,
    pub directory: Seq<char>,
    pub description: Option<Seq<char>>,
    pub apps: EnabledApps,
    pub repo_owner: Option<Seq<char>>,
    pub repo_name: Option<Seq<char>>,
    pub readme_url: Option<Seq<char>>,
}

impl View for InstalledSkill {
    type V = SkillView;

    open spec fn view(&self) -> SkillView {
        SkillView {
            id: self.id@,
            name: self.name@,
            directory: self.directory@,
            description: text::option_view(self.description),
            apps: self.apps,
            repo_owner: text::option_view(self.repo_owner),
            repo_name: text::option_view(self.repo_name),
            readme_url: text::option_view(self.readme_url),
        }
    }
}

/// The models of skills.
pub open spec fn skill_views(skills: Seq<InstalledSkill>) -> Seq<SkillView> {
    Seq::new(skills.len(), |i: int| skills[i]@)
}

/// The numbers that indices stand for.
pub open spec fn index_views(indices: Seq<usize>) -> Seq<int> {
    Seq::new(indices.len(), |i: int| indices[i] as int)
}

/// Whether a text, in small letters, holds what is searched for.
pub open spec fn holds(text: Seq<char>, part: Seq<char>) -> bool {
    text::contains(text::lowercase(text), part)
}

/// Whether a text, in small letters, holds what is searched for.
fn text_holds(text: &str, part: &str) -> (r: bool)
    ensures
        r == holds(text@, part@),
{
    text::has_part(text.to_lowercase().as_str(), part)
}

/// Whether a skill is shown while a search is on.
pub open spec fn skill_matches(skill: SkillView, query: Option<Seq<char>>) -> bool {
    match query {
        None => true,
        Some(part) => {
            ||| holds(skill.name, part)
            ||| holds(skill.directory, part)
            ||| holds(skill.id, part)
        },
    }
}

/// The skills, of the first `n`, that are shown.
pub open spec fn skills_shown(skills: Seq<SkillView>, query: Option<Seq<char>>, n: int) -> Seq<int>
    decreases n,
{
    if n <= 0 || n > skills.len() {
        seq![]
    } else if skill_matches(skills[n - 1], query) {
        skills_shown(skills, query, n - 1).push(n - 1)
    } else {
        skills_shown(skills, query, n - 1)
    }
}

/// The skills whose name, directory or identifier holds what is searched for, which is
/// in small letters; all of them without a search.
pub fn skills_installed_filtered(skills: &Vec<InstalledSkill>, query: &Option<String>) -> (r: Vec<
    usize,
>)
    ensures
        index_views(r@) == skills_shown(
            skill_views(skills@),
            text::option_view(*query),
            skills@.len() as int,
        ),
{
    let ghost views = skill_views(skills@);
    let mut r: Vec<usize> = Vec::new();
    let mut i: usize = 0;
    while i < skills.len()
        invariant
            i <= skills@.len(),
            views == skill_views(skills@),
            index_views(r@) == skills_shown(views, text::option_view(*query), i as int),
        decreases skills@.len() - i,
    {
        assert(views[i as int] == skills@[i as int]@);
        let skill = &skills[i];
        let matches = match query {
            None => true,
            Some(part) => {
                text_holds(skill.name.as_str(), part.as_str())
                    || text_holds(skill.directory.as_str(), part.as_str())
                    || text_holds(skill.id.as_str(), part.as_str())
            },
        };
        if matches {
            let ghost before = r@;
            r.push(i);
            assert(index_views(r@) =~= index_views(before).push(i as int));
        }
        i = i + 1;
    }
    r
}

/// The name under which a skill is shown: its own, without white space around it, or
/// that of its directory where it has none.
pub fn skill_display_name<'a>(name: &'a str, directory: &'a str) -> (r: &'a str)
    ensures
        r@ == (if text::is_blank(name@) {
            directory@
        } else {
            text::trim(name@)
        }),
{
    if text::blank(name) {
        directory
    } else {
        text::trimmed(name)
    }
}

/// The names of the applications that a skill is enabled for.
pub open spec fn enabled_names(apps: EnabledApps, labels: AppLabels) -> Seq<Seq<char>> {
    let none: Seq<Seq<char>> = seq![];
    let names = if apps.claude {
        none.push(labels.claude@)
    } else {
        none
    };
    let names = if apps.codex {
        names.push(labels.codex@)
    } else {
        names
    };
    let names = if apps.gemini {
        names.push(labels.gemini@)
    } else {
        names
    };
    let names = if apps.opencode {
        names.push(labels.opencode@)
    } else {
        names
    };
    if apps.hermes {
        names.push(labels.hermes@)
    } else {
        names
    }
}

/// The names of the applications that a skill is enabled for, in one text; none where
/// there is none.
pub open spec fn enabled_text(apps: EnabledApps, labels: AppLabels) -> Option<Seq<char>> {
    if enabled_names(apps, labels).len() == 0 {
        None
    } else {
        Some(text::join(enabled_names(apps, labels), ", "@))
    }
}

/// Adds a name where it applies.
fn push_name(names: &mut Vec<String>, applies: bool, name: &str)
    ensures
        text::views(final(names)@) == (if applies {
            text::views(old(names)@).push(name@)
        } else {
            text::views(old(names)@)
        }),
{
    if applies {
        let ghost before = names@;
        names.push(name.to_owned());
        assert(text::views(names@) =~= text::views(before).push(name@));
    }
}

/// The names of the applications that a skill is enabled for; none where there is none.
pub fn enabled_skill_apps_text(apps: &EnabledApps, labels: &AppLabels) -> (r: Option<String>)
    ensures
        text::option_view(r) == enabled_text(*apps, *labels),
{
    let mut names: Vec<String> = Vec::new();
    assert(text::views(names@) =~= seq![]);
    push_name(&mut names, apps.claude, labels.claude.as_str());
    push_name(&mut names, apps.codex, labels.codex.as_str());
    push_name(&mut names, apps.gemini, labels.gemini.as_str());
    push_name(&mut names, apps.opencode, labels.opencode.as_str());
    push_name(&mut names, apps.hermes, labels.hermes.as_str());
    assert(text::views(names@).len() == names@.len());
    if names.len() == 0 {
        None
    } else {
        Some(text::joined(&names, ", "))
    }
}

/// What is said of a skill.
#[derive(Debug, Clone, Copy, PartialEq, Eq, Structural)]
pub enum DetailLabel {
    Directory,
    Name,
    Repository,
    Readme,
}

/// A line of what is said of a skill.
#[derive(Debug)]
pub enum DetailLine {
    Blank,
    /// A label and what stands behind it.
    Field(DetailLabel, String),
    /// The label above the description.
    DescriptionLabel,
    /// A line of the description.
    Plain(String),
    /// The label of the applications and what stands behind it; none where the skill
    /// is enabled for none.
    EnabledFor(Option<String>),
}

/// The model of [`DetailLine`].
pub enum LineView {
    Blank,
    Field(DetailLabel, Seq<char>),
    DescriptionLabel,
    Plain(Seq<char>),
    EnabledFor(Option<Seq<char>>),
}

impl View for DetailLine {
    type V = LineView;

    open spec fn view(&self) -> LineView {
        match *self {
            DetailLine::Blank => LineView::Blank,
            DetailLine::Field(label, value) => LineView::Field(label, value@),
            DetailLine::DescriptionLabel => LineView::DescriptionLabel,
            DetailLine::Plain(line) => LineView::Plain(line@),
            DetailLine::EnabledFor(names) => LineView::EnabledFor(text::option_view(names)),
        }
    }
}

/// The models of lines.
pub open spec fn line_views(lines: Seq<DetailLine>) -> Seq<LineView> {
    Seq::new(lines.len(), |i: int| lines[i]@)
}

/// The lines of a description, with what stands above them.
pub open spec fn description_lines(description: Option<Seq<char>>) -> Seq<LineView> {
    match description {
        Some(words) => if text::is_blank(words) {
            seq![]
        } else {
            seq![LineView::Blank, LineView::DescriptionLabel] + text::lines(words).map_values(
                |line: Seq<char>| LineView::Plain(line),
            )
        },
        None => seq![],
    }
}

/// The line on the repository that a skill comes from.
pub open spec fn repository_lines(owner: Option<Seq<char>>, name: Option<Seq<char>>) -> Seq<LineView> {
    match (owner, name) {
        (Some(owner), Some(name)) => seq![
            LineView::Field(DetailLabel::Repository, owner + "/"@ + name),
        ],
        _ => seq![],
    }
}

/// The line on where a skill is described.
pub open spec fn readme_lines(url: Option<Seq<char>>) -> Seq<LineView> {
    match url {
        Some(url) => if text::is_blank(url) {
            seq![]
        } else {
            seq![LineView::Field(DetailLabel::Readme, url)]
        },
        None => seq![],
    }
}

/// What is said of a skill.
pub open spec fn detail(skill: SkillView, labels: AppLabels) -> Seq<LineView> {
    seq![
        LineView::Field(DetailLabel::Directory, skill.directory),
        LineView::Field(DetailLabel::Name, skill.name),
    ] + description_lines(skill.description) + seq![
        LineView::Blank,
        LineView::EnabledFor(enabled_text(skill.apps, labels)),
    ] + repository_lines(skill.repo_owner, skill.repo_name) + readme_lines(skill.readme_url)
}

/// The first skill, from `from` on, in a directory, whose name may differ in the case
/// of ASCII letters.
pub open spec fn skill_in(skills: Seq<SkillView>, directory: Seq<char>, from: int) -> Option<SkillView>
    decreases skills.len() - from,
{
    if from < 0 || from >= skills.len() {
        None
    } else if text::same_but_for_case(skills[from].directory, directory) {
        Some(skills[from])
    } else {
        skill_in(skills, directory, from + 1)
    }
}

/// Adds a line.
fn push_line(lines: &mut Vec<DetailLine>, line: DetailLine)
    ensures
        line_views(final(lines)@) == line_views(old(lines)@).push(line@),
{
    let ghost before = lines@;
    lines.push(line);
    assert(line_views(lines@) =~= line_views(before).push(line@));
}

/// Adds the lines of a description.
fn push_description(lines: &mut Vec<DetailLine>, description: &Option<String>)
    ensures
        line_views(final(lines)@) == line_views(old(lines)@) + description_lines(
            text::option_view(*description),
        ),
{
    let ghost start = line_views(lines@);
    match description {
        Some(words) => {
            if text::blank(words.as_str()) {
                assert(start + description_lines(Some(words@)) =~= start);
                return;
            }
            push_line(lines, DetailLine::Blank);
            push_line(lines, DetailLine::DescriptionLabel);
            let ghost head = start.push(LineView::Blank).push(LineView::DescriptionLabel);
            let plain = text::lines_of(words.as_str());
            let ghost all = text::lines(words@).map_values(
                |line: Seq<char>| LineView::Plain(line),
            );
            let mut i: usize = 0;
            assert(line_views(lines@) =~= head + all.take(0));
            while i < plain.len()
                invariant
                    i <= plain@.len(),
                    text::views(plain@) == text::lines(words@),
                    all == text::lines(words@).map_values(
                        |line: Seq<char>| LineView::Plain(line),
                    ),
                    line_views(lines@) == head + all.take(i as int),
                decreases plain@.len() - i,
            {
                assert(text::views(plain@)[i as int] == plain@[i as int]@);
                assert(all[i as int] == LineView::Plain(plain@[i as int]@));
                push_line(lines, DetailLine::Plain(plain[i].clone()));
                assert(all.take(i + 1) =~= all.take(i as int).push(all[i as int]));
                assert(line_views(lines@) =~= head + all.take(i + 1));
                i = i + 1;
            }
            assert(text::views(plain@).len() == plain@.len());
            assert(all.take(i as int) =~= all);
            assert(line_views(lines@) =~= start + description_lines(Some(words@)));
        },
        None => {
            assert(start + description_lines(None) =~= start);
        },
    }
}

/// What a key does where a skill is shown.
#[derive(Debug, Clone, Copy, PartialEq, Eq, Structural)]
pub enum SkillKey {
    Toggle,
    Apps,
    Uninstall,
    Sync,
}

/// The key that does something where a skill is shown.
pub open spec fn skill_key_name(key: SkillKey) -> Seq<char> {
    match key {
        SkillKey::Toggle => "Space"@,
        SkillKey::Apps => "m"@,
        SkillKey::Uninstall => "d"@,
        SkillKey::Sync => "s"@,
    }
}

impl SkillKey {
    /// The key that does it.
    pub fn name(self) -> (r: &'static str)
        ensures
            r@ == skill_key_name(self),
    {
        match self {
            SkillKey::Toggle => "Space",
            SkillKey::Apps => "m",
            SkillKey::Uninstall => "d",
            SkillKey::Sync => "s",
        }
    }
}

/// The keys that are shown above what is said of a skill: only while the page has the
/// focus.
pub open spec fn skill_keys(focused: bool) -> Seq<SkillKey> {
    if focused {
        seq![SkillKey::Toggle, SkillKey::Apps, SkillKey::Uninstall, SkillKey::Sync]
    } else {
        seq![]
    }
}

/// A skill as it is shown.
#[derive(Debug)]
pub struct SkillScreen {
    pub keys: Vec<SkillKey>,
    pub lines: Vec<DetailLine>,
}

/// The skill in a directory as it is shown; none where there is no such skill.
pub fn render_skill_detail(
    skills: &Vec<InstalledSkill>,
    directory: &str,
    labels: &AppLabels,
    focused: bool,
) -> (r: Option<SkillScreen>)
    ensures
        match skill_in(skill_views(skills@), directory@, 0) {
            Some(skill) => {
                &&& r is Some
                &&& r->Some_0.keys@ == skill_keys(focused)
                &&& line_views(r->Some_0.lines@) == detail(skill, *labels)
            },
            None => r is None,
        },
{
    let ghost views = skill_views(skills@);
    let mut i: usize = 0;
    while i < skills.len()
        invariant
            i <= skills@.len(),
            views == skill_views(skills@),
            skill_in(views, directory@, 0) == skill_in(views, directory@, i as int),
        decreases skills@.len() - i,
    {
        assert(views[i as int] == skills@[i as int]@);
        if text::same_text_but_for_case(skills[i].directory.as_str(), directory) {
            let mut keys: Vec<SkillKey> = Vec::new();
            if focused {
                keys.push(SkillKey::Toggle);
                keys.push(SkillKey::Apps);
                keys.push(SkillKey::Uninstall);
                keys.push(SkillKey::Sync);
            }
            assert(keys@ =~= skill_keys(focused));
            return Some(SkillScreen { keys, lines: skill_lines(&skills[i], labels) });
        }
        i = i + 1;
    }
    None
}

/// What is said of a skill.
pub fn skill_lines(skill: &InstalledSkill, labels: &AppLabels) -> (r: Vec<DetailLine>)
    ensures
        line_views(r@) == detail(skill@, *labels),
{
    let mut lines: Vec<DetailLine> = Vec::new();
    assert(line_views(lines@) =~= seq![]);
    push_line(&mut lines, DetailLine::Field(DetailLabel::Directory, skill.directory.clone()));
    push_line(&mut lines, DetailLine::Field(DetailLabel::Name, skill.name.clone()));
    push_description(&mut lines, &skill.description);
    push_line(&mut lines, DetailLine::Blank);
    push_line(&mut lines, DetailLine::EnabledFor(enabled_skill_apps_text(&skill.apps, labels)));
    let ghost first = seq![
        LineView::Field(DetailLabel::Directory, skill@.directory),
        LineView::Field(DetailLabel::Name, skill@.name),
    ] + description_lines(skill@.description) + seq![
        LineView::Blank,
        LineView::EnabledFor(enabled_text(skill@.apps, *labels)),
    ];
    assert(line_views(lines@) =~= first);
    if let (Some(owner), Some(name)) = (&skill.repo_owner, &skill.repo_name) {
        let repository = text::concat3(owner.as_str(), "/", name.as_str());
        push_line(&mut lines, DetailLine::Field(DetailLabel::Repository, repository));
    }
    assert(line_views(lines@) =~= first + repository_lines(skill@.repo_owner, skill@.repo_name));
    if let Some(url) = &skill.readme_url {
        if !text::blank(url.as_str()) {
            push_line(&mut lines, DetailLine::Field(DetailLabel::Readme, url.clone()));
        }
    }
    assert(line_views(lines@) =~= detail(skill@, *labels));
    lines
}

/// A repository that skills come from.
#[derive(Debug)]
pub struct SkillRepo {
    pub owner: String,
    pub name: String,
    pub branch: String,
    pub enabled: bool,
}

/// The model of [`SkillRepo`].
pub struct RepoView {
    pub owner: Seq<char>,
    pub name: Seq<char>,
    pub branch: Seq<char>,
    pub enabled: bool,
}

impl View for SkillRepo {
    type V = RepoView;

    open spec fn view(&self) -> RepoView {
        RepoView {
            owner: self.owner@,
            name: self.name@,
            branch: self.branch@,
            enabled: self.enabled,
        }
    }
}

/// The models of repositories.
pub open spec fn repo_views(repos: Seq<SkillRepo>) -> Seq<RepoView> {
    Seq::new(repos.len(), |i: int| repos[i]@)
}

/// Whether a repository is shown while a search is on.
pub open spec fn repo_matches(repo: RepoView, query: Option<Seq<char>>) -> bool {
    match query {
        None => true,
        Some(part) => {
            ||| holds(repo.owner, part)
            ||| holds(repo.name, part)
            ||| holds(repo.branch, part)
        },
    }
}

/// A row of the list of repositories.
#[derive(Debug)]
pub struct RepoRow {
    pub enabled: bool,
    pub repository: String,
    pub branch: String,
}

/// The model of [`RepoRow`].
pub struct RepoRowView {
    pub enabled: bool,
    pub repository: Seq<char>,
    pub branch: Seq<char>,
}

impl View for RepoRow {
    type V = RepoRowView;

    open spec fn view(&self) -> RepoRowView {
        RepoRowView {
            enabled: self.enabled,
            repository: self.repository@,
            branch: self.branch@,
        }
    }
}

/// The models of rows.
pub open spec fn repo_row_views(rows: Seq<RepoRow>) -> Seq<RepoRowView> {
    Seq::new(rows.len(), |i: int| rows[i]@)
}

/// The row of a repository.
pub open spec fn repo_row(repo: RepoView) -> RepoRowView {
    RepoRowView {
        enabled: repo.enabled,
        repository: repo.owner + "/"@ + repo.name,
        branch: repo.branch,
    }
}

/// The rows, of the first `n` repositories, that are shown.
pub open spec fn repos_shown(repos: Seq<RepoView>, query: Option<Seq<char>>, n: int) -> Seq<
    RepoRowView,
>
    decreases n,
{
    if n <= 0 || n > repos.len() {
        seq![]
    } else if repo_matches(repos[n - 1], query) {
        repos_shown(repos, query, n - 1).push(repo_row(repos[n - 1]))
    } else {
        repos_shown(repos, query, n - 1)
    }
}

/// What a key does in the list of repositories.
#[derive(Debug, Clone, Copy, PartialEq, Eq, Structural)]
pub enum RepoKey {
    Add,
    Delete,
    Toggle,
}

/// The key that does something in the list of repositories.
pub open spec fn repo_key_name(key: RepoKey) -> Seq<char> {
    match key {
        RepoKey::Add => "a"@,
        RepoKey::Delete => "d"@,
        RepoKey::Toggle => "Space"@,
    }
}

impl RepoKey {
    /// The key that does it.
    pub fn name(self) -> (r: &'static str)
        ensures
            r@ == repo_key_name(self),
    {
        match self {
            RepoKey::Add => "a",
            RepoKey::Delete => "d",
            RepoKey::Toggle => "Space",
        }
    }
}

/// The keys that are shown above the list of repositories: only while the page has the
/// focus.
pub open spec fn repo_keys(focused: bool) -> Seq<RepoKey> {
    if focused {
        seq![RepoKey::Add, RepoKey::Delete, RepoKey::Toggle]
    } else {
        seq![]
    }
}

/// The list of repositories as it is shown. Where it has no rows, a hint is shown in their
/// place.
#[derive(Debug)]
pub struct ReposScreen {
    pub keys: Vec<RepoKey>,
    pub rows: Vec<RepoRow>,
    /// The row that is marked, where there are rows.
    pub selected: Option<usize>,
}

/// The list of repositories as it is shown.
pub fn render_skills_repos(
    repos: &Vec<SkillRepo>,
    query: &Option<String>,
    focused: bool,
    selected: usize,
) -> (r: ReposScreen)
    ensures
        r.keys@ == repo_keys(focused),
        repo_row_views(r.rows@) == repos_shown(
            repo_views(repos@),
            text::option_view(*query),
            repos@.len() as int,
        ),
        r.selected == if r.rows@.len() > 0 {
            Some(selected)
        } else {
            None
        },
{
    let mut keys: Vec<RepoKey> = Vec::new();
    if focused {
        keys.push(RepoKey::Add);
        keys.push(RepoKey::Delete);
        keys.push(RepoKey::Toggle);
    }
    assert(keys@ =~= repo_keys(focused));
    let rows = skills_repos_filtered(repos, query);
    let selected = if rows.len() > 0 {
        Some(selected)
    } else {
        None
    };
    ReposScreen { keys, rows, selected }
}

/// The rows of the repositories whose owner, name or branch holds what is searched
/// for, which is in small letters; all of them without a search.
pub fn skills_repos_filtered(repos: &Vec<SkillRepo>, query: &Option<String>) -> (r: Vec<RepoRow>)
    ensures
        repo_row_views(r@) == repos_shown(
            repo_views(repos@),
            text::option_view(*query),
            repos@.len() as int,
        ),
{
    let ghost views = repo_views(repos@);
    let mut r: Vec<RepoRow> = Vec::new();
    assert(repo_row_views(r@) =~= seq![]);
    let mut i: usize = 0;
    while i < repos.len()
        invariant
            i <= repos@.len(),
            views == repo_views(repos@),
            repo_row_views(r@) == repos_shown(views, text::option_view(*query), i as int),
        decreases repos@.len() - i,
    {
        assert(views[i as int] == repos@[i as int]@);
        let repo = &repos[i];
        let matches = match query {
            None => true,
            Some(part) => {
                text_holds(repo.owner.as_str(), part.as_str())
                    || text_holds(repo.name.as_str(), part.as_str())
                    || text_holds(repo.branch.as_str(), part.as_str())
            },
        };
        if matches {
            let ghost before = r@;
            let row = RepoRow {
                enabled: repo.enabled,
                repository: text::concat3(repo.owner.as_str(), "/", repo.name.as_str()),
                branch: repo.branch.clone(),
            };
            r.push(row);
            assert(repo_row_views(r@) =~= repo_row_views(before).push(repo_row(views[i as int])));
        }
        i = i + 1;
    }
    r
}

} // verus!
