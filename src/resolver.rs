use vstd::prelude::*;

use crate::config::{Config, ConfigView};
use crate::record::{config_of_text, decode_config};
use crate::text::{trim_answer, trimmed};

verus! {

/// What was found at the configuration path.
#[derive(Debug, PartialEq, Eq)]
pub enum LoadOutcome {
    /// A record that holds all three fields.
    Found(Config),
    /// No record could be read.
    Absent,
    /// A record that is no TOML document or lacks a field.
    Malformed,
}

pub enum LoadView {
    Found(ConfigView),
    Absent,
    Malformed,
}

impl View for LoadOutcome {
    type V = LoadView;

    open spec fn view(&self) -> LoadView {
        match self {
            LoadOutcome::Found(c) => LoadView::Found(c@),
            LoadOutcome::Absent => LoadView::Absent,
            LoadOutcome::Malformed => LoadView::Malformed,
        }
    }
}

/// The outcome for the record's text, `None` where the file could not be read.
pub open spec fn load_view_of(contents: Option<Seq<char>>) -> LoadView {
    match contents {
        None => LoadView::Absent,
        Some(text) => match config_of_text(text) {
            Some(c) => LoadView::Found(c),
            None => LoadView::Malformed,
        },
    }
}

/// Classifies what was read from the configuration path (`None`: nothing could be read).
pub fn load_outcome(contents: Option<&str>) -> (r: LoadOutcome)
    ensures
        r@ == load_view_of(
            match contents {
                Some(t) => Some(t@),
                None => None,
            },
        ),
{
    match contents {
        None => LoadOutcome::Absent,
        Some(text) => match decode_config(text) {
            Some(c) => LoadOutcome::Found(c),
            None => LoadOutcome::Malformed,
        },
    }
}

/// The fields that are asked for, in the order in which they are asked.
#[derive(Clone, Copy, Debug, PartialEq, Eq, Structural)]
pub enum Field {
    Owner,
    RepoName,
    DefaultBranch,
}

/// The field asked for once `n` answers have been given.
pub open spec fn field_at(n: nat) -> Field {
    if n == 0 {
        Field::Owner
    } else if n == 1 {
        Field::RepoName
    } else {
        Field::DefaultBranch
    }
}

pub open spec fn prompt_text(f: Field) -> Seq<char> {
    match f {
        Field::Owner => "Enter the owner of the repository (The \"org\" in github.com/org/reponame): "@,
        Field::RepoName => "Enter the repository name: (The \"reponame\" in github.com/org/reponame): "@,
        Field::DefaultBranch => "Enter the default branch (usually main or master): "@,
    }
}

impl Field {
    /// The question shown before the answer for this field is read.
    pub fn prompt(&self) -> (r: String)
        ensures
            r@ == prompt_text(*self),
    {
        match self {
            Field::Owner => "Enter the owner of the repository (The \"org\" in github.com/org/reponame): ".to_string(),
            Field::RepoName => "Enter the repository name: (The \"reponame\" in github.com/org/reponame): ".to_string(),
            Field::DefaultBranch => "Enter the default branch (usually main or master): ".to_string(),
        }
    }
}

/// What the driver does next.
#[derive(Debug, PartialEq, Eq)]
pub enum Step {
    /// Show the field's prompt, read one line and hand it to [`Resolver::answer`].
    Ask(Field),
    /// Write the record of this newly collected configuration, then use it.
    Save(Config),
    /// Use this stored configuration as it is; nothing is written.
    Use(Config),
}

pub enum StepView {
    Ask(Field),
    Save(ConfigView),
    Use(ConfigView),
}

impl View for Step {
    type V = StepView;

    open spec fn view(&self) -> StepView {
        match self {
            Step::Ask(f) => StepView::Ask(*f),
            Step::Save(c) => StepView::Save(c@),
            Step::Use(c) => StepView::Use(c@),
        }
    }
}

/// The first step for a load outcome.
pub open spec fn start_step(loaded: LoadView) -> StepView {
    match loaded {
        LoadView::Found(c) => StepView::Use(c),
        _ => StepView::Ask(Field::Owner),
    }
}

/// The step after the trimmed answers `answers` (one to three of them).
pub open spec fn step_after(answers: Seq<Seq<char>>) -> StepView {
    if answers.len() < 3 {
        StepView::Ask(field_at(answers.len()))
    } else {
        StepView::Save(ConfigView { owner: answers[0], repo_name: answers[1], default_branch: answers[2] })
    }
}

/// Collects a configuration: the stored one where there is one, else three
/// answers, owner first, then repository name, then default branch.
pub struct Resolver {
    answers: Vec<String>,
}

impl View for Resolver {
    type V = Seq<Seq<char>>;

    /// The trimmed answers given so far.
    closed spec fn view(&self) -> Seq<Seq<char>> {
        self.answers.deep_view()
    }
}

impl Resolver {
    /// Whether the resolver waits for an answer.
    pub open spec fn awaits_answer(&self) -> bool {
        self@.len() < 3
    }

    /// Whether the resolver waits for an answer, as [`Resolver::awaits_answer`] says.
    pub fn needs_answer(&self) -> (r: bool)
        ensures
            r == self.awaits_answer(),
    {
        self.answers.len() < 3
    }

    /// Starts from what was found at the configuration path: a stored record is
    /// used as it is, anything else starts the questions.
    pub fn start(loaded: LoadOutcome) -> (r: (Resolver, Step))
        ensures
            r.0@ == Seq::<Seq<char>>::empty(),
            r.1@ == start_step(loaded@),
    {
        let resolver = Resolver { answers: Vec::new() };
        assert(resolver@ =~= Seq::<Seq<char>>::empty());
        match loaded {
            LoadOutcome::Found(c) => (resolver, Step::Use(c)),
            _ => (resolver, Step::Ask(Field::Owner)),
        }
    }

    /// Takes the line typed for the field asked last, trimmed as it is kept.
    pub fn answer(&mut self, line: &str) -> (r: Step)
        requires
            old(self).awaits_answer(),
        ensures
            final(self)@ == old(self)@.push(trimmed(line@)),
            r@ == step_after(final(self)@),
    {
        let a = trim_answer(line);
        self.answers.push(a);
        assert(self.answers.deep_view() =~= old(self)@.push(trimmed(line@)));
        let n = self.answers.len();
        if n < 3 {
            if n == 1 {
                Step::Ask(Field::RepoName)
            } else {
                Step::Ask(Field::DefaultBranch)
            }
        } else {
            let c = Config::new(
                self.answers[0].clone(),
                self.answers[1].clone(),
                self.answers[2].clone(),
            );
            Step::Save(c)
        }
    }
}


/// Without a stored record, exactly three questions are asked, owner first, then
/// repository name, then default branch, and the configuration then written is
/// made of the three answers, trimmed.
pub proof fn lemma_first_run_asks_three_then_saves(l0: Seq<char>, l1: Seq<char>, l2: Seq<char>)
    ensures
        start_step(load_view_of(None)) == StepView::Ask(Field::Owner),
        step_after(seq![trimmed(l0)]) == StepView::Ask(Field::RepoName),
        step_after(seq![trimmed(l0), trimmed(l1)]) == StepView::Ask(Field::DefaultBranch),
        step_after(seq![trimmed(l0), trimmed(l1), trimmed(l2)]) == StepView::Save(
            ConfigView { owner: trimmed(l0), repo_name: trimmed(l1), default_branch: trimmed(l2) },
        ),
{
}

/// A record that holds a configuration is used as it is: no question is asked
/// and nothing is written.
pub proof fn lemma_stored_record_used_unchanged(text: Seq<char>)
    requires
        config_of_text(text) is Some,
    ensures
        start_step(load_view_of(Some(text))) == StepView::Use(config_of_text(text)->0),
{
}

/// A record that cannot be read as a configuration is treated as a missing one:
/// the questions start with the owner.
pub proof fn lemma_malformed_record_asks_again(text: Seq<char>)
    requires
        config_of_text(text) is None,
    ensures
        start_step(load_view_of(Some(text))) == start_step(load_view_of(None)),
        start_step(load_view_of(Some(text))) == StepView::Ask(Field::Owner),
{
}

} // verus!
