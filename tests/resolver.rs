use open_pr::config::Config;
use open_pr::record::{decode_config, encode_config};
use open_pr::resolver::{load_outcome, Field, LoadOutcome, Resolver, Step};

fn config(owner: &str, repo_name: &str, default_branch: &str) -> Config {
    Config::new(owner.to_string(), repo_name.to_string(), default_branch.to_string())
}

/// Runs the questions with `lines` and returns the fields asked for and the final step.
fn run(loaded: LoadOutcome, lines: &[&str]) -> (Vec<Field>, Step) {
    let (mut resolver, mut step) = Resolver::start(loaded);
    let mut asked = Vec::new();
    let mut next = lines.iter();
    while let Step::Ask(f) = step {
        asked.push(f);
        assert!(resolver.needs_answer());
        step = resolver.answer(next.next().unwrap());
    }
    (asked, step)
}

#[test]
fn first_run_asks_three_fields_in_order() {
    let (asked, step) = run(load_outcome(None), &["acme\n", "widgets\n", "main\n"]);
    assert_eq!(asked, vec![Field::Owner, Field::RepoName, Field::DefaultBranch]);
    assert_eq!(step, Step::Save(config("acme", "widgets", "main")));
}

#[test]
fn first_run_record_holds_trimmed_answers() {
    let (_, step) = run(load_outcome(None), &[" acme \n", "\twidgets", "main  \n"]);
    let saved = match step {
        Step::Save(c) => c,
        _ => panic!("expected a record to save"),
    };
    let text = encode_config(&saved).unwrap();
    assert_eq!(decode_config(&text), Some(config("acme", "widgets", "main")));
}

#[test]
fn answer_with_spaces_is_trimmed_downstream() {
    let (_, step) = run(LoadOutcome::Absent, &["  acme  ", "widgets", "main"]);
    match step {
        Step::Save(c) => {
            assert_eq!(c.owner, "acme");
            let text = encode_config(&c).unwrap();
            assert!(text.contains("owner = \"acme\""));
        }
        _ => panic!("expected a record to save"),
    }
}

#[test]
fn blank_answers_are_accepted() {
    let (asked, step) = run(LoadOutcome::Absent, &["  ", "", "\n"]);
    assert_eq!(asked.len(), 3);
    assert_eq!(step, Step::Save(config("", "", "")));
}

#[test]
fn stored_record_is_used_without_questions() {
    let text = encode_config(&config("acme", "widgets", "main")).unwrap();
    let loaded = load_outcome(Some(&text));
    assert_eq!(loaded, LoadOutcome::Found(config("acme", "widgets", "main")));
    let (asked, step) = run(loaded, &[]);
    assert!(asked.is_empty());
    assert_eq!(step, Step::Use(config("acme", "widgets", "main")));
}

#[test]
fn malformed_record_falls_back_to_questions() {
    let loaded = load_outcome(Some("owner = \"acme\"\n"));
    assert_eq!(loaded, LoadOutcome::Malformed);
    let (asked, step) = run(loaded, &["a", "b", "c"]);
    assert_eq!(asked, vec![Field::Owner, Field::RepoName, Field::DefaultBranch]);
    assert_eq!(step, Step::Save(config("a", "b", "c")));
}

#[test]
fn unparsable_record_is_malformed() {
    assert_eq!(load_outcome(Some("[[[")), LoadOutcome::Malformed);
}

#[test]
fn missing_record_is_absent() {
    assert_eq!(load_outcome(None), LoadOutcome::Absent);
}

#[test]
fn resolver_stops_waiting_after_three_answers() {
    let (mut resolver, _) = Resolver::start(LoadOutcome::Absent);
    resolver.answer("a");
    resolver.answer("b");
    assert!(resolver.needs_answer());
    resolver.answer("c");
    assert!(!resolver.needs_answer());
}

#[test]
fn prompts_name_each_field() {
    assert_eq!(
        Field::Owner.prompt(),
        "Enter the owner of the repository (The \"org\" in github.com/org/reponame): "
    );
    assert_eq!(
        Field::RepoName.prompt(),
        "Enter the repository name: (The \"reponame\" in github.com/org/reponame): "
    );
    assert_eq!(
        Field::DefaultBranch.prompt(),
        "Enter the default branch (usually main or master): "
    );
}
