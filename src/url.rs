use vstd::prelude::*;

use crate::config::{Config, ConfigView};

verus! {

/// The comparison page of `head` against `base` in `owner/repo_name`.
pub open spec fn compare_url_text(
    owner: Seq<char>,
    repo_name: Seq<char>,
    base: Seq<char>,
    head: Seq<char>,
) -> Seq<char> {
    "https://github.com/"@ + owner + "/"@ + repo_name + "/compare/"@ + base + "..."@ + head
        + "?expand=1"@
}

/// The head segment for the checked-out branch: its short name, or `unknown`
/// when the head has none.
pub open spec fn head_label(shorthand: Option<Seq<char>>) -> Seq<char> {
    match shorthand {
        Some(s) => s,
        None => "unknown"@,
    }
}

/// Where the configuration record of the project rooted at `root` is kept.
pub open spec fn config_path_text(root: Seq<char>) -> Seq<char> {
    root + "/.git/open_pr.toml"@
}

/// Builds `https://github.com/{owner}/{repo_name}/compare/{base}...{head}?expand=1`,
/// with the four parts taken verbatim.
pub fn compare_url(owner: &str, repo_name: &str, base: &str, head: &str) -> (r: String)
    ensures
        r@ == compare_url_text(owner@, repo_name@, base@, head@),
{
    let mut r = "https://github.com/".to_string();
    r.append(owner);
    r.append("/");
    r.append(repo_name);
    r.append("/compare/");
    r.append(base);
    r.append("...");
    r.append(head);
    r.append("?expand=1");
    r
}

/// The name to compare from: the head's short name, or `unknown`.
pub fn head_branch_label(shorthand: Option<&str>) -> (r: String)
    ensures
        r@ == head_label(
            match shorthand {
                Some(s) => Some(s@),
                None => None,
            },
        ),
{
    match shorthand {
        Some(s) => s.to_string(),
        None => "unknown".to_string(),
    }
}

/// The path of the configuration record below the project root `root`.
pub fn config_path(root: &str) -> (r: String)
    ensures
        r@ == config_path_text(root@),
{
    let mut r = root.to_string();
    r.append("/.git/open_pr.toml");
    r
}


/// The page to open: the head branch compared against the configured default branch.
pub open spec fn pull_request_url_text(c: ConfigView, shorthand: Option<Seq<char>>) -> Seq<char> {
    compare_url_text(c.owner, c.repo_name, c.default_branch, head_label(shorthand))
}

/// The comparison page for the checked-out branch, whose short name is `shorthand`
/// (`None` where the head has none), against `config`'s default branch.
pub fn pull_request_url(config: &Config, shorthand: Option<&str>) -> (r: String)
    ensures
        r@ == pull_request_url_text(
            config@,
            match shorthand {
                Some(s) => Some(s@),
                None => None,
            },
        ),
{
    let head = head_branch_label(shorthand);
    compare_url(
        config.owner.as_str(),
        config.repo_name.as_str(),
        config.default_branch.as_str(),
        head.as_str(),
    )
}

/// Without a short name for the head, the page compares the branch named
/// `unknown` against the default branch.
pub proof fn lemma_detached_head_compares_unknown(c: ConfigView)
    ensures
        pull_request_url_text(c, None) == "https://github.com/"@ + c.owner + "/"@ + c.repo_name
            + "/compare/"@ + c.default_branch + "..."@ + "unknown"@ + "?expand=1"@,
{
}

} // verus!
