use vstd::prelude::*;

verus! {

/// The per-project settings: where the repository lives and what it compares against.
#[derive(Clone, Debug, PartialEq, Eq)]
pub struct Config {
    /// The account or organisation in `github.com/{owner}/{repo_name}`.
    pub owner: String,
    /// The repository's short name.
    pub repo_name: String,
    /// The branch that comparisons are made against.
    pub default_branch: String,
}

/// The three fields of a [`Config`] as character sequences.
pub struct ConfigView {
    pub owner: Seq<char>,
    pub repo_name: Seq<char>,
    pub default_branch: Seq<char>,
}

impl View for Config {
    type V = ConfigView;

    open spec fn view(&self) -> ConfigView {
        ConfigView {
            owner: self.owner@,
            repo_name: self.repo_name@,
            default_branch: self.default_branch@,
        }
    }
}

/// The text shown when a stored configuration is used.
pub open spec fn description(c: ConfigView) -> Seq<char> {
    "Owner: "@ + c.owner + "\nRepository Name: "@ + c.repo_name + "\nDefault Branch: "@
        + c.default_branch
}

impl Config {
    pub fn new(owner: String, repo_name: String, default_branch: String) -> (r: Config)
        ensures
            r.owner == owner,
            r.repo_name == repo_name,
            r.default_branch == default_branch,
    {
        Config { owner, repo_name, default_branch }
    }

    /// Three lines naming the owner, the repository and the default branch.
    pub fn describe(&self) -> (r: String)
        ensures
            r@ == description(self@),
    {
        let mut r = "Owner: ".to_string();
        r.append(self.owner.as_str());
        r.append("\nRepository Name: ");
        r.append(self.repo_name.as_str());
        r.append("\nDefault Branch: ");
        r.append(self.default_branch.as_str());
        r
    }
}

} // verus!
