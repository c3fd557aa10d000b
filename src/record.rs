use vstd::prelude::*;

use crate::config::{Config, ConfigView};

verus! {

#[verifier::external_type_specification]
#[verifier::external_body]
pub struct ExTomlParseError(toml::de::Error);

#[verifier::external_type_specification]
#[verifier::external_body]
pub struct ExTomlRenderError(toml::ser::Error);

/// A top-level entry of a parsed document: its key, and its text where the value
/// is a string.
pub type EntryView = (Seq<char>, Option<Seq<char>>);

/// The top-level entries of the TOML document `text`, in the order in which
/// `toml::Table` keeps them, or `None` where `text` is no TOML document.
pub uninterp spec fn toml_entries(text: Seq<char>) -> Option<Seq<EntryView>>;

/// The TOML document that holds the string entries `entries`, or `None` where
/// the toml crate declines to write them.
pub uninterp spec fn toml_text(entries: Seq<(Seq<char>, Seq<char>)>) -> Option<Seq<char>>;

/// Relies on `toml::from_str` into a `toml::Table`: it parses the document, and the
/// table lists its top-level entries; each value is kept only where it is a string.
#[verifier::external_body]
fn parse_entries(text: &str) -> (r: Result<Vec<(String, Option<String>)>, toml::de::Error>)
    ensures
        match r {
            Ok(v) => toml_entries(text@) == Some(v.deep_view()),
            Err(_) => toml_entries(text@) is None,
        },
{
    toml::from_str::<toml::Table>(text).map(
        |t|
            t.into_iter().map(
                |(k, v)|
                    match v {
                        toml::Value::String(s) => (k, Some(s)),
                        _ => (k, None),
                    },
            ).collect(),
    )
}

/// Relies on `toml::to_string` of a `toml::Table` that holds each of `entries` as a
/// string value.
#[verifier::external_body]
fn render_entries(entries: &Vec<(String, String)>) -> (r: Result<String, toml::ser::Error>)
    ensures
        match r {
            Ok(t) => toml_text(entries.deep_view()) == Some(t@),
            Err(_) => toml_text(entries.deep_view()) is None,
        },
{
    let table: toml::Table = entries.iter().map(
        |(k, v)| (k.clone(), toml::Value::String(v.clone())),
    ).collect();
    toml::to_string(&table)
}


/// The first entry under `key` at or after position `i`: its string, or `None`
/// where there is no such entry or its value is no string.
pub open spec fn entry_from(entries: Seq<EntryView>, key: Seq<char>, i: int) -> Option<Seq<char>>
    decreases entries.len() - i,
{
    if i < 0 || i >= entries.len() {
        None
    } else if entries[i].0 == key {
        entries[i].1
    } else {
        entry_from(entries, key, i + 1)
    }
}

/// The string stored under `key`, where the first entry with that key holds one.
pub open spec fn string_entry(entries: Seq<EntryView>, key: Seq<char>) -> Option<Seq<char>> {
    entry_from(entries, key, 0)
}

pub open spec fn owner_key() -> Seq<char> {
    "owner"@
}

pub open spec fn repo_name_key() -> Seq<char> {
    "repo_name"@
}

pub open spec fn default_branch_key() -> Seq<char> {
    "default_branch"@
}

/// The configuration that `entries` hold: all three fields present as strings;
/// other keys are ignored.
pub open spec fn config_of_entries(entries: Seq<EntryView>) -> Option<ConfigView> {
    match (
        string_entry(entries, owner_key()),
        string_entry(entries, repo_name_key()),
        string_entry(entries, default_branch_key()),
    ) {
        (Some(o), Some(r), Some(d)) => Some(ConfigView { owner: o, repo_name: r, default_branch: d }),
        _ => None,
    }
}

/// The configuration that the document `text` holds, if it is one.
pub open spec fn config_of_text(text: Seq<char>) -> Option<ConfigView> {
    match toml_entries(text) {
        Some(entries) => config_of_entries(entries),
        None => None,
    }
}

/// The entries under which a configuration is written, in key order.
pub open spec fn record_entries(c: ConfigView) -> Seq<(Seq<char>, Seq<char>)> {
    seq![
        (default_branch_key(), c.default_branch),
        (owner_key(), c.owner),
        (repo_name_key(), c.repo_name),
    ]
}

/// The string stored under `key` in `entries`, as [`string_entry`] describes.
pub fn find_string(entries: &Vec<(String, Option<String>)>, key: &str) -> (r: Option<String>)
    ensures
        match r {
            Some(s) => string_entry(entries.deep_view(), key@) == Some(s@),
            None => string_entry(entries.deep_view(), key@) is None,
        },
{
    let ghost ev = entries.deep_view();
    let wanted = key.to_string();
    let mut i: usize = 0;
    while i < entries.len()
        invariant
            ev == entries.deep_view(),
            wanted@ == key@,
            i <= entries.len(),
            string_entry(ev, key@) == entry_from(ev, key@, i as int),
        decreases entries.len() - i,
    {
        assert(ev[i as int] == entries@[i as int].deep_view());
        if entries[i].0 == wanted {
            return match &entries[i].1 {
                Some(s) => Some(s.clone()),
                None => None,
            };
        }
        i = i + 1;
    }
    None
}

/// Reads a configuration from the entries of a parsed document: `Some` exactly
/// where `owner`, `repo_name` and `default_branch` all hold strings.
pub fn config_from_entries(entries: &Vec<(String, Option<String>)>) -> (r: Option<Config>)
    ensures
        match r {
            Some(c) => config_of_entries(entries.deep_view()) == Some(c@),
            None => config_of_entries(entries.deep_view()) is None,
        },
{
    let owner = find_string(entries, "owner");
    let repo_name = find_string(entries, "repo_name");
    let default_branch = find_string(entries, "default_branch");
    match (owner, repo_name, default_branch) {
        (Some(o), Some(r), Some(d)) => Some(Config::new(o, r, d)),
        _ => None,
    }
}

/// Reads a configuration from the text of its record: `None` where the text is no
/// TOML document or lacks one of the three fields as a string.
pub fn decode_config(text: &str) -> (r: Option<Config>)
    ensures
        match r {
            Some(c) => config_of_text(text@) == Some(c@),
            None => config_of_text(text@) is None,
        },
{
    match parse_entries(text) {
        Ok(entries) => config_from_entries(&entries),
        Err(_) => None,
    }
}

/// The entries under which `c` is written, in key order.
pub fn config_entries(c: &Config) -> (r: Vec<(String, String)>)
    ensures
        r.deep_view() == record_entries(c@),
{
    let mut r: Vec<(String, String)> = Vec::new();
    r.push(("default_branch".to_string(), c.default_branch.clone()));
    r.push(("owner".to_string(), c.owner.clone()));
    r.push(("repo_name".to_string(), c.repo_name.clone()));
    assert(r.deep_view() =~= record_entries(c@));
    r
}

/// How written string entries read back from a document: each value as a string.
pub open spec fn as_read(entries: Seq<(Seq<char>, Seq<char>)>) -> Seq<EntryView> {
    entries.map_values(|e: (Seq<char>, Seq<char>)| (e.0, Some(e.1)))
}

/// The entries a configuration is written under give that configuration back
/// when they are read as strings: the record layout loses no field and mixes
/// none up, whatever the field values are.
pub proof fn lemma_record_entries_read_back(c: ConfigView)
    ensures
        config_of_entries(as_read(record_entries(c))) == Some(c),
{
    reveal_strlit("owner");
    reveal_strlit("repo_name");
    reveal_strlit("default_branch");
    let e = as_read(record_entries(c));
    assert(e[0] == (default_branch_key(), Some(c.default_branch)));
    assert(e[1] == (owner_key(), Some(c.owner)));
    assert(e[2] == (repo_name_key(), Some(c.repo_name)));
    assert(owner_key()[0] != default_branch_key()[0]);
    assert(repo_name_key()[0] != default_branch_key()[0]);
    assert(repo_name_key()[0] != owner_key()[0]);
    assert(entry_from(e, owner_key(), 1) == Some(c.owner));
    assert(entry_from(e, repo_name_key(), 2) == Some(c.repo_name));
    assert(entry_from(e, repo_name_key(), 1) == Some(c.repo_name));
    assert(entry_from(e, default_branch_key(), 0) == Some(c.default_branch));
}

/// Why a configuration could not be written out.
#[derive(Clone, Copy, Debug, PartialEq, Eq)]
pub enum EncodeError {
    /// The TOML writer refused the values.
    Unrepresentable,
}

/// The text of the record that stores `c`: a TOML document with the keys
/// `default_branch`, `owner` and `repo_name`.
pub fn encode_config(c: &Config) -> (r: Result<String, EncodeError>)
    ensures
        match r {
            Ok(t) => toml_text(record_entries(c@)) == Some(t@),
            Err(_) => toml_text(record_entries(c@)) is None,
        },
{
    let entries = config_entries(c);
    match render_entries(&entries) {
        Ok(t) => Ok(t),
        Err(_) => Err(EncodeError::Unrepresentable),
    }
}

} // verus!
