//! The two limits that the configuration file sets.

use vstd::prelude::*;
use vstd::string::*;
use yaml_rust::{ScanError, Yaml, YamlLoader};

verus! {

/// The limit on automatic downloads where the file sets none.
pub const DEFAULT_DOWNLOAD_LIMIT: i64 = 1;

/// The limit on automatic deletion where the file sets none.
pub const DEFAULT_DELETE_LIMIT: i64 = 0;

/// The longest configuration text, in characters, that is read as YAML. The
/// file holds two short lines; the bound keeps the nesting of what is handed
/// to the YAML loader, which descends once for each level, shallow.
pub const MAX_CONFIG_CHARS: usize = 1024;

/// How many episodes to download, and how many to keep, without being asked.
#[derive(Clone, Copy, Debug, PartialEq, Eq, Structural)]
pub struct Config {
    pub auto_download_limit: i64,
    pub auto_delete_limit: i64,
}

/// A node of a YAML document, as yaml-rust holds it.
#[verifier::external_type_specification]
#[verifier::external_body]
pub struct ExYaml(Yaml);

/// The error that yaml-rust gives for text that is no YAML.
#[verifier::external_type_specification]
#[verifier::external_body]
pub struct ExScanError(ScanError);

/// The documents that yaml-rust's `YamlLoader::load_from_str` reads from a
/// text, or `None` where it gives an error.
pub uninterp spec fn yaml_documents(text: Seq<char>) -> Option<Seq<Yaml>>;

/// The node that yaml-rust's indexing by a string finds in a node.
pub uninterp spec fn yaml_entry(node: Yaml, key: Seq<char>) -> Yaml;

/// The integer that yaml-rust's `Yaml::as_i64` reads from a node.
pub uninterp spec fn yaml_integer(node: Yaml) -> Option<i64>;

/// The integer that the first document of `text` holds under `key`.
pub open spec fn document_integer(text: Seq<char>, key: Seq<char>) -> Option<i64> {
    match yaml_documents(text) {
        Some(docs) => if docs.len() > 0 {
            yaml_integer(yaml_entry(docs[0], key))
        } else {
            None
        },
        None => None,
    }
}

/// The configuration that two optional settings make: each limit is the
/// setting where there is one, else its default.
pub open spec fn config_of(download: Option<i64>, delete: Option<i64>) -> Config {
    Config {
        auto_download_limit: match download {
            Some(limit) => limit,
            None => DEFAULT_DOWNLOAD_LIMIT,
        },
        auto_delete_limit: match delete {
            Some(limit) => limit,
            None => DEFAULT_DELETE_LIMIT,
        },
    }
}

/// The configuration that a file's text sets: the two limits that its first
/// document holds, each at its default where the document holds none. Text
/// longer than `MAX_CONFIG_CHARS` sets nothing.
pub open spec fn config_from_text(text: Seq<char>) -> Config {
    if text.len() <= MAX_CONFIG_CHARS {
        config_of(
            document_integer(text, "auto_download_limit"@),
            document_integer(text, "auto_delete_limit"@),
        )
    } else {
        config_of(None, None)
    }
}

/// Calls yaml-rust's `YamlLoader::load_from_str`. Claimed: what it returns
/// depends on the text alone. The loader descends once for each level of
/// nesting in the text, without a limit of its own; the bound on the text's
/// length keeps it from running out of stack.
#[verifier::external_body]
fn load_documents(text: &str) -> (r: Result<Vec<Yaml>, ScanError>)
    requires
        text@.len() <= MAX_CONFIG_CHARS,
    ensures
        match r {
            Ok(docs) => yaml_documents(text@) == Some(docs@),
            Err(_) => yaml_documents(text@) is None,
        },
{
    YamlLoader::load_from_str(text)
}

/// Indexes a YAML node by a string, with yaml-rust's `Index<&str>` for
/// `Yaml`. Claimed: the node found depends on the node and the key alone.
#[verifier::external_body]
fn entry<'a>(node: &'a Yaml, key: &str) -> (r: &'a Yaml)
    ensures
        *r == yaml_entry(*node, key@),
{
    &node[key]
}

/// Calls yaml-rust's `Yaml::as_i64`. Claimed: the result depends on the node
/// alone.
#[verifier::external_body]
fn integer(node: &Yaml) -> (r: Option<i64>)
    ensures
        r == yaml_integer(*node),
{
    node.as_i64()
}

impl Config {
    /// The configuration where no file sets anything.
    pub fn defaults() -> (config: Config)
        ensures
            config == config_of(None, None),
    {
        Config {
            auto_download_limit: DEFAULT_DOWNLOAD_LIMIT,
            auto_delete_limit: DEFAULT_DELETE_LIMIT,
        }
    }

    /// The configuration that two optional settings make.
    pub fn from_limits(download: Option<i64>, delete: Option<i64>) -> (config: Config)
        ensures
            config == config_of(download, delete),
    {
        let mut config = Config::defaults();
        if let Some(limit) = download {
            config.auto_download_limit = limit;
        }
        if let Some(limit) = delete {
            config.auto_delete_limit = limit;
        }
        config
    }

    /// The configuration that the file's contents set; `None` stands for a
    /// file that does not exist. A key that is missing, or whose value is no
    /// integer, leaves its limit at the default, and so does text that is no
    /// YAML at all or is longer than `MAX_CONFIG_CHARS`.
    pub fn new(contents: Option<&str>) -> (config: Config)
        ensures
            config == match contents {
                Some(text) => config_from_text(text@),
                None => config_of(None, None),
            },
    {
        match contents {
            None => Config::defaults(),
            Some(text) => {
                if text.unicode_len() > MAX_CONFIG_CHARS {
                    return Config::defaults();
                }
                match load_documents(text) {
                    Ok(docs) => {
                        if docs.len() > 0 {
                            let doc = &docs[0];
                            Config::from_limits(
                                integer(entry(doc, "auto_download_limit")),
                                integer(entry(doc, "auto_delete_limit")),
                            )
                        } else {
                            Config::defaults()
                        }
                    },
                    Err(_) => Config::defaults(),
                }
            },
        }
    }

    /// What to write into a configuration file that does not exist yet.
    pub fn default_file_contents() -> (text: &'static str)
        ensures
            text@ == "auto_download_limit: 1"@,
    {
        "auto_download_limit: 1"
    }

    /// How many of a feed's newest episodes an automatic download pass takes
    /// in: the download limit, but no fewer than none and no more than the
    /// feed has.
    pub fn download_count(&self, available: usize) -> (count: usize)
        ensures
            count == download_count_of(self.auto_download_limit, available),
    {
        if self.auto_download_limit <= 0 {
            0
        } else if self.auto_download_limit as u64 >= available as u64 {
            available
        } else {
            self.auto_download_limit as usize
        }
    }
}

/// The download limit, held between zero and what is available.
pub open spec fn download_count_of(limit: i64, available: usize) -> usize {
    if limit <= 0 {
        0
    } else if limit >= available {
        available
    } else {
        limit as usize
    }
}

} // verus!
