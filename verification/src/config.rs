//! The configuration as it is handed in, and the rule set that is made of it.

use vstd::prelude::*;
use vstd::string::StringExecFns;
use crate::rules::RuleSet;
use crate::visitor::TransformVisitor;

verus! {

/// The marker that is appended where the configuration names none.
pub const DEFAULT_FILE_SUFFIX: &'static str = "css_modules";

/// The extensions to match, given as one string or as a list of strings.
#[derive(Debug, Clone, PartialEq, Eq)]
pub enum CssSuffixConfig {
    Single(String),
    Multiple(Vec<String>),
}

/// The configuration as it is handed in: each field may be left out.
#[derive(Debug, Clone, PartialEq, Eq)]
pub struct PluginConfig {
    pub css_suffix: Option<CssSuffixConfig>,
    pub file_suffix: Option<String>,
}

/// A configuration in contracts: the extensions it names, if any, in their
/// order, and the marker it names, if any.
pub ghost struct RawConfig {
    pub extensions: Option<Seq<Seq<char>>>,
    pub marker: Option<Seq<char>>,
}

impl CssSuffixConfig {
    /// The extensions that are named: the one string, or the list as it stands.
    pub open spec fn extensions(&self) -> Seq<Seq<char>> {
        match self {
            CssSuffixConfig::Single(suffix) => seq![suffix@],
            CssSuffixConfig::Multiple(suffixes) => suffixes.deep_view(),
        }
    }
}

impl View for PluginConfig {
    type V = RawConfig;

    open spec fn view(&self) -> RawConfig {
        RawConfig {
            extensions: match self.css_suffix {
                Some(named) => Some(named.extensions()),
                None => None,
            },
            marker: match self.file_suffix {
                Some(marker) => Some(marker@),
                None => None,
            },
        }
    }
}

/// A configuration that may be missing, in contracts.
pub open spec fn raw_config(config: Option<PluginConfig>) -> Option<RawConfig> {
    match config {
        Some(given) => Some(given@),
        None => None,
    }
}

/// The extensions that are matched where the configuration names none.
pub open spec fn default_extensions() -> Seq<Seq<char>> {
    seq![".css"@, ".less"@, ".scss"@, ".sass"@]
}

/// The marker that is appended where the configuration names none.
pub open spec fn default_marker() -> Seq<char> {
    DEFAULT_FILE_SUFFIX@
}

impl RuleSet {
    /// The rule set of a configuration. Each field is taken as it is given,
    /// and stands at its default where it is left out; a configuration that
    /// is missing altogether gives both defaults.
    pub open spec fn resolve(raw: Option<RawConfig>) -> RuleSet {
        RuleSet {
            matched_extensions: match raw {
                Some(RawConfig { extensions: Some(named), .. }) => named,
                _ => default_extensions(),
            },
            marker: match raw {
                Some(RawConfig { marker: Some(named), .. }) => named,
                _ => default_marker(),
            },
        }
    }
}

/// The extensions that are matched where the configuration names none.
pub fn default_css_suffix() -> (suffixes: Vec<String>)
    ensures
        suffixes.deep_view() == default_extensions(),
{
    let mut suffixes: Vec<String> = Vec::new();
    suffixes.push(String::from_str(".css"));
    suffixes.push(String::from_str(".less"));
    suffixes.push(String::from_str(".scss"));
    suffixes.push(String::from_str(".sass"));
    assert(suffixes.deep_view() =~= default_extensions());
    suffixes
}

/// Makes the visitor of a configuration; `None` stands for a configuration
/// that is missing or could not be read.
pub fn resolve(config: Option<PluginConfig>) -> (visitor: TransformVisitor)
    ensures
        visitor@ == RuleSet::resolve(raw_config(config)),
{
    let (css_suffix, file_suffix) = match config {
        Some(given) => (given.css_suffix, given.file_suffix),
        None => (None, None),
    };
    let css_suffix = match css_suffix {
        Some(CssSuffixConfig::Single(suffix)) => {
            let mut one: Vec<String> = Vec::new();
            one.push(suffix);
            assert(one.deep_view() =~= seq![suffix@]);
            one
        },
        Some(CssSuffixConfig::Multiple(suffixes)) => suffixes,
        None => default_css_suffix(),
    };
    let file_suffix = match file_suffix {
        Some(marker) => marker,
        None => String::from_str(DEFAULT_FILE_SUFFIX),
    };
    TransformVisitor::new(css_suffix, file_suffix)
}

} // verus!
