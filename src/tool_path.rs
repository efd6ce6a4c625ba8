//! Where a companion tool is run from: a path the user chose, or a path in
//! the cache where the tool is installed on first use.
use vstd::prelude::*;
use crate::paths::join_path;

verus! {

/// The path of a companion tool.
#[derive(Debug)]
pub enum ToolPath {
    /// Set by the user; never downloaded or installed.
    Overridden(String),
    /// In the cache: `bin_path` is `base` followed by each of `sub_paths`.
    Cached { bin_path: String, base: String, sub_paths: Vec<String> },
}

/// `base` followed by each of `parts`, in order.
pub open spec fn join_all(base: Seq<char>, parts: Seq<Seq<char>>) -> Seq<char>
    decreases parts.len(),
{
    if parts.len() == 0 {
        base
    } else {
        join_path(join_all(base, parts.drop_last()), parts.last())
    }
}

impl ToolPath {
    /// Whether the user chose this path.
    pub fn is_overridden(&self) -> (r: bool)
        ensures
            r == (self is Overridden),
    {
        if let ToolPath::Overridden(_) = self {
            true
        } else {
            false
        }
    }

    /// The path to run the tool from.
    pub fn bin_path(&self) -> (r: &String)
        ensures
            r == (match self {
                ToolPath::Overridden(p) => p,
                ToolPath::Cached { bin_path, .. } => bin_path,
            }),
    {
        match self {
            ToolPath::Overridden(p) => p,
            ToolPath::Cached { bin_path, .. } => bin_path,
        }
    }

    /// The cache directory of the tool and the parts below it, for a cached
    /// tool.
    pub fn cache_paths(&self) -> (r: Option<(&String, &Vec<String>)>)
        ensures
            r == (match self {
                ToolPath::Cached { base, sub_paths, .. } => Some((base, sub_paths)),
                _ => None,
            }),
    {
        match self {
            ToolPath::Cached { base, sub_paths, .. } => Some((base, sub_paths)),
            _ => None,
        }
    }
}

} // verus!
