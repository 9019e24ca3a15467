//! The settings of a working copy.
use vstd::prelude::*;

verus! {

/// The author name to record on new issues and events, when one is set.
#[derive(Clone, Debug, PartialEq)]
pub struct Config {
    pub author: Option<String>,
}

impl Config {
    /// Settings with no author name.
    pub fn default() -> (r: Config)
        ensures
            r.author is None,
    {
        Config { author: None }
    }
}

} // verus!
