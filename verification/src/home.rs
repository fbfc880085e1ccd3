//! The home page: the launcher's name and its author.

use vstd::prelude::*;
use vstd::string::StringExecFns;

verus! {

/// The home page.
#[derive(Clone, Copy, Debug, PartialEq, Eq)]
pub struct HomePage;

impl HomePage {
    /// The heading of the page.
    pub fn heading(&self) -> (text: String)
        ensures
            text@ == "Vintage Story Launcher v0.5.0"@,
    {
        String::from_str("Vintage Story Launcher v0.5.0")
    }

    /// The line under the heading.
    pub fn byline(&self) -> (text: String)
        ensures
            text@ == "by nbrostant"@,
    {
        String::from_str("by nbrostant")
    }
}

impl Default for HomePage {
    fn default() -> (page: HomePage)
        ensures
            page == HomePage,
    {
        HomePage
    }
}

} // verus!
