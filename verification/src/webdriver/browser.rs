//! Web browser definitions of the form `name::version`.

use crate::text::{contains_pattern, lemma_split_joined, occurs_at, spec_split_once, split_into_two};
use vstd::prelude::*;
use vstd::string::*;

verus! {

/// Error thrown while parsing a browser from string
#[derive(Debug, Clone, Copy, PartialEq, Eq, Structural)]
pub enum BrowserParseError {
    /// Missing `::` separator between browser name and version
    MissingImageBrowserSeparator,
}

/// Web browser definition, parsable from `name::version`.
#[derive(Debug, Clone, Hash, PartialEq, Eq)]
pub struct Browser {
    /// Unique identifier of a given web browser
    pub name: String,
    /// Browser specific version string
    pub version: String,
}

/// Abstract browser: name and version as character sequences.
pub struct BrowserView {
    pub name: Seq<char>,
    pub version: Seq<char>,
}

impl View for Browser {
    type V = BrowserView;

    open spec fn view(&self) -> BrowserView {
        BrowserView { name: self.name@, version: self.version@ }
    }
}

/// The separator between browser name and version.
pub open spec fn browser_separator() -> Seq<char> {
    seq![':', ':']
}

/// A browser definition: everything before the first `::` is the name, the rest the
/// version; without `::` the definition is rejected.
pub open spec fn spec_parse_browser(s: Seq<char>) -> Result<BrowserView, BrowserParseError> {
    match spec_split_once(s, browser_separator()) {
        Some((name, version)) => Ok(BrowserView { name, version }),
        None => Err(BrowserParseError::MissingImageBrowserSeparator),
    }
}

/// A browser written as `name::version` parses back to that name and version, as long as
/// the name has no colon (the version may contain anything, `::` included).
pub proof fn law_browser_roundtrip(name: Seq<char>, version: Seq<char>)
    requires
        forall|i: int| 0 <= i < name.len() ==> name[i] != ':',
    ensures
        spec_parse_browser(name + browser_separator() + version)
            == Ok::<BrowserView, BrowserParseError>(BrowserView { name, version }),
{
    let s = name + browser_separator() + version;
    assert forall|j: int| 0 <= j < name.len() implies !#[trigger] occurs_at(s, browser_separator(), j) by {
        assert(s.subrange(j, j + 2)[0] == name[j]);
    }
    lemma_split_joined(name, browser_separator(), version);
}

/// A text without `::` is refused.
pub proof fn law_browser_needs_separator(s: Seq<char>)
    requires
        !contains_pattern(s, browser_separator()),
    ensures
        spec_parse_browser(s) == Err::<BrowserView, BrowserParseError>(BrowserParseError::MissingImageBrowserSeparator),
{
}

impl Browser {
    /// Parses a browser definition of the form `name::version`.
    pub fn from_str(s: &str) -> (r: Result<Browser, BrowserParseError>)
        ensures
            match r {
                Ok(b) => spec_parse_browser(s@) == Ok::<BrowserView, BrowserParseError>(b@),
                Err(e) => spec_parse_browser(s@) == Err::<BrowserView, BrowserParseError>(e),
            },
    {
        let sep = "::";
        proof {
            reveal_strlit("::");
        }
        assert(sep@ == browser_separator());
        match split_into_two(s, sep) {
            Some((name, version)) => Ok(Browser { name, version }),
            None => Err(BrowserParseError::MissingImageBrowserSeparator),
        }
    }

    /// Copies the browser, keeping both strings.
    pub fn duplicate(&self) -> (r: Browser)
        ensures
            r@ == self@,
    {
        Browser { name: self.name.clone(), version: self.version.clone() }
    }
}

impl std::str::FromStr for Browser {
    type Err = BrowserParseError;

    fn from_str(s: &str) -> (r: Result<Browser, BrowserParseError>)
        ensures
            match r {
                Ok(b) => spec_parse_browser(s@) == Ok::<BrowserView, BrowserParseError>(b@),
                Err(e) => spec_parse_browser(s@) == Err::<BrowserView, BrowserParseError>(e),
            },
    {
        Browser::from_str(s)
    }
}

} // verus!
