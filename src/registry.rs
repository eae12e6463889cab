use vstd::prelude::*;
use crate::errors::Error;

verus! {

/// The catalog of configuration templates.
///
/// Fetching is left to the implementation (an HTTP client, or an in-memory
/// catalog in tests); nothing is promised of what it returns.
pub trait Registry {
    /// The identifiers of the templates that the catalog offers.
    fn get_entries(&self) -> Result<Vec<String>, Error>;

    /// The template with the given identifier.
    fn get_entry(&self, id: &str) -> Result<Entry, Error>;
}

/// A named configuration template, split into platform-scoped fragments.
#[derive(Debug, Default)]
pub struct Entry {
    pub name: String,
    pub description: String,
    pub configs: Vec<EntryConfig>,
}

/// One fragment of a template, which applies on a single platform or on all.
#[derive(Debug, Default)]
pub struct EntryConfig {
    pub platform: String,
    pub app: Option<EntryApp>,
    pub service: Option<EntryService>,
}

/// The platform name of a fragment that applies everywhere.
pub open spec fn any_platform() -> Seq<char> {
    seq!['a', 'n', 'y']
}

impl EntryConfig {
    /// Whether this fragment applies on a host whose normalised OS identifier is `os`.
    pub open spec fn compatible_with(&self, os: Seq<char>) -> bool {
        self.platform@ == any_platform() || self.platform@ == os
    }

    /// Tells whether this fragment applies on the host whose normalised OS
    /// identifier (`windows`, `linux`, `darwin`) is `os`.
    pub fn is_compatible(&self, os: &str) -> (r: bool)
        ensures
            r == self.compatible_with(os@),
    {
        let any = "any".to_owned();
        proof {
            reveal_strlit("any");
        }
        assert(any@ == any_platform());
        let host = os.to_owned();
        self.platform == any || self.platform == host
    }
}

/// The normalised identifier of a host whose operating system Rust names
/// `os`: `windows`, `linux`, or `darwin` for `macos`; `None` for any other.
pub fn host_platform(os: &str) -> (r: Option<String>)
    ensures
        os@ == "windows"@ ==> (r matches Some(p) && p@ == "windows"@),
        os@ == "linux"@ ==> (r matches Some(p) && p@ == "linux"@),
        os@ == "macos"@ ==> (r matches Some(p) && p@ == "darwin"@),
        os@ != "windows"@ && os@ != "linux"@ && os@ != "macos"@ ==> r is None,
{
    proof {
        reveal_strlit("windows");
        reveal_strlit("linux");
        reveal_strlit("macos");
        reveal_strlit("darwin");
        assert("macos"@[0] != "linux"@[0]);
        assert("macos"@.len() != "windows"@.len());
    }
    let name = os.to_owned();
    if name == "windows".to_owned() {
        Some("windows".to_owned())
    } else if name == "linux".to_owned() {
        Some("linux".to_owned())
    } else if name == "macos".to_owned() {
        Some("darwin".to_owned())
    } else {
        None
    }
}

/// A launchable application that a template contributes.
#[derive(Debug, Default)]
pub struct EntryApp {
    pub name: String,
    pub command: String,
    pub args: Vec<String>,
    pub environment: Vec<String>,
}

/// A hosting service that a template contributes, keyed by its pattern.
#[derive(Debug, Default)]
pub struct EntryService {
    pub domain: String,
    pub website: String,
    pub http_url: String,
    pub git_url: String,
    pub pattern: String,
}

} // verus!
