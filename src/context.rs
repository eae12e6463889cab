use vstd::prelude::*;
use crate::config::Config;
use crate::errors::Error;

verus! {

/// A request to run an external program in a working directory.
#[derive(Debug)]
pub struct Launch {
    pub program: String,
    pub args: Vec<String>,
    pub dir: String,
}

/// Starts external programs.
///
/// The result is the program's exit code, `None` where it ended without one
/// (killed by a signal), or the error met while starting it. The real
/// launcher spawns processes; tests supply fakes.
pub trait Launcher {
    fn launch(&mut self, request: &Launch) -> Result<Option<i32>, Error>;
}

/// Reads and writes local files.
///
/// The real implementation uses the disk; tests supply in-memory fakes.
pub trait FileSource {
    fn read(&self, path: &str) -> Result<String, Error>;

    fn write(&mut self, path: &str, content: String) -> Result<(), Error>;
}

/// Maps a short repository identifier to the path of its local clone.
pub trait Resolver {
    fn resolve(&self, name: &str) -> Result<String, Error>;
}

/// Stores secrets, such as access tokens, by key.
pub trait KeyChain {
    fn get(&self, key: &str) -> Result<String, Error>;

    fn set(&mut self, key: &str, secret: &str) -> Result<(), Error>;
}

/// The execution context of one invocation: the configuration snapshot and
/// the capabilities through which tasks and commands reach the outside world.
pub struct Core<F: FileSource, L: Launcher, R: Resolver, K: KeyChain> {
    pub config: Config,
    pub files: F,
    pub launcher: L,
    pub resolver: R,
    pub keychain: K,
}

impl<F: FileSource, L: Launcher, R: Resolver, K: KeyChain> Core<F, L, R, K> {
    pub fn new(config: Config, files: F, launcher: L, resolver: R, keychain: K) -> (r: Core<
        F,
        L,
        R,
        K,
    >)
        ensures
            r.config == config,
            r.files == files,
            r.launcher == launcher,
            r.resolver == resolver,
            r.keychain == keychain,
    {
        Core { config, files, launcher, resolver, keychain }
    }

    /// The same context with its configuration snapshot replaced as a whole.
    pub fn with_config(self, config: Config) -> (r: Core<F, L, R, K>)
        ensures
            r.config == config,
            r.files == self.files,
            r.launcher == self.launcher,
            r.resolver == self.resolver,
            r.keychain == self.keychain,
    {
        Core { config, files: self.files, launcher: self.launcher, resolver: self.resolver, keychain: self.keychain }
    }
}

} // verus!
