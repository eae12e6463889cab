use vstd::prelude::*;
use crate::config::{entry_apps, entry_services, Config};
use crate::context::{Core, FileSource, KeyChain, Launcher, Resolver};
use crate::errors::{user, Error, ErrorKind};
use crate::registry::Registry;

verus! {

/// What the user asked of the `config` command.
pub enum ConfigRequest {
    /// No subcommand: show the current configuration.
    Show,
    /// List the templates that the registry offers.
    List,
    /// Add a template to a configuration, written to `config_path` if given.
    Add { id: Option<String>, config_path: Option<String> },
}

/// What the `config` command will do.
pub enum ConfigAction {
    Show,
    List,
    Add { id: String, config_path: Option<String> },
}

/// The subcommand being completed on the command line.
pub enum ConfigTopic {
    Subcommands,
    List,
    Add,
}

/// The message given when `config add` is called without a template id.
pub open spec fn missing_id_message() -> Seq<char> {
    "You have not provided an ID for the config template you wish to add."@
}

/// Manages the configuration file through templates of the registry.
pub struct ConfigCommand {}

impl ConfigCommand {
    pub fn name(&self) -> (r: String)
        ensures
            r@ == "config"@,
    {
        "config".to_owned()
    }

    /// Checks the request: adding needs a template id.
    pub fn plan(&self, request: ConfigRequest) -> (r: Result<ConfigAction, Error>)
        ensures
            match request {
                ConfigRequest::Show => r matches Ok(ConfigAction::Show),
                ConfigRequest::List => r matches Ok(ConfigAction::List),
                ConfigRequest::Add { id: Some(i), config_path: p } => r == Ok::<
                    ConfigAction,
                    Error,
                >(ConfigAction::Add { id: i, config_path: p }),
                ConfigRequest::Add { id: None, .. } => r matches Err(e) && e.kind
                    == ErrorKind::User && e.message@ == missing_id_message() && e.advice@
                    == Seq::<char>::empty(),
            },
    {
        match request {
            ConfigRequest::Show => Ok(ConfigAction::Show),
            ConfigRequest::List => Ok(ConfigAction::List),
            ConfigRequest::Add { id: Some(id), config_path } => Ok(
                ConfigAction::Add { id, config_path },
            ),
            ConfigRequest::Add { id: None, config_path: _ } => {
                proof {
                    reveal_strlit("");
                }
                Err(
                    user(
                        "You have not provided an ID for the config template you wish to add.",
                        "",
                    ),
                )
            },
        }
    }

    /// Fetches the template `id` from the registry and merges each of its
    /// fragments that applies on the host `os` into `cfg`. A registry error is
    /// returned unchanged; otherwise the result is `cfg` merged with the
    /// fetched entry, as `Config::apply_entry` states.
    pub fn add<R: Registry>(&self, registry: &R, id: &str, cfg: Config, os: &str) -> (r: Result<
        Config,
        Error,
    >)
        ensures
            r matches Ok(c) ==> c.directory == cfg.directory && exists|
                configs: Seq<crate::registry::EntryConfig>,
            |
                c.apps@ == entry_apps(cfg.apps@, configs, os@) && c.services@ == entry_services(
                    cfg.services@,
                    configs,
                    os@,
                ),
    {
        match registry.get_entry(id) {
            Ok(entry) => {
                let ghost configs = entry.configs@;
                let c = cfg.apply_entry(entry, os);
                assert(c.apps@ == entry_apps(cfg.apps@, configs, os@));
                Ok(c)
            },
            Err(e) => Err(e),
        }
    }

    /// The words offered when completing the command line: the subcommands,
    /// or for `add` the registry's template ids (none where it fails).
    pub fn completions<R: Registry>(&self, registry: &R, topic: ConfigTopic) -> (r: Vec<String>)
        ensures
            topic is Subcommands ==> r@.len() == 2 && r@[0]@ == "list"@ && r@[1]@ == "add"@,
            topic is List ==> r@.len() == 0,
    {
        match topic {
            ConfigTopic::Subcommands => {
                let mut words: Vec<String> = Vec::new();
                words.push("list".to_owned());
                words.push("add".to_owned());
                words
            },
            ConfigTopic::List => Vec::new(),
            ConfigTopic::Add => match registry.get_entries() {
                Ok(entries) => entries,
                Err(_) => Vec::new(),
            },
        }
    }
}

/// What the `ignore` command will do.
pub enum IgnoreAction {
    /// List the languages that the ignore service knows.
    ListLanguages,
    /// Merge the templates of `languages` into the ignore file at `path`.
    Update { path: String, languages: Vec<String> },
}

/// The ignore file updated when no path is given.
pub open spec fn default_ignore_path() -> Seq<char> {
    ".gitignore"@
}

/// Manages a repository's ignore file from an online template service.
pub struct IgnoreCommand {}

impl IgnoreCommand {
    pub fn name(&self) -> (r: String)
        ensures
            r@ == "ignore"@,
    {
        "ignore".to_owned()
    }

    /// With no language, lists the known ones; otherwise updates the file at
    /// `path`, `.gitignore` by default.
    pub fn plan(&self, languages: Vec<String>, path: Option<String>) -> (r: IgnoreAction)
        ensures
            languages@.len() == 0 <==> r is ListLanguages,
            r matches IgnoreAction::Update { path: p, languages: l } ==> l@ == languages@ && p@ == (
            match path {
                Some(q) => q@,
                None => default_ignore_path(),
            }),
    {
        if languages.len() == 0 {
            IgnoreAction::ListLanguages
        } else {
            let path = match path {
                Some(p) => p,
                None => ".gitignore".to_owned(),
            };
            IgnoreAction::Update { path, languages }
        }
    }

    /// The document that the update starts from, given how reading the file
    /// went: its content; the empty document where the file does not exist
    /// yet; any other read error, unchanged.
    pub fn starting_content(read: Result<String, Error>) -> (r: Result<String, Error>)
        ensures
            read is Ok ==> r == read,
            read matches Err(e) ==> (if e.kind == ErrorKind::NotFound {
                r matches Ok(c) && c@ == Seq::<char>::empty()
            } else {
                r == read
            }),
    {
        match read {
            Ok(content) => Ok(content),
            Err(e) => {
                if e.kind == ErrorKind::NotFound {
                    Ok(String::new())
                } else {
                    Err(e)
                }
            },
        }
    }

    /// Writes the generated templates merged into the document that `read`
    /// gave for the ignore file at `path`. A missing file counts as empty; any
    /// other read error is returned unchanged and nothing is written.
    pub fn write_merged<F: FileSource, L: Launcher, R: Resolver, K: KeyChain>(
        &self,
        core: &mut Core<F, L, R, K>,
        path: &str,
        read: Result<String, Error>,
        generated: &str,
    ) -> (r: Result<(), Error>)
        ensures
            final(core).config == old(core).config,
            final(core).launcher == old(core).launcher,
            match read {
                Err(e) => e.kind != ErrorKind::NotFound ==> r == Err::<(), Error>(e) && *final(core)
                    == *old(core),
                Ok(_) => true,
            },
    {
        match IgnoreCommand::starting_content(read) {
            Ok(existing) => {
                let content = IgnoreCommand::merged_content(existing, generated);
                core.files.write(path, content)
            },
            Err(e) => Err(e),
        }
    }

    /// Rewrites the ignore file at `path` with the generated templates merged
    /// in, as `write_merged` does with what reading the file gave.
    pub fn update<F: FileSource, L: Launcher, R: Resolver, K: KeyChain>(
        &self,
        core: &mut Core<F, L, R, K>,
        path: &str,
        generated: &str,
    ) -> (r: Result<(), Error>)
        ensures
            final(core).config == old(core).config,
            final(core).launcher == old(core).launcher,
    {
        let read = core.files.read(path);
        self.write_merged(core, path, read, generated)
    }

    /// The ignore file after adding the generated templates: the generated
    /// text alone for an empty document, otherwise the document, a line
    /// break and the generated text.
    pub fn merged_content(existing: String, generated: &str) -> (r: String)
        ensures
            existing@.len() == 0 ==> r@ == generated@,
            existing@.len() > 0 ==> r@ == existing@ + seq!['\n'] + generated@,
    {
        if existing.as_str().is_empty() {
            return generated.to_owned();
        }
        let mut content = existing;
        proof {
            reveal_strlit("\n");
        }
        content.append("\n");
        content.append(generated);
        content
    }
}

} // verus!
