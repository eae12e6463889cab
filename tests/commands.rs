use git_tool::commands::{
    ConfigAction, ConfigCommand, ConfigRequest, ConfigTopic, IgnoreAction, IgnoreCommand,
};
use git_tool::config::Config;
use git_tool::context::{Core, FileSource, KeyChain, Launch, Launcher, Resolver};
use std::collections::HashMap;
use git_tool::errors::{Error, ErrorKind};
use git_tool::registry::{Entry, EntryApp, EntryConfig, Registry};

struct FakeRegistry {
    reachable: bool,
}

impl Registry for FakeRegistry {
    fn get_entries(&self) -> Result<Vec<String>, Error> {
        if self.reachable {
            Ok(vec!["vscode".to_string(), "github".to_string()])
        } else {
            Err(Error::new(ErrorKind::Network, "unreachable", ""))
        }
    }

    fn get_entry(&self, id: &str) -> Result<Entry, Error> {
        if !self.reachable {
            return Err(Error::new(ErrorKind::Network, "unreachable", ""));
        }
        if id != "vscode" {
            return Err(Error::new(ErrorKind::NotFound, "not found", ""));
        }
        Ok(Entry {
            name: "VSCode".to_string(),
            description: "...".to_string(),
            configs: vec![EntryConfig {
                platform: "any".to_string(),
                app: Some(EntryApp {
                    name: "code".to_string(),
                    command: "code".to_string(),
                    args: vec![],
                    environment: vec![],
                }),
                service: None,
            }],
        })
    }
}

#[test]
fn config_run() {
    let cmd = ConfigCommand {};
    assert!(matches!(cmd.plan(ConfigRequest::Show), Ok(ConfigAction::Show)));
    assert_eq!(cmd.name(), "config");
}

#[test]
fn config_plan_list_and_add() {
    let cmd = ConfigCommand {};
    assert!(matches!(cmd.plan(ConfigRequest::List), Ok(ConfigAction::List)));
    match cmd.plan(ConfigRequest::Add {
        id: Some("vscode".to_string()),
        config_path: Some("/tmp/config.yml".to_string()),
    }) {
        Ok(ConfigAction::Add { id, config_path }) => {
            assert_eq!(id, "vscode");
            assert_eq!(config_path, Some("/tmp/config.yml".to_string()));
        }
        _ => panic!("expected an add action"),
    }
}

#[test]
fn config_add_without_id_is_user_error() {
    let cmd = ConfigCommand {};
    let err = cmd
        .plan(ConfigRequest::Add {
            id: None,
            config_path: None,
        })
        .err()
        .unwrap();
    assert_eq!(err.kind, ErrorKind::User);
    assert_eq!(
        err.message(),
        "You have not provided an ID for the config template you wish to add."
    );
    assert_eq!(err.advice(), "");
}

#[test]
fn config_add_from_registry() {
    let cmd = ConfigCommand {};
    let registry = FakeRegistry { reachable: true };
    let cfg = cmd
        .add(&registry, "vscode", Config::default(), "linux")
        .unwrap();
    assert_eq!(cfg.apps.len(), 1);
    assert_eq!(cfg.apps[0].name, "code");
    let cfg = cmd.add(&registry, "vscode", cfg, "linux").unwrap();
    assert_eq!(cfg.apps.len(), 1);
    let down = FakeRegistry { reachable: false };
    let err = cmd
        .add(&down, "vscode", Config::default(), "linux")
        .err()
        .unwrap();
    assert_eq!(err.kind, ErrorKind::Network);
    let err = cmd
        .add(&registry, "emacs", Config::default(), "linux")
        .err()
        .unwrap();
    assert_eq!(err.kind, ErrorKind::NotFound);
}

#[test]
fn config_completions() {
    let cmd = ConfigCommand {};
    let registry = FakeRegistry { reachable: true };
    assert_eq!(
        cmd.completions(&registry, ConfigTopic::Subcommands),
        vec!["list", "add"]
    );
    assert!(cmd.completions(&registry, ConfigTopic::List).is_empty());
    assert_eq!(
        cmd.completions(&registry, ConfigTopic::Add),
        vec!["vscode", "github"]
    );
    let down = FakeRegistry { reachable: false };
    assert!(cmd.completions(&down, ConfigTopic::Add).is_empty());
}

#[test]
fn ignore_run() {
    let cmd = IgnoreCommand {};
    assert!(matches!(
        cmd.plan(vec![], None),
        IgnoreAction::ListLanguages
    ));
    assert_eq!(cmd.name(), "ignore");
}

#[test]
fn ignore_languages_update_default_file() {
    let cmd = IgnoreCommand {};
    match cmd.plan(vec!["go".to_string(), "rust".to_string()], None) {
        IgnoreAction::Update { path, languages } => {
            assert_eq!(path, ".gitignore");
            assert_eq!(languages, vec!["go", "rust"]);
        }
        _ => panic!("expected an update"),
    }
    match cmd.plan(vec!["go".to_string()], Some("sub/.gitignore".to_string())) {
        IgnoreAction::Update { path, .. } => assert_eq!(path, "sub/.gitignore"),
        _ => panic!("expected an update"),
    }
}

#[test]
fn missing_ignore_file_starts_empty() {
    let missing = Err(Error::new(ErrorKind::NotFound, "not found", ""));
    assert_eq!(IgnoreCommand::starting_content(missing).unwrap(), "");
    let present = Ok("target/\n".to_string());
    assert_eq!(IgnoreCommand::starting_content(present).unwrap(), "target/\n");
    let unreadable = Err(Error::new(ErrorKind::Io, "permission denied", ""));
    let err = IgnoreCommand::starting_content(unreadable).unwrap_err();
    assert_eq!(err.kind, ErrorKind::Io);
    assert_eq!(err.message(), "permission denied");
}

#[test]
fn ignore_content_for_new_file_is_generated_text() {
    let generated = "# go\n*.exe\n# rust\ntarget/\n";
    assert_eq!(
        IgnoreCommand::merged_content(String::new(), generated),
        generated
    );
}

#[test]
fn ignore_content_appends_to_existing_file() {
    assert_eq!(
        IgnoreCommand::merged_content("node_modules/".to_string(), "target/\n"),
        "node_modules/\ntarget/\n"
    );
}

#[derive(Default)]
struct MemFiles {
    files: HashMap<String, String>,
    read_only: bool,
}

impl FileSource for MemFiles {
    fn read(&self, path: &str) -> Result<String, Error> {
        self.files
            .get(path)
            .cloned()
            .ok_or_else(|| Error::new(ErrorKind::NotFound, "not found", ""))
    }

    fn write(&mut self, path: &str, content: String) -> Result<(), Error> {
        if self.read_only {
            return Err(Error::new(ErrorKind::Io, "read-only", ""));
        }
        self.files.insert(path.to_string(), content);
        Ok(())
    }
}

struct NoLauncher;

impl Launcher for NoLauncher {
    fn launch(&mut self, _request: &Launch) -> Result<Option<i32>, Error> {
        Err(Error::new(ErrorKind::System, "no processes here", ""))
    }
}

#[test]
fn ignore_creates_missing_file() {
    let mut core = Core::new(Config::default(), MemFiles::default(), NoLauncher, DirResolver, MemKeyChain::default());
    let generated = "# go\n*.test\n# rust\ntarget/\n";
    (IgnoreCommand {})
        .update(&mut core, ".gitignore", generated)
        .unwrap();
    assert_eq!(core.files.files.get(".gitignore").unwrap(), generated);
}

#[test]
fn ignore_appends_to_existing_file() {
    let mut files = MemFiles::default();
    files
        .files
        .insert(".gitignore".to_string(), "*.log".to_string());
    let mut core = Core::new(Config::default(), files, NoLauncher, DirResolver, MemKeyChain::default());
    (IgnoreCommand {})
        .update(&mut core, ".gitignore", "target/\n")
        .unwrap();
    assert_eq!(
        core.files.files.get(".gitignore").unwrap(),
        "*.log\ntarget/\n"
    );
}

#[test]
fn ignore_write_error_is_returned() {
    let files = MemFiles {
        read_only: true,
        ..Default::default()
    };
    let mut core = Core::new(Config::default(), files, NoLauncher, DirResolver, MemKeyChain::default());
    let err = (IgnoreCommand {})
        .update(&mut core, ".gitignore", "target/\n")
        .unwrap_err();
    assert_eq!(err.message(), "read-only");
}

#[test]
fn unreadable_ignore_file_is_not_overwritten() {
    let mut files = MemFiles::default();
    files
        .files
        .insert(".gitignore".to_string(), "*.log".to_string());
    let mut core = Core::new(Config::default(), files, NoLauncher, DirResolver, MemKeyChain::default());
    let read = Err(Error::new(ErrorKind::Io, "permission denied", ""));
    let err = (IgnoreCommand {})
        .write_merged(&mut core, ".gitignore", read, "target/\n")
        .unwrap_err();
    assert_eq!(err.kind, ErrorKind::Io);
    assert_eq!(err.message(), "permission denied");
    assert_eq!(core.files.files.get(".gitignore").unwrap(), "*.log");
}

/// Resolves every name under a fixed directory.
struct DirResolver;

impl Resolver for DirResolver {
    fn resolve(&self, name: &str) -> Result<String, Error> {
        Ok(format!("/dev/{}", name))
    }
}

/// Holds secrets in memory.
#[derive(Default)]
struct MemKeyChain {
    secrets: std::collections::HashMap<String, String>,
}

impl KeyChain for MemKeyChain {
    fn get(&self, key: &str) -> Result<String, Error> {
        self.secrets
            .get(key)
            .cloned()
            .ok_or_else(|| Error::new(ErrorKind::NotFound, "no such secret", ""))
    }

    fn set(&mut self, key: &str, secret: &str) -> Result<(), Error> {
        self.secrets.insert(key.to_string(), secret.to_string());
        Ok(())
    }
}
