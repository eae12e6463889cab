use vstd::prelude::*;
use crate::registry::{Entry, EntryApp, EntryConfig, EntryService};

verus! {

/// An application that can be launched in a workspace.
#[derive(Debug, Default)]
pub struct App {
    pub name: String,
    pub command: String,
    pub args: Vec<String>,
    pub environment: Vec<String>,
}

/// A hosting service and the pattern by which its repositories are named.
#[derive(Debug, Default)]
pub struct Service {
    pub domain: String,
    pub website: String,
    pub http_url: String,
    pub git_url: String,
    pub pattern: String,
}

/// A snapshot of the user's configuration. Updates produce a new snapshot.
#[derive(Debug, Default)]
pub struct Config {
    pub directory: String,
    pub apps: Vec<App>,
    pub services: Vec<Service>,
}

/// The application that a template's application entry describes.
pub open spec fn app_of(e: EntryApp) -> App {
    App { name: e.name, command: e.command, args: e.args, environment: e.environment }
}

/// The service that a template's service entry describes.
pub open spec fn service_of(e: EntryService) -> Service {
    Service {
        domain: e.domain,
        website: e.website,
        http_url: e.http_url,
        git_url: e.git_url,
        pattern: e.pattern,
    }
}

impl From<EntryApp> for App {
    fn from(e: EntryApp) -> (r: App) {
        App { name: e.name, command: e.command, args: e.args, environment: e.environment }
    }
}

impl vstd::std_specs::convert::FromSpecImpl<EntryApp> for App {
    open spec fn obeys_from_spec() -> bool {
        true
    }

    open spec fn from_spec(e: EntryApp) -> App {
        app_of(e)
    }
}

impl From<EntryService> for Service {
    fn from(e: EntryService) -> (r: Service) {
        Service {
            domain: e.domain,
            website: e.website,
            http_url: e.http_url,
            git_url: e.git_url,
            pattern: e.pattern,
        }
    }
}

impl vstd::std_specs::convert::FromSpecImpl<EntryService> for Service {
    open spec fn obeys_from_spec() -> bool {
        true
    }

    open spec fn from_spec(e: EntryService) -> Service {
        service_of(e)
    }
}

/// Whether some application in `apps` is named `name`.
pub open spec fn has_app(apps: Seq<App>, name: Seq<char>) -> bool {
    exists|i: int| 0 <= i < apps.len() && (#[trigger] apps[i]).name@ == name
}

/// Whether some service in `services` has the pattern `pattern`.
pub open spec fn has_service(services: Seq<Service>, pattern: Seq<char>) -> bool {
    exists|i: int| 0 <= i < services.len() && (#[trigger] services[i]).pattern@ == pattern
}

/// The applications after merging a fragment: its application is appended
/// unless one of the same name is already there.
pub open spec fn merged_apps(apps: Seq<App>, ec: EntryConfig) -> Seq<App> {
    match ec.app {
        Some(a) => if has_app(apps, a.name@) {
            apps
        } else {
            apps.push(app_of(a))
        },
        None => apps,
    }
}

/// The services after merging a fragment: its service is appended unless one
/// with the same pattern is already there.
pub open spec fn merged_services(services: Seq<Service>, ec: EntryConfig) -> Seq<Service> {
    match ec.service {
        Some(s) => if has_service(services, s.pattern@) {
            services
        } else {
            services.push(service_of(s))
        },
        None => services,
    }
}

/// The applications after merging, in order, each fragment compatible with `os`.
pub open spec fn entry_apps(apps: Seq<App>, configs: Seq<EntryConfig>, os: Seq<char>) -> Seq<App>
    decreases configs.len(),
{
    if configs.len() == 0 {
        apps
    } else {
        let before = entry_apps(apps, configs.drop_last(), os);
        if configs.last().compatible_with(os) {
            merged_apps(before, configs.last())
        } else {
            before
        }
    }
}

/// The services after merging, in order, each fragment compatible with `os`.
pub open spec fn entry_services(
    services: Seq<Service>,
    configs: Seq<EntryConfig>,
    os: Seq<char>,
) -> Seq<Service>
    decreases configs.len(),
{
    if configs.len() == 0 {
        services
    } else {
        let before = entry_services(services, configs.drop_last(), os);
        if configs.last().compatible_with(os) {
            merged_services(before, configs.last())
        } else {
            before
        }
    }
}

fn contains_app(apps: &Vec<App>, name: &String) -> (r: bool)
    ensures
        r == has_app(apps@, name@),
{
    let mut i: usize = 0;
    while i < apps.len()
        invariant
            i <= apps.len(),
            forall|j: int| 0 <= j < i ==> (#[trigger] apps@[j]).name@ != name@,
        decreases apps.len() - i,
    {
        if apps[i].name == *name {
            return true;
        }
        i = i + 1;
    }
    false
}

fn contains_service(services: &Vec<Service>, pattern: &String) -> (r: bool)
    ensures
        r == has_service(services@, pattern@),
{
    let mut i: usize = 0;
    while i < services.len()
        invariant
            i <= services.len(),
            forall|j: int| 0 <= j < i ==> (#[trigger] services@[j]).pattern@ != pattern@,
        decreases services.len() - i,
    {
        if services[i].pattern == *pattern {
            return true;
        }
        i = i + 1;
    }
    false
}

impl Config {
    /// Folds one fragment into the configuration: its application and its
    /// service are appended unless one with the same name, or pattern, is
    /// already present.
    pub fn add(self, ec: EntryConfig) -> (r: Config)
        ensures
            r.directory == self.directory,
            r.apps@ == merged_apps(self.apps@, ec),
            r.services@ == merged_services(self.services@, ec),
    {
        let Config { directory, mut apps, mut services } = self;
        let EntryConfig { platform: _, app, service } = ec;
        match app {
            Some(a) => {
                if !contains_app(&apps, &a.name) {
                    apps.push(App::from(a));
                }
            },
            None => {},
        }
        match service {
            Some(s) => {
                if !contains_service(&services, &s.pattern) {
                    services.push(Service::from(s));
                }
            },
            None => {},
        }
        Config { directory, apps, services }
    }

    /// Merges, in order, every fragment of `entry` that applies on the host
    /// whose normalised OS identifier is `os`; the others are skipped.
    pub fn apply_entry(self, entry: Entry, os: &str) -> (r: Config)
        ensures
            r.directory == self.directory,
            r.apps@ == entry_apps(self.apps@, entry.configs@, os@),
            r.services@ == entry_services(self.services@, entry.configs@, os@),
    {
        let ghost all = entry.configs@;
        let mut configs = entry.configs;
        let n: usize = configs.len();
        let mut cfg = self;
        let mut k: usize = 0;
        while configs.len() > 0
            invariant
                k + configs@.len() == all.len(),
                all.len() == n,
                configs@ == all.subrange(k as int, all.len() as int),
                cfg.directory == self.directory,
                cfg.apps@ == entry_apps(self.apps@, all.subrange(0, k as int), os@),
                cfg.services@ == entry_services(self.services@, all.subrange(0, k as int), os@),
            decreases configs.len(),
        {
            let ec = configs.remove(0);
            assert(all.subrange(0, k + 1).drop_last() =~= all.subrange(0, k as int));
            assert(all.subrange(0, k + 1).last() == ec);
            if ec.is_compatible(os) {
                cfg = cfg.add(ec);
            }
            k = k + 1;
            assert(configs@ =~= all.subrange(k as int, all.len() as int));
        }
        assert(all.subrange(0, k as int) =~= all);
        cfg
    }
}

/// Merging the same fragment a second time leaves the configuration as the
/// first merge left it: duplicates are detected by application name and by
/// service pattern.
pub proof fn merge_is_idempotent(apps: Seq<App>, services: Seq<Service>, ec: EntryConfig)
    ensures
        merged_apps(merged_apps(apps, ec), ec) == merged_apps(apps, ec),
        merged_services(merged_services(services, ec), ec) == merged_services(services, ec),
{
    match ec.app {
        Some(a) => {
            if !has_app(apps, a.name@) {
                let once = apps.push(app_of(a));
                assert(once[apps.len() as int].name@ == a.name@);
                assert(has_app(once, a.name@));
            }
        },
        None => {},
    }
    match ec.service {
        Some(s) => {
            if !has_service(services, s.pattern@) {
                let once = services.push(service_of(s));
                assert(once[services.len() as int].pattern@ == s.pattern@);
                assert(has_service(once, s.pattern@));
            }
        },
        None => {},
    }
}

/// Every fragment of `configs` that is compatible with `os` has its
/// application, by name, in `apps`.
pub open spec fn covers_apps(apps: Seq<App>, configs: Seq<EntryConfig>, os: Seq<char>) -> bool {
    forall|k: int|
        0 <= k < configs.len() && (#[trigger] configs[k]).compatible_with(os)
            && configs[k].app is Some ==> has_app(apps, configs[k].app->Some_0.name@)
}

/// Every fragment of `configs` that is compatible with `os` has its service,
/// by pattern, in `services`.
pub open spec fn covers_services(
    services: Seq<Service>,
    configs: Seq<EntryConfig>,
    os: Seq<char>,
) -> bool {
    forall|k: int|
        0 <= k < configs.len() && (#[trigger] configs[k]).compatible_with(os)
            && configs[k].service is Some ==> has_service(
            services,
            configs[k].service->Some_0.pattern@,
        )
}

proof fn apps_only_grow(apps: Seq<App>, configs: Seq<EntryConfig>, os: Seq<char>, name: Seq<char>)
    requires
        has_app(apps, name),
    ensures
        has_app(entry_apps(apps, configs, os), name),
    decreases configs.len(),
{
    if configs.len() > 0 {
        let before = entry_apps(apps, configs.drop_last(), os);
        apps_only_grow(apps, configs.drop_last(), os, name);
        let i = choose|i: int| 0 <= i < before.len() && (#[trigger] before[i]).name@ == name;
        if configs.last().compatible_with(os) {
            let after = merged_apps(before, configs.last());
            assert(after[i] == before[i]);
        }
    }
}

proof fn services_only_grow(
    services: Seq<Service>,
    configs: Seq<EntryConfig>,
    os: Seq<char>,
    pattern: Seq<char>,
)
    requires
        has_service(services, pattern),
    ensures
        has_service(entry_services(services, configs, os), pattern),
    decreases configs.len(),
{
    if configs.len() > 0 {
        let before = entry_services(services, configs.drop_last(), os);
        services_only_grow(services, configs.drop_last(), os, pattern);
        let i = choose|i: int| 0 <= i < before.len() && (#[trigger] before[i]).pattern@ == pattern;
        if configs.last().compatible_with(os) {
            let after = merged_services(before, configs.last());
            assert(after[i] == before[i]);
        }
    }
}

proof fn merged_apps_has_own(apps: Seq<App>, ec: EntryConfig)
    requires
        ec.app is Some,
    ensures
        has_app(merged_apps(apps, ec), ec.app->Some_0.name@),
{
    let a = ec.app->Some_0;
    if !has_app(apps, a.name@) {
        assert(apps.push(app_of(a))[apps.len() as int].name@ == a.name@);
    }
}

proof fn merged_services_has_own(services: Seq<Service>, ec: EntryConfig)
    requires
        ec.service is Some,
    ensures
        has_service(merged_services(services, ec), ec.service->Some_0.pattern@),
{
    let s = ec.service->Some_0;
    if !has_service(services, s.pattern@) {
        assert(services.push(service_of(s))[services.len() as int].pattern@ == s.pattern@);
    }
}

proof fn entry_apps_covers(apps: Seq<App>, configs: Seq<EntryConfig>, os: Seq<char>)
    ensures
        covers_apps(entry_apps(apps, configs, os), configs, os),
    decreases configs.len(),
{
    if configs.len() > 0 {
        let init = configs.drop_last();
        let last = configs.last();
        let before = entry_apps(apps, init, os);
        let after = entry_apps(apps, configs, os);
        entry_apps_covers(apps, init, os);
        assert forall|k: int|
            0 <= k < configs.len() && (#[trigger] configs[k]).compatible_with(os)
                && configs[k].app is Some implies has_app(after, configs[k].app->Some_0.name@) by {
            if k < configs.len() - 1 {
                assert(init[k] == configs[k]);
                let one = seq![last];
                assert(has_app(before, init[k].app->Some_0.name@));
                apps_only_grow(before, one, os, init[k].app->Some_0.name@);
                assert(one.drop_last() =~= Seq::<EntryConfig>::empty());
                assert(one.last() == last);
                assert(entry_apps(before, one.drop_last(), os) == before);
                assert(entry_apps(before, one, os) == after);
            } else {
                merged_apps_has_own(before, last);
            }
        }
    }
}

proof fn entry_services_covers(services: Seq<Service>, configs: Seq<EntryConfig>, os: Seq<char>)
    ensures
        covers_services(entry_services(services, configs, os), configs, os),
    decreases configs.len(),
{
    if configs.len() > 0 {
        let init = configs.drop_last();
        let last = configs.last();
        let before = entry_services(services, init, os);
        let after = entry_services(services, configs, os);
        entry_services_covers(services, init, os);
        assert forall|k: int|
            0 <= k < configs.len() && (#[trigger] configs[k]).compatible_with(os)
                && configs[k].service is Some implies has_service(
            after,
            configs[k].service->Some_0.pattern@,
        ) by {
            if k < configs.len() - 1 {
                assert(init[k] == configs[k]);
                let one = seq![last];
                assert(has_service(before, init[k].service->Some_0.pattern@));
                services_only_grow(before, one, os, init[k].service->Some_0.pattern@);
                assert(one.drop_last() =~= Seq::<EntryConfig>::empty());
                assert(one.last() == last);
                assert(entry_services(before, one.drop_last(), os) == before);
                assert(entry_services(before, one, os) == after);
            } else {
                merged_services_has_own(before, last);
            }
        }
    }
}

proof fn covered_apps_are_stable(apps: Seq<App>, configs: Seq<EntryConfig>, os: Seq<char>)
    requires
        covers_apps(apps, configs, os),
    ensures
        entry_apps(apps, configs, os) == apps,
    decreases configs.len(),
{
    if configs.len() > 0 {
        let init = configs.drop_last();
        assert forall|k: int|
            0 <= k < init.len() && (#[trigger] init[k]).compatible_with(os)
                && init[k].app is Some implies has_app(apps, init[k].app->Some_0.name@) by {
            assert(init[k] == configs[k]);
        }
        covered_apps_are_stable(apps, init, os);
        let k = configs.len() - 1;
        assert(configs[k] == configs.last());
    }
}

proof fn covered_services_are_stable(
    services: Seq<Service>,
    configs: Seq<EntryConfig>,
    os: Seq<char>,
)
    requires
        covers_services(services, configs, os),
    ensures
        entry_services(services, configs, os) == services,
    decreases configs.len(),
{
    if configs.len() > 0 {
        let init = configs.drop_last();
        assert forall|k: int|
            0 <= k < init.len() && (#[trigger] init[k]).compatible_with(os)
                && init[k].service is Some implies has_service(
            services,
            init[k].service->Some_0.pattern@,
        ) by {
            assert(init[k] == configs[k]);
        }
        covered_services_are_stable(services, init, os);
        let k = configs.len() - 1;
        assert(configs[k] == configs.last());
    }
}

/// Applying the same template twice on a host gives the configuration that
/// applying it once gives: the second pass finds every application and
/// service of the compatible fragments already present and adds nothing.
pub proof fn apply_entry_is_idempotent(
    apps: Seq<App>,
    services: Seq<Service>,
    configs: Seq<EntryConfig>,
    os: Seq<char>,
)
    ensures
        entry_apps(entry_apps(apps, configs, os), configs, os) == entry_apps(apps, configs, os),
        entry_services(entry_services(services, configs, os), configs, os) == entry_services(
            services,
            configs,
            os,
        ),
{
    entry_apps_covers(apps, configs, os);
    covered_apps_are_stable(entry_apps(apps, configs, os), configs, os);
    entry_services_covers(services, configs, os);
    covered_services_are_stable(entry_services(services, configs, os), configs, os);
}

} // verus!
