use crate::error::LifecycleError;
use crate::provision::{
    directories_of, engine_dirs, fresh_record, layout_of, made_directories, new_record, opt_slice,
    or_default, owned, port_or_default, spec_or_default, spec_port_or_default, Arch, ConfigFile,
    InstallPlan,
};
use crate::registry::{added, registry_ok, Registry};
use crate::state::AppState;
use crate::table::{listed, Table};
use crate::text::{
    concat, concat_all, contains, decimal, lines, opt_text, slices, spec_concat_all, spec_contains,
    spec_decimal, spec_lines, spec_split_whitespace, spec_starts_with, spec_trim, split_whitespace,
    starts_with, texts, trim,
};
use crate::types::{DatabaseInfo, DatabaseRecord, DatabaseStatus, DatabaseType};
use crate::provision::{
    arguments, conclude_install, concluded, spawn_outcome, start_after_install, InitCondition,
    Initialization, Invocation, SpawnPlan, SpawnView, StartReport,
};
use crate::text::{parse_u32, spec_parse_bounded, spec_trim_start, trim_start};
use crate::utils::{
    generate_id, get_db_data_path, get_db_log_path, get_timestamp, join_path, parent_path,
    path_join, path_parent, spec_db_path, spec_timestamp,
};
use vstd::prelude::*;

verus! {

/// What is asked for when an engine is installed through Homebrew.
#[derive(Clone, Copy, Debug)]
pub struct HomebrewInstallOptions<'a> {
    pub version: Option<&'a str>,
    pub port: Option<u16>,
    pub username: Option<&'a str>,
    pub password: Option<&'a str>,
    pub auto_start: bool,
}

impl<'a> Default for HomebrewInstallOptions<'a> {
    fn default() -> (options: Self)
        ensures
            options.version is None,
            options.port is None,
            options.username is None,
            options.password is None,
            options.auto_start,
    {
        HomebrewInstallOptions {
            version: None,
            port: None,
            username: None,
            password: None,
            auto_start: true,
        }
    }
}

/// Whether a line of the service list names a started service. A line tells
/// of a service where it has two fields or more: the name, then the state.
pub open spec fn line_entry(line: Seq<char>) -> Option<(Seq<char>, bool)> {
    let fields = spec_split_whitespace(line);
    if fields.len() >= 2 {
        Some((fields[0], fields[1] == "started"@))
    } else {
        None
    }
}

/// Whether each service is started, by the first `n` lines of a service
/// list. The first line is the heading; where a name comes twice the later
/// line counts.
pub open spec fn listing_map(lines: Seq<Seq<char>>, n: int) -> Map<Seq<char>, bool>
    decreases n,
{
    if n <= 1 || n > lines.len() {
        Map::empty()
    } else {
        let before = listing_map(lines, n - 1);
        match line_entry(lines[n - 1]) {
            Some((name, started)) => before.insert(name, started),
            None => before,
        }
    }
}

/// The names of the services in the first `n` lines of a service list, each
/// once, in the order in which they come first.
pub open spec fn listing_names(lines: Seq<Seq<char>>, n: int) -> Seq<Seq<char>>
    decreases n,
{
    if n <= 1 || n > lines.len() {
        Seq::empty()
    } else {
        let before = listing_names(lines, n - 1);
        match line_entry(lines[n - 1]) {
            Some((name, started)) => if listed(before, name) {
                before
            } else {
                before.push(name)
            },
            None => before,
        }
    }
}

/// Whether each service is started, by the text of a service list.
pub open spec fn spec_services(output: Seq<char>) -> Map<Seq<char>, bool> {
    listing_map(spec_lines(output), spec_lines(output).len() as int)
}

/// The names of the services in the text of a service list.
pub open spec fn spec_service_order(output: Seq<char>) -> Seq<Seq<char>> {
    listing_names(spec_lines(output), spec_lines(output).len() as int)
}

/// Reads the service list that `brew services list` prints: a heading, then
/// one line for each service with its name and its state. A service is
/// started where its state is the word `started`. Without a list there are
/// no services.
pub fn get_all_homebrew_services_status(output: Option<&str>) -> (services: Table<bool>)
    ensures
        match output {
            Some(text) => services@ == spec_services(text@) && services.key_seq()
                == spec_service_order(text@),
            None => services@ == Map::<Seq<char>, bool>::empty() && services.key_seq()
                == Seq::<Seq<char>>::empty(),
        },
{
    let mut services: Table<bool> = Table::new();
    let text = match output {
        Some(text) => text,
        None => {
            return services;
        },
    };
    let all = lines(text);
    let ghost all_lines = spec_lines(text@);
    let n = all.len();
    if n <= 1 {
        return services;
    }
    let mut i: usize = 1;
    while i < n
        invariant
            1 <= i <= n,
            n == all.len(),
            texts(all@) == all_lines,
            services@ == listing_map(all_lines, i as int),
            services.key_seq() == listing_names(all_lines, i as int),
        decreases n - i,
    {
        let fields = split_whitespace(all[i].as_str());
        assert(all_lines[i as int] == all[i as int]@);
        if fields.len() >= 2 {
            assert(texts(fields@)[0] == fields[0]@);
            assert(texts(fields@)[1] == fields[1]@);
            let started = *fields[1].as_str() == *"started";
            let _ = services.insert(fields[0].clone(), started);
        }
        i += 1;
    }
    services
}

/// Whether the text of a service list lists a service as started: the
/// service has a line of its own, and its state there is the word `started`.
pub open spec fn spec_service_started(listing: Seq<char>, service: Seq<char>) -> bool {
    spec_services(listing).dom().contains(service) && spec_services(listing)[service]
}

/// What the text of the service list says of one service: whether the line
/// of that service lists it as started. A service without a line is not
/// started. Without a list nothing is known.
pub fn get_homebrew_service_status(listing: Option<&str>, service: &str) -> (status: Option<bool>)
    ensures
        status == (match listing {
            Some(text) => Some(spec_service_started(text@, service@)),
            None => None,
        }),
{
    match listing {
        Some(text) => {
            let services = get_all_homebrew_services_status(Some(text));
            match services.get(service) {
                Some(started) => Some(*started),
                None => Some(false),
            }
        },
        None => None,
    }
}

/// The version in what `brew list --versions` prints for a formula: the
/// second field, if there is one.
pub open spec fn spec_formula_version(output: Seq<char>) -> Option<Seq<char>> {
    let fields = spec_split_whitespace(output);
    if fields.len() >= 2 {
        Some(fields[1])
    } else {
        None
    }
}

/// The version in what `brew list --versions` prints for a formula.
pub fn formula_version(output: &str) -> (version: Option<String>)
    ensures
        crate::text::opt_text(version) == spec_formula_version(output@),
{
    let fields = split_whitespace(output);
    if fields.len() >= 2 {
        assert(texts(fields@)[1] == fields[1]@);
        Some(fields[1].clone())
    } else {
        None
    }
}

/// Whether a formula is installed, by how `brew list --versions` ended and
/// what it printed: it ended well and printed more than white space.
pub fn is_formula_installed(succeeded: bool, output: &str) -> (installed: bool)
    ensures
        installed == (succeeded && spec_trim(output@).len() > 0),
{
    if !succeeded {
        return false;
    }
    let trimmed = trim(output);
    trimmed.as_str().unicode_len() > 0
}

/// Whether a tap is among the taps that `brew tap` printed: some line holds
/// its name.
pub open spec fn spec_tap_listed(output: Seq<char>, tap: Seq<char>) -> bool {
    exists|i: int| 0 <= i < spec_lines(output).len() && spec_contains(spec_lines(output)[i], tap)
}

/// Whether a tap is among the taps that `brew tap` printed.
pub fn is_tap_exists(output: &str, tap: &str) -> (known: bool)
    ensures
        known == spec_tap_listed(output@, tap@),
{
    let all = lines(output);
    let mut i: usize = 0;
    while i < all.len()
        invariant
            i <= all.len(),
            texts(all@) == spec_lines(output@),
            forall|j: int| 0 <= j < i ==> !spec_contains(spec_lines(output@)[j], tap@),
        decreases all.len() - i,
    {
        assert(spec_lines(output@)[i as int] == all[i as int]@);
        if contains(all[i].as_str(), tap) {
            return true;
        }
        i += 1;
    }
    false
}

/// Whether a failed start is worth a second try: the service manager could
/// not take the service in, which a stop and a short wait often mend.
pub fn should_retry_start(error_message: &str) -> (retry: bool)
    ensures
        retry == (spec_contains(error_message@, "Bootstrap failed: 5"@) || spec_contains(
            error_message@,
            "Input/output error"@,
        )),
{
    contains(error_message, "Bootstrap failed: 5") || contains(error_message, "Input/output error")
}

/// Whether a stop that ended badly did so only because the service was not
/// started: that counts as stopped.
pub fn stop_failure_is_benign(stderr: &str) -> (benign: bool)
    ensures
        benign == (spec_contains(stderr@, "Service `"@) && spec_contains(
            stderr@,
            "is not started"@,
        )),
{
    contains(stderr, "Service `") && contains(stderr, "is not started")
}

/// The name under which Homebrew knows the service, and the formula, of an
/// engine.
pub open spec fn spec_brew_service_name(db_type: DatabaseType) -> Seq<char> {
    match db_type {
        DatabaseType::Redis => "redis"@,
        DatabaseType::MySQL => "mysql"@,
        DatabaseType::PostgreSQL => "postgresql"@,
        DatabaseType::MongoDB => "mongodb-community@7.0"@,
        DatabaseType::Qdrant => "qdrant"@,
        DatabaseType::SurrealDB => "surreal"@,
    }
}

/// The name under which Homebrew knows the service, and the formula, of an
/// engine.
pub fn get_brew_service_name(db_type: &DatabaseType) -> (name: &'static str)
    ensures
        name@ == spec_brew_service_name(*db_type),
{
    match db_type {
        DatabaseType::Redis => "redis",
        DatabaseType::MySQL => "mysql",
        DatabaseType::PostgreSQL => "postgresql",
        DatabaseType::MongoDB => "mongodb-community@7.0",
        DatabaseType::Qdrant => "qdrant",
        DatabaseType::SurrealDB => "surreal",
    }
}

/// A record as the service list shows it when the application comes up:
/// running or stopped by what the line of the engine's service says,
/// without a process id, stamped with `now`. Without a list the record
/// stays as it is.
pub open spec fn refreshed(record: DatabaseRecord, listing: Option<Seq<char>>, now: Seq<char>) -> DatabaseRecord {
    match listing {
        Some(text) => DatabaseRecord {
            status: if spec_service_started(text, spec_brew_service_name(record.db_type)) {
                DatabaseStatus::Running
            } else {
                DatabaseStatus::Stopped
            },
            pid: None,
            updated_at: now,
            ..record
        },
        None => record,
    }
}

/// Brings one record up to what the service list shows when the application
/// comes up.
pub fn refresh_record(db_info: &mut DatabaseInfo, listing: Option<&str>, now: &str)
    ensures
        final(db_info)@ == refreshed(old(db_info)@, opt_slice(listing), now@),
{
    let service = get_brew_service_name(&db_info.db_type);
    match get_homebrew_service_status(listing, service) {
        Some(is_running) => {
            db_info.status = if is_running {
                DatabaseStatus::Running
            } else {
                DatabaseStatus::Stopped
            };
            db_info.pid = None;
            db_info.updated_at = now.to_owned();
        },
        None => {},
    }
}

/// The configuration file of an engine below the `etc` directory of its
/// formula.
pub open spec fn spec_config_file_name(db_type: DatabaseType) -> Seq<char> {
    match db_type {
        DatabaseType::Redis => "redis.conf"@,
        DatabaseType::MySQL => "my.cnf"@,
        DatabaseType::PostgreSQL => "postgresql.conf"@,
        DatabaseType::MongoDB => "mongod.conf"@,
        DatabaseType::Qdrant => "config.yaml"@,
        DatabaseType::SurrealDB => "surrealdb.yaml"@,
    }
}

/// The configuration file of an engine below the `etc` directory of its
/// formula.
pub fn config_file_name(db_type: DatabaseType) -> (name: &'static str)
    ensures
        name@ == spec_config_file_name(db_type),
{
    match db_type {
        DatabaseType::Redis => "redis.conf",
        DatabaseType::MySQL => "my.cnf",
        DatabaseType::PostgreSQL => "postgresql.conf",
        DatabaseType::MongoDB => "mongod.conf",
        DatabaseType::Qdrant => "config.yaml",
        DatabaseType::SurrealDB => "surrealdb.yaml",
    }
}

/// The user that an engine installed through Homebrew has before anybody
/// sets one.
pub open spec fn spec_stock_username(db_type: DatabaseType) -> Option<Seq<char>> {
    match db_type {
        DatabaseType::MySQL => Some("root"@),
        DatabaseType::PostgreSQL => Some("postgres"@),
        _ => None,
    }
}

/// The record of an engine that Homebrew has installed and that the
/// registry does not hold. `prefix` and `versions` are what `brew --prefix`
/// and `brew list --versions` printed for the formula, where they ended
/// well.
pub open spec fn spec_info_from_homebrew(
    db_type: DatabaseType,
    storage: Seq<char>,
    is_running: bool,
    prefix: Option<Seq<char>>,
    versions: Option<Seq<char>>,
    now: Seq<char>,
) -> DatabaseRecord {
    let formula = spec_brew_service_name(db_type);
    let install_path = match prefix {
        Some(text) => spec_trim(text),
        None => "/usr/local/opt/"@ + formula,
    };
    let version = match versions {
        Some(text) => spec_or_default(spec_formula_version(text), "latest"@),
        None => "latest"@,
    };
    DatabaseRecord {
        id: "homebrew-sync-"@ + db_type.spec_as_str(),
        name: db_type.spec_display_name(),
        db_type,
        version,
        install_path,
        data_path: spec_db_path(storage, "data"@, db_type.spec_as_str()),
        log_path: spec_db_path(storage, "logs"@, db_type.spec_as_str()),
        port: db_type.spec_default_port(),
        username: spec_stock_username(db_type),
        password: None,
        config: Some(
            path_join(path_join(install_path, "etc"@), spec_config_file_name(db_type)),
        ),
        status: if is_running {
            DatabaseStatus::Running
        } else {
            DatabaseStatus::Stopped
        },
        auto_start: false,
        pid: None,
        created_at: now,
        updated_at: now,
    }
}

/// The record of an engine that Homebrew has installed and that the
/// registry does not hold.
pub fn create_info_from_homebrew(
    db_type: DatabaseType,
    storage_path: &str,
    is_running: bool,
    prefix: Option<&str>,
    versions: Option<&str>,
    now: String,
) -> (db_info: DatabaseInfo)
    ensures
        db_info@ == spec_info_from_homebrew(
            db_type,
            storage_path@,
            is_running,
            opt_slice(prefix),
            opt_slice(versions),
            now@,
        ),
{
    let formula = get_brew_service_name(&db_type);
    let install_path = match prefix {
        Some(text) => trim(text),
        None => concat("/usr/local/opt/", formula),
    };
    let version = match versions {
        Some(text) => match formula_version(text) {
            Some(v) => v,
            None => "latest".to_string(),
        },
        None => "latest".to_string(),
    };
    let etc = join_path(install_path.as_str(), "etc");
    let config_path = join_path(etc.as_str(), config_file_name(db_type));
    let username = match db_type {
        DatabaseType::MySQL => Some("root".to_string()),
        DatabaseType::PostgreSQL => Some("postgres".to_string()),
        _ => None,
    };
    DatabaseInfo {
        id: concat("homebrew-sync-", db_type.as_str()),
        name: db_type.display_name().to_string(),
        db_type,
        version,
        install_path,
        data_path: get_db_data_path(storage_path, db_type.as_str()),
        log_path: get_db_log_path(storage_path, db_type.as_str()),
        port: db_type.default_port(),
        username,
        password: None,
        config: Some(config_path),
        status: if is_running {
            DatabaseStatus::Running
        } else {
            DatabaseStatus::Stopped
        },
        auto_start: false,
        pid: None,
        created_at: now.clone(),
        updated_at: now,
    }
}

/// What Homebrew says of an engine that it has installed.
#[derive(Debug)]
pub struct HomebrewFinding {
    pub db_type: DatabaseType,
    /// What `brew --prefix` printed for the formula, where it ended well.
    pub prefix: Option<String>,
    /// What `brew list --versions` printed for the formula, where it ended
    /// well.
    pub versions: Option<String>,
}

/// The record that is made for a finding.
pub open spec fn finding_record(
    finding: HomebrewFinding,
    storage: Seq<char>,
    listing: Option<Seq<char>>,
    now: Seq<char>,
) -> DatabaseRecord {
    let is_running = match listing {
        Some(text) => spec_service_started(text, spec_brew_service_name(finding.db_type)),
        None => false,
    };
    spec_info_from_homebrew(
        finding.db_type,
        storage,
        is_running,
        opt_text(finding.prefix),
        opt_text(finding.versions),
        now,
    )
}

/// The registry after the first `n` findings were taken in: each engine that
/// the registry does not hold gets a record.
pub open spec fn synced(
    m: Registry,
    findings: Seq<HomebrewFinding>,
    n: int,
    storage: Seq<char>,
    listing: Option<Seq<char>>,
    now: Seq<char>,
) -> Registry
    decreases n,
{
    if n <= 0 || n > findings.len() {
        m
    } else {
        added(
            synced(m, findings, n - 1, storage, listing, now),
            finding_record(findings[n - 1], storage, listing, now),
        )
    }
}

/// Takes in the engines that Homebrew has installed: each one that the
/// registry does not hold gets a record, running or stopped by what the
/// line of its service in the service list says. Records that are there
/// stay as they are.
pub fn sync_with_homebrew(
    state: &mut AppState,
    findings: &Vec<HomebrewFinding>,
    storage_path: &str,
    listing: Option<&str>,
    now: &str,
)
    ensures
        final(state).same_but_records(old(state)),
        registry_ok(final(state).databases@),
        final(state).databases@ == synced(
            old(state).databases@,
            findings@,
            findings.len() as int,
            storage_path@,
            opt_slice(listing),
            now@,
        ),
{
    let mut i: usize = 0;
    proof {
        use_type_invariant(&state.databases);
    }
    while i < findings.len()
        invariant
            i <= findings.len(),
            state.same_but_records(old(state)),
            registry_ok(state.databases@),
            state.databases@ == synced(
                old(state).databases@,
                findings@,
                i as int,
                storage_path@,
                opt_slice(listing),
                now@,
            ),
        decreases findings.len() - i,
    {
        let finding = &findings[i];
        let service = get_brew_service_name(&finding.db_type);
        let is_running = match get_homebrew_service_status(listing, service) {
            Some(running) => running,
            None => false,
        };
        let prefix = match &finding.prefix {
            Some(p) => Some(p.as_str()),
            None => None,
        };
        let versions = match &finding.versions {
            Some(v) => Some(v.as_str()),
            None => None,
        };
        let db_info = create_info_from_homebrew(
            finding.db_type,
            storage_path,
            is_running,
            prefix,
            versions,
            now.to_owned(),
        );
        assert(db_info@ == finding_record(findings[i as int], storage_path@, opt_slice(listing), now@));
        let _ = state.add_database(db_info);
        i += 1;
    }
}

/// Brings every record up to what the service list shows when the
/// application comes up.
pub fn refresh_from_listing(state: &mut AppState, listing: Option<&str>, now: &str)
    ensures
        final(state).same_but_records(old(state)),
        registry_ok(final(state).databases@),
        final(state).databases@.dom() == old(state).databases@.dom(),
        forall|k: Seq<char>|
            old(state).databases@.dom().contains(k) ==> #[trigger] final(state).databases@[k]
                == refreshed(old(state).databases@[k], opt_slice(listing), now@),
{
    let all = state.databases.all();
    let ghost before = state.databases@;
    let ghost order = state.databases.order();
    let n = all.len();
    let mut i: usize = 0;
    while i < n
        invariant
            i <= n,
            n == all.len(),
            crate::state::listing(before, order, crate::types::records_of(all@)),
            registry_ok(before),
            registry_ok(state.databases@),
            state.databases@.dom() == before.dom(),
            state.same_but_records(old(state)),
            forall|j: int|
                0 <= j < i ==> #[trigger] state.databases@[order[j]] == refreshed(
                    before[order[j]],
                    opt_slice(listing),
                    now@,
                ),
            forall|j: int| i <= j < n ==> #[trigger] state.databases@[order[j]] == before[order[j]],
        decreases n - i,
    {
        let mut db_info = all[i].clone();
        let ghost current = state.databases@;
        let ghost key = order[i as int];
        proof {
            assert(crate::types::records_of(all@)[i as int] == before[key]);
            assert(db_info@ == before[key]);
            assert(before[key].id == key);
            assert(current[key] == before[key]);
        }
        refresh_record(&mut db_info, listing, now);
        proof {
            crate::registry::lemma_upsert_in_place(current, db_info@);
        }
        state.update_database(db_info);
        proof {
            assert(state.databases@.dom() =~= before.dom());
            assert forall|j: int| 0 <= j < i implies #[trigger] state.databases@[order[j]]
                == refreshed(before[order[j]], opt_slice(listing), now@) by {
                assert(order[j] != key);
                assert(state.databases@[order[j]] == current[order[j]]);
            }
            assert forall|j: int| i < j < n implies #[trigger] state.databases@[order[j]]
                == before[order[j]] by {
                assert(order[j] != key);
                assert(state.databases@[order[j]] == current[order[j]]);
            }
        }
        i += 1;
    }
    proof {
        assert forall|k: Seq<char>| before.dom().contains(k) implies #[trigger] state.databases@[k]
            == refreshed(before[k], opt_slice(listing), now@) by {
            assert(listed(order, k));
            let p = crate::table::position(order, k);
            assert(order[p] == k);
        }
    }
}

/// The formulas by which the engines are looked for that Homebrew may have
/// installed, with the engine of each.
pub open spec fn spec_sync_formulas() -> Seq<(Seq<char>, DatabaseType)> {
    seq![
        ("redis"@, DatabaseType::Redis),
        ("mysql"@, DatabaseType::MySQL),
        ("postgresql"@, DatabaseType::PostgreSQL),
        ("mongodb-community@7.0"@, DatabaseType::MongoDB),
        ("surreal"@, DatabaseType::SurrealDB),
    ]
}

/// The formulas by which the engines are looked for that Homebrew may have
/// installed, with the engine of each.
pub fn sync_formulas() -> (formulas: Vec<(&'static str, DatabaseType)>)
    ensures
        formulas@.map_values(|f: (&'static str, DatabaseType)| (f.0@, f.1)) == spec_sync_formulas(),
{
    let formulas = vec![
        ("redis", DatabaseType::Redis),
        ("mysql", DatabaseType::MySQL),
        ("postgresql", DatabaseType::PostgreSQL),
        ("mongodb-community@7.0", DatabaseType::MongoDB),
        ("surreal", DatabaseType::SurrealDB),
    ];
    assert(formulas@.map_values(|f: (&'static str, DatabaseType)| (f.0@, f.1))
        =~= spec_sync_formulas());
    formulas
}

/// The engines among the first `n` of `formulas` whose formula is installed,
/// in their order. A formula of which nothing is told counts as not
/// installed.
pub open spec fn installed_among(
    formulas: Seq<(Seq<char>, DatabaseType)>,
    installed: Seq<bool>,
    n: int,
) -> Seq<DatabaseType>
    decreases n,
{
    if n <= 0 || n > formulas.len() {
        Seq::empty()
    } else if n - 1 < installed.len() && installed[n - 1] {
        installed_among(formulas, installed, n - 1).push(formulas[n - 1].1)
    } else {
        installed_among(formulas, installed, n - 1)
    }
}

/// The engines that Homebrew has installed. `installed` tells of each of the
/// formulas by which the engines are looked for whether it is installed.
pub fn get_installed_databases_from_homebrew(installed: &Vec<bool>) -> (found: Vec<DatabaseType>)
    ensures
        found@ == installed_among(
            spec_sync_formulas(),
            installed@,
            spec_sync_formulas().len() as int,
        ),
{
    let formulas = sync_formulas();
    let ghost table = spec_sync_formulas();
    let mut found: Vec<DatabaseType> = Vec::new();
    let mut i: usize = 0;
    while i < formulas.len()
        invariant
            i <= formulas.len(),
            formulas@.map_values(|f: (&'static str, DatabaseType)| (f.0@, f.1)) == table,
            found@ == installed_among(table, installed@, i as int),
        decreases formulas.len() - i,
    {
        assert(table[i as int].1 == formulas[i as int].1);
        if i < installed.len() && installed[i] {
            found.push(formulas[i].1);
        }
        i += 1;
    }
    found
}

/// How an engine is got and run through Homebrew.
#[derive(Debug, PartialEq, Eq)]
pub struct HomebrewDatabaseRecipe {
    pub db_type: DatabaseType,
    pub tap: Option<&'static str>,
    pub formula: &'static str,
    pub service_name: &'static str,
    pub port: u16,
}

/// What a `HomebrewDatabaseRecipe` holds, as plain values.
pub struct RecipeView {
    pub db_type: DatabaseType,
    pub tap: Option<Seq<char>>,
    pub formula: Seq<char>,
    pub service_name: Seq<char>,
    pub port: u16,
}

impl View for HomebrewDatabaseRecipe {
    type V = RecipeView;

    open spec fn view(&self) -> RecipeView {
        RecipeView {
            db_type: self.db_type,
            tap: match self.tap {
                Some(t) => Some(t@),
                None => None,
            },
            formula: self.formula@,
            service_name: self.service_name@,
            port: self.port,
        }
    }
}

impl HomebrewDatabaseRecipe {
    /// How an engine is got and run through Homebrew, or why it is not.
    pub open spec fn spec_resolve(db_type: DatabaseType) -> Result<RecipeView, Seq<char>> {
        match db_type {
            DatabaseType::Redis => Ok(
                RecipeView {
                    db_type,
                    tap: None,
                    formula: "redis"@,
                    service_name: "redis"@,
                    port: 6379,
                },
            ),
            DatabaseType::MySQL => Ok(
                RecipeView {
                    db_type,
                    tap: None,
                    formula: "mysql@8.4"@,
                    service_name: "mysql@8.4"@,
                    port: 3306,
                },
            ),
            DatabaseType::PostgreSQL => Ok(
                RecipeView {
                    db_type,
                    tap: None,
                    formula: "postgresql@18"@,
                    service_name: "postgresql@18"@,
                    port: 5432,
                },
            ),
            DatabaseType::MongoDB => Ok(
                RecipeView {
                    db_type,
                    tap: Some("mongodb/brew"@),
                    formula: "mongodb-community@7.0"@,
                    service_name: "mongodb-community@7.0"@,
                    port: 27017,
                },
            ),
            DatabaseType::Qdrant => Err("Qdrant should be installed via binary, not Homebrew"@),
            DatabaseType::SurrealDB => Err(
                "SurrealDB should be started via direct process, not brew services"@,
            ),
        }
    }

    /// How an engine is got and run through Homebrew. Qdrant and SurrealDB
    /// are not run as services of Homebrew.
    pub fn resolve(db_type: &DatabaseType) -> (outcome: Result<Self, LifecycleError>)
        ensures
            match Self::spec_resolve(*db_type) {
                Ok(view) => outcome matches Ok(recipe) && recipe@ == view,
                Err(text) => outcome matches Err(LifecycleError::Provisioning(said)) && said@
                    == text,
            },
    {
        match db_type {
            DatabaseType::Redis => Ok(
                HomebrewDatabaseRecipe {
                    db_type: DatabaseType::Redis,
                    tap: None,
                    formula: "redis",
                    service_name: "redis",
                    port: 6379,
                },
            ),
            DatabaseType::MySQL => Ok(
                HomebrewDatabaseRecipe {
                    db_type: DatabaseType::MySQL,
                    tap: None,
                    formula: "mysql@8.4",
                    service_name: "mysql@8.4",
                    port: 3306,
                },
            ),
            DatabaseType::PostgreSQL => Ok(
                HomebrewDatabaseRecipe {
                    db_type: DatabaseType::PostgreSQL,
                    tap: None,
                    formula: "postgresql@18",
                    service_name: "postgresql@18",
                    port: 5432,
                },
            ),
            DatabaseType::MongoDB => Ok(
                HomebrewDatabaseRecipe {
                    db_type: DatabaseType::MongoDB,
                    tap: Some("mongodb/brew"),
                    formula: "mongodb-community@7.0",
                    service_name: "mongodb-community@7.0",
                    port: 27017,
                },
            ),
            DatabaseType::Qdrant => Err(
                LifecycleError::Provisioning(
                    "Qdrant should be installed via binary, not Homebrew".to_string(),
                ),
            ),
            DatabaseType::SurrealDB => Err(
                LifecycleError::Provisioning(
                    "SurrealDB should be started via direct process, not brew services".to_string(),
                ),
            ),
        }
    }
}

/// The user of an engine that is installed through Homebrew: the one that
/// was asked for, or `admin` for the engines that have users.
pub open spec fn spec_resolve_username(db_type: DatabaseType, given: Option<Seq<char>>) -> Option<
    Seq<char>,
> {
    match given {
        Some(name) => Some(name),
        None => match db_type {
            DatabaseType::Redis => None,
            DatabaseType::Qdrant => None,
            _ => Some("admin"@),
        },
    }
}

/// The user of an engine that is installed through Homebrew.
pub fn resolve_username(db_type: &DatabaseType, override_username: Option<&str>) -> (username:
    Option<String>)
    ensures
        opt_text(username) == spec_resolve_username(*db_type, opt_slice(override_username)),
{
    match override_username {
        Some(name) => Some(name.to_owned()),
        None => match db_type {
            DatabaseType::Redis => None,
            DatabaseType::Qdrant => None,
            _ => Some("admin".to_string()),
        },
    }
}

/// The password of an engine that is installed through Homebrew: the one
/// that was asked for, or `admin888` for the engines that have users.
pub open spec fn spec_resolve_password(db_type: DatabaseType, given: Option<Seq<char>>) -> Option<
    Seq<char>,
> {
    match given {
        Some(password) => Some(password),
        None => match db_type {
            DatabaseType::Redis => None,
            DatabaseType::Qdrant => None,
            _ => Some("admin888"@),
        },
    }
}

/// The password of an engine that is installed through Homebrew.
pub fn resolve_password(db_type: &DatabaseType, override_password: Option<&str>) -> (password:
    Option<String>)
    ensures
        opt_text(password) == spec_resolve_password(*db_type, opt_slice(override_password)),
{
    match override_password {
        Some(password) => Some(password.to_owned()),
        None => match db_type {
            DatabaseType::Redis => None,
            DatabaseType::Qdrant => None,
            _ => Some("admin888".to_string()),
        },
    }
}

/// The archive in which Qdrant is released for macOS.
pub open spec fn spec_qdrant_binary_name(arch: Arch) -> Seq<char> {
    match arch {
        Arch::Aarch64 => "qdrant-aarch64-apple-darwin.tar.gz"@,
        Arch::X86_64 => "qdrant-x86_64-apple-darwin.tar.gz"@,
    }
}

/// The archive in which Qdrant is released for macOS.
pub fn get_qdrant_binary_name(arch: Arch) -> (name: &'static str)
    ensures
        name@ == spec_qdrant_binary_name(arch),
{
    match arch {
        Arch::Aarch64 => "qdrant-aarch64-apple-darwin.tar.gz",
        Arch::X86_64 => "qdrant-x86_64-apple-darwin.tar.gz",
    }
}

/// The tag of a release: the version, with a `v` before it where it has
/// none.
pub open spec fn spec_release_tag(version: Seq<char>) -> Seq<char> {
    if spec_starts_with(version, "v"@) {
        version
    } else {
        "v"@ + version
    }
}

/// Where Qdrant is fetched from: the release of the version that was asked
/// for, or the latest one.
pub open spec fn spec_qdrant_download_url(version: Option<Seq<char>>, arch: Arch) -> Seq<char> {
    match version {
        Some(v) => "https://github.com/qdrant/qdrant/releases/download/"@ + spec_release_tag(v)
            + "/"@ + spec_qdrant_binary_name(arch),
        None => "https://github.com/qdrant/qdrant/releases/latest/download/"@
            + spec_qdrant_binary_name(arch),
    }
}

/// Where Qdrant is fetched from.
pub fn get_qdrant_download_url(version: Option<&str>, arch: Arch) -> (url: String)
    ensures
        url@ == spec_qdrant_download_url(opt_slice(version), arch),
{
    let binary_name = get_qdrant_binary_name(arch);
    match version {
        Some(v) => {
            let tag = if starts_with(v, "v") {
                v.to_owned()
            } else {
                concat("v", v)
            };
            let mut url = concat("https://github.com/qdrant/qdrant/releases/download/", tag.as_str());
            url.append("/");
            url.append(binary_name);
            url
        },
        None => concat("https://github.com/qdrant/qdrant/releases/latest/download/", binary_name),
    }
}

/// The configuration of Qdrant on macOS.
pub open spec fn spec_qdrant_config(port: u16, data_path: Seq<char>) -> Seq<char> {
    spec_concat_all(
        seq![
            "# Qdrant configuration for local-db\nservice:\n  host: 0.0.0.0\n  http_port: "@,
            spec_decimal(port as nat),
            "\n  grpc_port: "@,
            spec_decimal((port + 1) as nat),
            "\n\nlog_level: INFO\n\nstorage:\n  storage_path: "@,
            data_path,
            "\n\ntelemetry_disabled: true\n"@,
        ],
    )
}

/// The configuration of Qdrant on macOS: it listens on `port`, and for gRPC
/// on the port after it.
pub fn qdrant_config(port: u16, data_path: &str) -> (content: String)
    ensures
        content@ == spec_qdrant_config(port, data_path@),
{
    let port_text = decimal(port as u128);
    let grpc_text = decimal(port as u128 + 1);
    let parts = vec![
        "# Qdrant configuration for local-db\nservice:\n  host: 0.0.0.0\n  http_port: ",
        port_text.as_str(),
        "\n  grpc_port: ",
        grpc_text.as_str(),
        "\n\nlog_level: INFO\n\nstorage:\n  storage_path: ",
        data_path,
        "\n\ntelemetry_disabled: true\n",
    ];
    assert(slices(parts@) =~= seq![
        "# Qdrant configuration for local-db\nservice:\n  host: 0.0.0.0\n  http_port: "@,
        spec_decimal(port as nat),
        "\n  grpc_port: "@,
        spec_decimal((port + 1) as nat),
        "\n\nlog_level: INFO\n\nstorage:\n  storage_path: "@,
        data_path@,
        "\n\ntelemetry_disabled: true\n"@,
    ]);
    concat_all(&parts)
}

/// What the installation of Qdrant on macOS is to do: the binary is fetched
/// from the releases of Qdrant, not from Homebrew.
pub open spec fn qdrant_plan(
    plan: InstallPlan,
    storage: Seq<char>,
    options: HomebrewInstallOptions<'_>,
    arch: Arch,
    id: Seq<char>,
    now: Seq<char>,
) -> bool {
    let dirs = engine_dirs(storage, "qdrant"@);
    let log_file = path_join(dirs.logs, "qdrant.log"@);
    let config_path = path_join(dirs.config, "config.yaml"@);
    let chosen = spec_port_or_default(options.port, DatabaseType::Qdrant);
    &&& texts(plan.directories@) == made_directories(dirs, true)
    &&& plan.binary_path@ == path_join(dirs.bin, "qdrant"@)
    &&& plan.download_url@ == spec_qdrant_download_url(opt_slice(options.version), arch)
    &&& plan.archive_path is None
    &&& plan.unpack_dir@ == dirs.bin
    &&& plan.config_file matches Some(file)
    &&& file.path@ == config_path
    &&& file.content@ == spec_qdrant_config(chosen, dirs.data)
    &&& plan.initialization is None
    &&& plan.record@ == fresh_record(
        id,
        "Qdrant"@,
        DatabaseType::Qdrant,
        spec_or_default(opt_slice(options.version), "latest"@),
        dirs.bin,
        dirs.data,
        log_file,
        chosen,
        None,
        opt_slice(options.password),
        Some(config_path),
        options.auto_start,
        now,
    )
    &&& plan.auto_start == options.auto_start
}

/// What the installation of Qdrant on macOS is to do.
pub fn install_qdrant_binary(
    storage_path: &str,
    options: &HomebrewInstallOptions<'_>,
    arch: Arch,
    id: String,
    now: String,
) -> (plan: InstallPlan)
    ensures
        qdrant_plan(plan, storage_path@, *options, arch, id@, now@),
{
    let layout = layout_of(storage_path, "qdrant");
    let log_file = join_path(layout.logs.as_str(), "qdrant.log");
    let config_path = join_path(layout.config.as_str(), "config.yaml");
    let binary_path = join_path(layout.bin.as_str(), "qdrant");
    let port = port_or_default(options.port, DatabaseType::Qdrant);
    let content = qdrant_config(port, layout.data.as_str());
    let record = new_record(
        id,
        "Qdrant",
        DatabaseType::Qdrant,
        or_default(options.version, "latest"),
        layout.bin.clone(),
        layout.data.clone(),
        log_file,
        port,
        None,
        owned(options.password),
        Some(config_path.clone()),
        options.auto_start,
        now,
    );
    InstallPlan {
        directories: directories_of(&layout, true),
        binary_path,
        download_url: get_qdrant_download_url(options.version, arch),
        archive_path: None,
        unpack_dir: layout.bin,
        config_file: Some(ConfigFile { path: config_path, content }),
        initialization: None,
        record,
        auto_start: options.auto_start,
    }
}

/// The formula under whose prefix the configuration of an engine lies.
pub open spec fn spec_config_formula(db_type: DatabaseType) -> Seq<char> {
    match db_type {
        DatabaseType::Redis => "redis"@,
        DatabaseType::MySQL => "mysql@8.4"@,
        DatabaseType::PostgreSQL => "postgresql@18"@,
        DatabaseType::MongoDB => "mongodb-community@7.0"@,
        DatabaseType::Qdrant => "qdrant"@,
        DatabaseType::SurrealDB => "surreal"@,
    }
}

/// The formula under whose prefix the configuration of an engine lies.
pub fn config_formula(db_type: DatabaseType) -> (formula: &'static str)
    ensures
        formula@ == spec_config_formula(db_type),
{
    match db_type {
        DatabaseType::Redis => "redis",
        DatabaseType::MySQL => "mysql@8.4",
        DatabaseType::PostgreSQL => "postgresql@18",
        DatabaseType::MongoDB => "mongodb-community@7.0",
        DatabaseType::Qdrant => "qdrant",
        DatabaseType::SurrealDB => "surreal",
    }
}

/// The name of the configuration file that is written for an engine, below
/// `etc` under the prefix of its formula.
pub open spec fn spec_written_config_name(db_type: DatabaseType) -> Seq<char> {
    match db_type {
        DatabaseType::SurrealDB => "surrealdb.env"@,
        _ => spec_config_file_name(db_type),
    }
}

/// The name of the log file of an engine.
pub open spec fn spec_log_file_name(db_type: DatabaseType) -> Seq<char> {
    match db_type {
        DatabaseType::Redis => "redis.log"@,
        DatabaseType::MySQL => "mysqld.log"@,
        DatabaseType::PostgreSQL => "postgresql.log"@,
        DatabaseType::MongoDB => "mongod.log"@,
        DatabaseType::Qdrant => "qdrant.log"@,
        DatabaseType::SurrealDB => "surrealdb.log"@,
    }
}

/// The name of the log file of an engine.
pub fn log_file_name(db_type: DatabaseType) -> (name: &'static str)
    ensures
        name@ == spec_log_file_name(db_type),
{
    match db_type {
        DatabaseType::Redis => "redis.log",
        DatabaseType::MySQL => "mysqld.log",
        DatabaseType::PostgreSQL => "postgresql.log",
        DatabaseType::MongoDB => "mongod.log",
        DatabaseType::Qdrant => "qdrant.log",
        DatabaseType::SurrealDB => "surrealdb.log",
    }
}

/// Whether a line of `redis.conf` sets the directive `key`: it begins with
/// it, white space before it aside.
pub open spec fn sets_directive(line: Seq<char>, key: Seq<char>) -> bool {
    spec_starts_with(spec_trim_start(line), key)
}

/// The first `n` lines of a `redis.conf` with the data directory and the log
/// file put in where the lines set them.
pub open spec fn rewritten_lines(
    lines: Seq<Seq<char>>,
    n: int,
    data_dir: Seq<char>,
    log_file: Seq<char>,
) -> Seq<char>
    decreases n,
{
    if n <= 0 || n > lines.len() {
        Seq::empty()
    } else {
        let before = rewritten_lines(lines, n - 1, data_dir, log_file);
        let line = lines[n - 1];
        if sets_directive(line, "dir "@) {
            before + "dir "@ + data_dir + "\n"@
        } else if sets_directive(line, "logfile "@) {
            before + "logfile "@ + log_file + "\n"@
        } else {
            before + line + "\n"@
        }
    }
}

/// Whether one of the lines sets the data directory.
pub open spec fn sets_dir(lines: Seq<Seq<char>>) -> bool {
    exists|i: int| 0 <= i < lines.len() && sets_directive(#[trigger] lines[i], "dir "@)
}

/// Whether one of the lines sets the log file and does not set the data
/// directory.
pub open spec fn sets_logfile(lines: Seq<Seq<char>>) -> bool {
    exists|i: int|
        0 <= i < lines.len() && !sets_directive(#[trigger] lines[i], "dir "@) && sets_directive(
            lines[i],
            "logfile "@,
        )
}

/// The `redis.conf` that is written: what was there, with the data directory
/// and the log file set to those of this library. Where they were not set
/// they are added, and a file that was empty gets the usual settings.
pub open spec fn spec_redis_conf(contents: Seq<char>, data_dir: Seq<char>, log_file: Seq<char>) -> Seq<
    char,
> {
    let lines = spec_lines(contents);
    let body = rewritten_lines(lines, lines.len() as int, data_dir, log_file);
    let with_dir = if contents.len() == 0 || !sets_dir(lines) {
        body + "dir "@ + data_dir + "\n"@
    } else {
        body
    };
    let with_log = if contents.len() == 0 || !sets_logfile(lines) {
        with_dir + "logfile "@ + log_file + "\n"@
    } else {
        with_dir
    };
    if contents.len() == 0 {
        with_log + "appendonly no\nloglevel notice\n"@
    } else {
        with_log
    }
}

/// The `redis.conf` that is written over the one that was there.
pub fn rewrite_redis_conf(contents: &str, data_dir: &str, log_file: &str) -> (rewritten: String)
    ensures
        rewritten@ == spec_redis_conf(contents@, data_dir@, log_file@),
{
    let all = lines(contents);
    let ghost all_lines = spec_lines(contents@);
    let mut rewritten = String::new();
    let mut has_dir = false;
    let mut has_logfile = false;
    let mut i: usize = 0;
    while i < all.len()
        invariant
            i <= all.len(),
            texts(all@) == all_lines,
            rewritten@ == rewritten_lines(all_lines, i as int, data_dir@, log_file@),
            has_dir == (exists|j: int|
                0 <= j < i && sets_directive(#[trigger] all_lines[j], "dir "@)),
            has_logfile == (exists|j: int|
                0 <= j < i && !sets_directive(#[trigger] all_lines[j], "dir "@) && sets_directive(
                    all_lines[j],
                    "logfile "@,
                )),
        decreases all.len() - i,
    {
        assert(all_lines[i as int] == all[i as int]@);
        let trimmed = trim_start(all[i].as_str());
        if starts_with(trimmed.as_str(), "dir ") {
            rewritten.append("dir ");
            rewritten.append(data_dir);
            rewritten.append("\n");
            has_dir = true;
        } else if starts_with(trimmed.as_str(), "logfile ") {
            rewritten.append("logfile ");
            rewritten.append(log_file);
            rewritten.append("\n");
            has_logfile = true;
        } else {
            rewritten.append(all[i].as_str());
            rewritten.append("\n");
        }
        i += 1;
    }
    let empty = contents.unicode_len() == 0;
    if empty || !has_dir {
        rewritten.append("dir ");
        rewritten.append(data_dir);
        rewritten.append("\n");
    }
    if empty || !has_logfile {
        rewritten.append("logfile ");
        rewritten.append(log_file);
        rewritten.append("\n");
    }
    if empty {
        rewritten.append("appendonly no\nloglevel notice\n");
    }
    rewritten
}

/// The configuration of MySQL on macOS.
pub open spec fn spec_mysql_config(
    port: u16,
    data_dir: Seq<char>,
    socket: Seq<char>,
    log_file: Seq<char>,
    pid_file: Seq<char>,
    user: Seq<char>,
) -> Seq<char> {
    spec_concat_all(
        seq![
            "[mysqld]\n\tdatadir = "@,
            data_dir,
            "\n\tsocket = "@,
            socket,
            "\n\tlog-error = "@,
            log_file,
            "\n\tpid-file = "@,
            pid_file,
            "\n\tport = "@,
            spec_decimal(port as nat),
            "\n\tuser = "@,
            user,
            "\n[client]\n\tsocket = "@,
            socket,
            "\n\tport = "@,
            spec_decimal(port as nat),
            "\n"@,
        ],
    )
}

/// The configuration of MySQL on macOS.
pub fn mysql_config(
    port: u16,
    data_dir: &str,
    socket: &str,
    log_file: &str,
    pid_file: &str,
    user: &str,
) -> (content: String)
    ensures
        content@ == spec_mysql_config(port, data_dir@, socket@, log_file@, pid_file@, user@),
{
    let port_text = decimal(port as u128);
    let parts = vec![
        "[mysqld]\n\tdatadir = ",
        data_dir,
        "\n\tsocket = ",
        socket,
        "\n\tlog-error = ",
        log_file,
        "\n\tpid-file = ",
        pid_file,
        "\n\tport = ",
        port_text.as_str(),
        "\n\tuser = ",
        user,
        "\n[client]\n\tsocket = ",
        socket,
        "\n\tport = ",
        port_text.as_str(),
        "\n",
    ];
    assert(slices(parts@) =~= seq![
        "[mysqld]\n\tdatadir = "@,
        data_dir@,
        "\n\tsocket = "@,
        socket@,
        "\n\tlog-error = "@,
        log_file@,
        "\n\tpid-file = "@,
        pid_file@,
        "\n\tport = "@,
        spec_decimal(port as nat),
        "\n\tuser = "@,
        user@,
        "\n[client]\n\tsocket = "@,
        socket@,
        "\n\tport = "@,
        spec_decimal(port as nat),
        "\n"@,
    ]);
    concat_all(&parts)
}

/// The configuration of PostgreSQL on macOS.
pub open spec fn spec_postgresql_config(port: u16, logs_dir: Seq<char>) -> Seq<char> {
    spec_concat_all(
        seq![
            "# PostgreSQL configuration for local-db\n# Port configuration\nport = "@,
            spec_decimal(port as nat),
            "\n\n# Connection settings\nlisten_addresses = 'localhost'\nmax_connections = 100\n\n# Memory settings\nshared_buffers = 128MB\neffective_cache_size = 512MB\nmaintenance_work_mem = 32MB\ncheckpoint_completion_target = 0.9\nwal_buffers = 4MB\ndefault_statistics_target = 100\nrandom_page_cost = 1.1\neffective_io_concurrency = 200\nwork_mem = 2621kB\nmin_wal_size = 1GB\nmax_wal_size = 4GB\n\n# Logging\nlogging_collector = on\nlog_directory = '"@,
            logs_dir,
            "'\nlog_filename = 'postgresql-%Y-%m-%d_%H%M%S.log'\nlog_rotation_age = 1d\nlog_rotation_size = 100MB\nlog_line_prefix = '%t [%p]: [%l-1] user=%u,db=%d,app=%a,client=%h '\nlog_timezone = 'UTC'\n\n# Locale and encoding\ndatestyle = 'iso, mdy'\ntimezone = 'UTC'\ndefault_text_search_config = 'pg_catalog.english'\n"@,
        ],
    )
}

/// The configuration of PostgreSQL on macOS.
pub fn postgresql_config(port: u16, logs_dir: &str) -> (content: String)
    ensures
        content@ == spec_postgresql_config(port, logs_dir@),
{
    let port_text = decimal(port as u128);
    let parts = vec![
        "# PostgreSQL configuration for local-db\n# Port configuration\nport = ",
        port_text.as_str(),
        "\n\n# Connection settings\nlisten_addresses = 'localhost'\nmax_connections = 100\n\n# Memory settings\nshared_buffers = 128MB\neffective_cache_size = 512MB\nmaintenance_work_mem = 32MB\ncheckpoint_completion_target = 0.9\nwal_buffers = 4MB\ndefault_statistics_target = 100\nrandom_page_cost = 1.1\neffective_io_concurrency = 200\nwork_mem = 2621kB\nmin_wal_size = 1GB\nmax_wal_size = 4GB\n\n# Logging\nlogging_collector = on\nlog_directory = '",
        logs_dir,
        "'\nlog_filename = 'postgresql-%Y-%m-%d_%H%M%S.log'\nlog_rotation_age = 1d\nlog_rotation_size = 100MB\nlog_line_prefix = '%t [%p]: [%l-1] user=%u,db=%d,app=%a,client=%h '\nlog_timezone = 'UTC'\n\n# Locale and encoding\ndatestyle = 'iso, mdy'\ntimezone = 'UTC'\ndefault_text_search_config = 'pg_catalog.english'\n",
    ];
    assert(slices(parts@) =~= seq![
        "# PostgreSQL configuration for local-db\n# Port configuration\nport = "@,
        spec_decimal(port as nat),
        "\n\n# Connection settings\nlisten_addresses = 'localhost'\nmax_connections = 100\n\n# Memory settings\nshared_buffers = 128MB\neffective_cache_size = 512MB\nmaintenance_work_mem = 32MB\ncheckpoint_completion_target = 0.9\nwal_buffers = 4MB\ndefault_statistics_target = 100\nrandom_page_cost = 1.1\neffective_io_concurrency = 200\nwork_mem = 2621kB\nmin_wal_size = 1GB\nmax_wal_size = 4GB\n\n# Logging\nlogging_collector = on\nlog_directory = '"@,
        logs_dir@,
        "'\nlog_filename = 'postgresql-%Y-%m-%d_%H%M%S.log'\nlog_rotation_age = 1d\nlog_rotation_size = 100MB\nlog_line_prefix = '%t [%p]: [%l-1] user=%u,db=%d,app=%a,client=%h '\nlog_timezone = 'UTC'\n\n# Locale and encoding\ndatestyle = 'iso, mdy'\ntimezone = 'UTC'\ndefault_text_search_config = 'pg_catalog.english'\n"@,
    ]);
    concat_all(&parts)
}

/// The environment file of SurrealDB on macOS.
pub open spec fn spec_surrealdb_config(port: u16, data_dir: Seq<char>, log_file: Seq<char>) -> Seq<
    char,
> {
    spec_concat_all(
        seq![
            "# SurrealDB configuration for local-db\n# Data directory\nSURREAL_PATH="@,
            data_dir,
            "\n# Server bind address\nSURREAL_BIND=0.0.0.0:"@,
            spec_decimal(port as nat),
            "\n# Log level\nSURREAL_LOG=info\n# Log file\nSURREAL_LOG_FILE="@,
            log_file,
            "\n"@,
        ],
    )
}

/// The environment file of SurrealDB on macOS.
pub fn surrealdb_config(port: u16, data_dir: &str, log_file: &str) -> (content: String)
    ensures
        content@ == spec_surrealdb_config(port, data_dir@, log_file@),
{
    let port_text = decimal(port as u128);
    let parts = vec![
        "# SurrealDB configuration for local-db\n# Data directory\nSURREAL_PATH=",
        data_dir,
        "\n# Server bind address\nSURREAL_BIND=0.0.0.0:",
        port_text.as_str(),
        "\n# Log level\nSURREAL_LOG=info\n# Log file\nSURREAL_LOG_FILE=",
        log_file,
        "\n",
    ];
    assert(slices(parts@) =~= seq![
        "# SurrealDB configuration for local-db\n# Data directory\nSURREAL_PATH="@,
        data_dir@,
        "\n# Server bind address\nSURREAL_BIND=0.0.0.0:"@,
        spec_decimal(port as nat),
        "\n# Log level\nSURREAL_LOG=info\n# Log file\nSURREAL_LOG_FILE="@,
        log_file@,
        "\n"@,
    ]);
    concat_all(&parts)
}

/// What is set up for an engine before it is run through Homebrew.
#[derive(Debug, PartialEq, Eq)]
pub struct ConfiguredPaths {
    /// The directories that are to exist, in the order in which they are
    /// made.
    pub directories: Vec<String>,
    pub config_path: String,
    pub log_path: String,
    /// What is written to the configuration file, where one is written.
    pub content: Option<String>,
    /// How the data directory is set up where it is empty.
    pub initialization: Option<Initialization>,
    /// What is run once after the data directory was set up; none of it
    /// need succeed.
    pub first_run: Vec<Invocation>,
}

/// How the data directory of an engine is set up where it is empty: the
/// program, and its arguments.
pub open spec fn spec_initialization(
    db_type: DatabaseType,
    prefix: Seq<char>,
    data_dir: Seq<char>,
    user: Seq<char>,
) -> Option<(Seq<char>, Seq<Seq<char>>)> {
    let bin = path_join(prefix, "bin"@);
    match db_type {
        DatabaseType::MySQL => Some(
            (
                path_join(bin, "mysqld"@),
                seq!["--initialize-insecure"@, "--user="@ + user, "--datadir="@ + data_dir],
            ),
        ),
        DatabaseType::PostgreSQL => Some(
            (
                path_join(bin, "initdb"@),
                seq![
                    "-D"@,
                    data_dir,
                    "--username="@ + user,
                    "--auth-local=trust"@,
                    "--auth-host=trust"@,
                    "--encoding=UTF8"@,
                    "--no-locale"@,
                ],
            ),
        ),
        _ => None,
    }
}

/// What is run once after the data directory of an engine was set up.
/// PostgreSQL is started, given the role `admin`, and stopped again.
pub open spec fn spec_first_run(
    db_type: DatabaseType,
    prefix: Seq<char>,
    data_dir: Seq<char>,
    user: Seq<char>,
) -> Seq<(Seq<char>, Seq<Seq<char>>)> {
    let bin = path_join(prefix, "bin"@);
    let pg_ctl = path_join(bin, "pg_ctl"@);
    match db_type {
        DatabaseType::PostgreSQL => seq![
            (pg_ctl, seq!["-D"@, data_dir, "-l"@, path_join(data_dir, "logfile"@), "start"@, "-w"@]),
            (
                path_join(bin, "psql"@),
                seq![
                    "-U"@,
                    user,
                    "-d"@,
                    "postgres"@,
                    "-c"@,
                    "CREATE ROLE admin WITH LOGIN SUPERUSER CREATEDB CREATEROLE PASSWORD 'admin888';"@,
                ],
            ),
            (pg_ctl, seq!["-D"@, data_dir, "stop"@, "-m"@, "fast"@]),
        ],
        _ => Seq::empty(),
    }
}

/// The program and the arguments of each invocation.
pub open spec fn invocations_of(v: Seq<Invocation>) -> Seq<(Seq<char>, Seq<Seq<char>>)> {
    v.map_values(|i: Invocation| (i.program@, texts(i.args@)))
}

/// How the data directory of an engine is set up where it is empty, and
/// what is run once after that.
pub fn data_dir_setup(db_type: DatabaseType, prefix: &str, data_dir: &str, user: &str) -> (setup: (
    Option<Initialization>,
    Vec<Invocation>,
))
    ensures
        match spec_initialization(db_type, prefix@, data_dir@, user@) {
            Some((program, args)) => {
                &&& setup.0 matches Some(init)
                &&& init.condition matches InitCondition::DirectoryEmpty(dir)
                &&& dir@ == data_dir@
                &&& init.invocation.program@ == program
                &&& texts(init.invocation.args@) == args
            },
            None => setup.0 is None,
        },
        invocations_of(setup.1@) == spec_first_run(db_type, prefix@, data_dir@, user@),
{
    let bin = join_path(prefix, "bin");
    match db_type {
        DatabaseType::MySQL => {
            let user_flag = concat("--user=", user);
            let data_flag = concat("--datadir=", data_dir);
            let args = arguments(
                &vec!["--initialize-insecure", user_flag.as_str(), data_flag.as_str()],
            );
            assert(texts(args@) =~= seq!["--initialize-insecure"@, user_flag@, data_flag@]);
            let first_run: Vec<Invocation> = Vec::new();
            assert(invocations_of(first_run@) =~= Seq::empty());
            (
                Some(
                    Initialization {
                        condition: InitCondition::DirectoryEmpty(data_dir.to_owned()),
                        invocation: Invocation { program: join_path(bin.as_str(), "mysqld"), args },
                    },
                ),
                first_run,
            )
        },
        DatabaseType::PostgreSQL => {
            let user_flag = concat("--username=", user);
            let args = arguments(
                &vec![
                    "-D",
                    data_dir,
                    user_flag.as_str(),
                    "--auth-local=trust",
                    "--auth-host=trust",
                    "--encoding=UTF8",
                    "--no-locale",
                ],
            );
            assert(texts(args@) =~= seq![
                "-D"@,
                data_dir@,
                user_flag@,
                "--auth-local=trust"@,
                "--auth-host=trust"@,
                "--encoding=UTF8"@,
                "--no-locale"@,
            ]);
            let logfile = join_path(data_dir, "logfile");
            let start = arguments(&vec!["-D", data_dir, "-l", logfile.as_str(), "start", "-w"]);
            assert(texts(start@) =~= seq!["-D"@, data_dir@, "-l"@, logfile@, "start"@, "-w"@]);
            let role = arguments(
                &vec![
                    "-U",
                    user,
                    "-d",
                    "postgres",
                    "-c",
                    "CREATE ROLE admin WITH LOGIN SUPERUSER CREATEDB CREATEROLE PASSWORD 'admin888';",
                ],
            );
            assert(texts(role@) =~= seq![
                "-U"@,
                user@,
                "-d"@,
                "postgres"@,
                "-c"@,
                "CREATE ROLE admin WITH LOGIN SUPERUSER CREATEDB CREATEROLE PASSWORD 'admin888';"@,
            ]);
            let stop = arguments(&vec!["-D", data_dir, "stop", "-m", "fast"]);
            assert(texts(stop@) =~= seq!["-D"@, data_dir@, "stop"@, "-m"@, "fast"@]);
            let mut first_run: Vec<Invocation> = Vec::new();
            first_run.push(Invocation { program: join_path(bin.as_str(), "pg_ctl"), args: start });
            first_run.push(Invocation { program: join_path(bin.as_str(), "psql"), args: role });
            first_run.push(Invocation { program: join_path(bin.as_str(), "pg_ctl"), args: stop });
            assert(invocations_of(first_run@) =~= spec_first_run(
                db_type,
                prefix@,
                data_dir@,
                user@,
            ));
            (
                Some(
                    Initialization {
                        condition: InitCondition::DirectoryEmpty(data_dir.to_owned()),
                        invocation: Invocation { program: join_path(bin.as_str(), "initdb"), args },
                    },
                ),
                first_run,
            )
        },
        _ => {
            let first_run: Vec<Invocation> = Vec::new();
            assert(invocations_of(first_run@) =~= Seq::empty());
            (None, first_run)
        },
    }
}

/// What is set up for an engine before it is run through Homebrew. `prefix`
/// is what `brew --prefix` names for the formula of the engine's
/// configuration, `user` is who runs the engine, and `existing` is the
/// configuration that is there already.
pub open spec fn spec_configured(
    configured: ConfiguredPaths,
    db_type: DatabaseType,
    prefix: Seq<char>,
    storage: Seq<char>,
    port: u16,
    user: Seq<char>,
    existing: Seq<char>,
) -> bool {
    let etc = path_join(prefix, "etc"@);
    let data_dir = spec_db_path(storage, "data"@, db_type.spec_as_str());
    let logs_dir = spec_db_path(storage, "logs"@, db_type.spec_as_str());
    let log_file = path_join(logs_dir, spec_log_file_name(db_type));
    &&& configured.config_path@ == path_join(etc, spec_written_config_name(db_type))
    &&& configured.log_path@ == log_file
    &&& texts(configured.directories@) == (match db_type {
        DatabaseType::MongoDB => seq![data_dir, logs_dir],
        DatabaseType::Qdrant => seq![data_dir, logs_dir],
        _ => seq![etc, data_dir, logs_dir],
    })
    &&& match spec_initialization(db_type, prefix, data_dir, user) {
        Some((program, args)) => {
            &&& configured.initialization matches Some(init)
            &&& init.condition matches InitCondition::DirectoryEmpty(dir)
            &&& dir@ == data_dir
            &&& init.invocation.program@ == program
            &&& texts(init.invocation.args@) == args
        },
        None => configured.initialization is None,
    }
    &&& invocations_of(configured.first_run@) == spec_first_run(db_type, prefix, data_dir, user)
    &&& opt_text(configured.content) == (match db_type {
        DatabaseType::Redis => Some(spec_redis_conf(existing, data_dir, log_file)),
        DatabaseType::MySQL => Some(
            spec_mysql_config(
                port,
                data_dir,
                path_join(data_dir, "mysql.sock"@),
                log_file,
                path_join(data_dir, "mysqld.pid"@),
                user,
            ),
        ),
        DatabaseType::PostgreSQL => Some(spec_postgresql_config(port, logs_dir)),
        DatabaseType::SurrealDB => Some(spec_surrealdb_config(port, data_dir, log_file)),
        DatabaseType::MongoDB => None,
        DatabaseType::Qdrant => None,
    })
}

/// What is set up for an engine before it is run through Homebrew: the
/// directories to make, the configuration file with what is written to it,
/// and the log file.
pub fn configure_database(
    db_type: &DatabaseType,
    prefix: &str,
    storage_path: &str,
    port: u16,
    user: &str,
    existing: &str,
) -> (configured: ConfiguredPaths)
    ensures
        spec_configured(configured, *db_type, prefix@, storage_path@, port, user@, existing@),
{
    let etc = join_path(prefix, "etc");
    let data_dir = get_db_data_path(storage_path, db_type.as_str());
    let logs_dir = get_db_log_path(storage_path, db_type.as_str());
    let log_file = join_path(logs_dir.as_str(), log_file_name(*db_type));
    let (config_name, content, makes_etc): (&'static str, Option<String>, bool) = match db_type {
        DatabaseType::Redis => (
            "redis.conf",
            Some(rewrite_redis_conf(existing, data_dir.as_str(), log_file.as_str())),
            true,
        ),
        DatabaseType::MySQL => {
            let socket = join_path(data_dir.as_str(), "mysql.sock");
            let pid_file = join_path(data_dir.as_str(), "mysqld.pid");
            (
                "my.cnf",
                Some(
                    mysql_config(
                        port,
                        data_dir.as_str(),
                        socket.as_str(),
                        log_file.as_str(),
                        pid_file.as_str(),
                        user,
                    ),
                ),
                true,
            )
        },
        DatabaseType::PostgreSQL => (
            "postgresql.conf",
            Some(postgresql_config(port, logs_dir.as_str())),
            true,
        ),
        DatabaseType::SurrealDB => (
            "surrealdb.env",
            Some(surrealdb_config(port, data_dir.as_str(), log_file.as_str())),
            true,
        ),
        DatabaseType::MongoDB => ("mongod.conf", None, false),
        DatabaseType::Qdrant => ("config.yaml", None, false),
    };
    let config_path = join_path(etc.as_str(), config_name);
    let (initialization, first_run) = data_dir_setup(*db_type, prefix, data_dir.as_str(), user);
    let mut directories: Vec<String> = Vec::new();
    if makes_etc {
        directories.push(etc);
    }
    directories.push(data_dir);
    directories.push(logs_dir);
    assert(texts(directories@) =~= (match *db_type {
        DatabaseType::MongoDB => seq![data_dir@, logs_dir@],
        DatabaseType::Qdrant => seq![data_dir@, logs_dir@],
        _ => seq![etc@, data_dir@, logs_dir@],
    }));
    ConfiguredPaths {
        directories,
        config_path,
        log_path: log_file,
        content,
        initialization,
        first_run,
    }
}

/// The record of an engine that was installed through Homebrew, as a
/// stopped one. `install_prefix` is what `brew --prefix` names for the
/// formula, `versions` is what `brew list --versions` printed for it.
pub open spec fn spec_homebrew_record(
    db_type: DatabaseType,
    storage: Seq<char>,
    options: HomebrewInstallOptions<'_>,
    install_prefix: Seq<char>,
    versions: Seq<char>,
    config_path: Seq<char>,
    log_path: Seq<char>,
    id: Seq<char>,
    now: Seq<char>,
) -> DatabaseRecord {
    fresh_record(
        id,
        db_type.spec_display_name(),
        db_type,
        match spec_formula_version(versions) {
            Some(v) => v,
            None => spec_or_default(opt_slice(options.version), "latest"@),
        },
        install_prefix,
        spec_db_path(storage, "data"@, db_type.spec_as_str()),
        log_path,
        spec_port_or_default(options.port, db_type),
        spec_resolve_username(db_type, opt_slice(options.username)),
        spec_resolve_password(db_type, opt_slice(options.password)),
        Some(config_path),
        options.auto_start,
        now,
    )
}

/// The record of an engine that was installed through Homebrew, as a
/// stopped one. The version is the one that Homebrew names, else the one
/// that was asked for, else `latest`.
pub fn homebrew_record(
    db_type: &DatabaseType,
    storage_path: &str,
    options: &HomebrewInstallOptions<'_>,
    install_prefix: &str,
    versions: &str,
    configured: &ConfiguredPaths,
    id: String,
    now: String,
) -> (record: DatabaseInfo)
    ensures
        record@ == spec_homebrew_record(
            *db_type,
            storage_path@,
            *options,
            install_prefix@,
            versions@,
            configured.config_path@,
            configured.log_path@,
            id@,
            now@,
        ),
{
    let version = match formula_version(versions) {
        Some(v) => v,
        None => or_default(options.version, "latest"),
    };
    new_record(
        id,
        db_type.display_name(),
        *db_type,
        version,
        install_prefix.to_owned(),
        get_db_data_path(storage_path, db_type.as_str()),
        configured.log_path.clone(),
        port_or_default(options.port, *db_type),
        resolve_username(db_type, options.username),
        resolve_password(db_type, options.password),
        Some(configured.config_path.clone()),
        options.auto_start,
        now,
    )
}

/// The seconds that an engine is given after the first step of its first
/// run, in which it is started.
pub const FIRST_RUN_WAIT_SECS: u64 = 2;

/// Whether the steps of a first run are taken: the data directory was just
/// set up, and the program of every step is there. `present` tells of each
/// step whether its program is there.
pub fn first_run_due(initialized: bool, present: &Vec<bool>) -> (due: bool)
    ensures
        due == (initialized && forall|i: int| 0 <= i < present.len() ==> present[i]),
{
    if !initialized {
        return false;
    }
    let mut i: usize = 0;
    while i < present.len()
        invariant
            i <= present.len(),
            forall|j: int| 0 <= j < i ==> present[j],
        decreases present.len() - i,
    {
        if !present[i] {
            return false;
        }
        i += 1;
    }
    true
}

/// The seconds that are waited after step `index` of a first run: the
/// engine is given time after the first step, and none after the others.
pub fn first_run_wait(index: usize) -> (secs: u64)
    ensures
        secs == (if index == 0 {
            FIRST_RUN_WAIT_SECS
        } else {
            0
        }),
{
    if index == 0 {
        FIRST_RUN_WAIT_SECS
    } else {
        0
    }
}

/// What an installation by formula comes to, given how the start that ends
/// it went. An engine with a service must have started; one that runs as a
/// process of its own is installed even where its start failed.
pub fn conclude_formula_install(
    record: DatabaseInfo,
    service_name: Option<&str>,
    start: StartReport,
) -> (outcome: Result<DatabaseInfo, LifecycleError>)
    ensures
        match concluded(record@, start, service_name is None) {
            Ok(done) => outcome matches Ok(info) && info@ == done,
            Err(diagnostic) => outcome matches Err(LifecycleError::Provisioning(said)) && said@
                == diagnostic,
        },
{
    let action = start_after_install(record.auto_start, service_name);
    conclude_install(record, start, action.lenient())
}

/// The status of an engine that was installed through Homebrew follows
/// what was asked for: the engine runs afterwards exactly where it was to
/// be started and the start succeeded, and its record says whether it is to
/// start by itself as the options do.
pub proof fn lemma_formula_install_status(
    db_type: DatabaseType,
    storage: Seq<char>,
    options: HomebrewInstallOptions<'_>,
    install_prefix: Seq<char>,
    versions: Seq<char>,
    config_path: Seq<char>,
    log_path: Seq<char>,
    id: Seq<char>,
    now: Seq<char>,
    start: StartReport,
    lenient: bool,
)
    ensures
        ({
            let record = spec_homebrew_record(
                db_type,
                storage,
                options,
                install_prefix,
                versions,
                config_path,
                log_path,
                id,
                now,
            );
            &&& record.status == DatabaseStatus::Stopped
            &&& record.auto_start == options.auto_start
            &&& !options.auto_start ==> concluded(record, start, lenient) == Ok::<
                DatabaseRecord,
                Seq<char>,
            >(record)
            &&& concluded(record, start, lenient) matches Ok(done) ==> done.auto_start
                == options.auto_start && (done.status == DatabaseStatus::Running
                <==> options.auto_start && start is Started)
        }),
{
}

/// How an engine is installed on macOS.
#[derive(Debug)]
pub enum HomebrewInstall {
    /// Qdrant: the binary is fetched from its releases.
    Binary(InstallPlan),
    /// The formula is installed through Homebrew, from its tap where it has
    /// one. A service of Homebrew runs the engine where `service_name` names
    /// one; otherwise the engine is run as a process of its own.
    Formula { tap: Option<&'static str>, formula: &'static str, service_name: Option<&'static str> },
}

/// Whether the formula of an installation is the one of a recipe.
pub open spec fn formula_of(
    recipe: RecipeView,
    tap: Option<&'static str>,
    formula: &'static str,
    service_name: Option<&'static str>,
) -> bool {
    &&& formula@ == recipe.formula
    &&& service_name matches Some(s)
    &&& s@ == recipe.service_name
    &&& match tap {
        Some(t) => recipe.tap == Some(t@),
        None => recipe.tap is None,
    }
}

/// Whether `install` is how an engine is installed on macOS.
pub open spec fn installs_as(
    install: HomebrewInstall,
    db_type: DatabaseType,
    storage: Seq<char>,
    options: HomebrewInstallOptions<'_>,
    arch: Arch,
) -> bool {
    match db_type {
        DatabaseType::Qdrant => {
            &&& install matches HomebrewInstall::Binary(plan)
            &&& exists|micros: nat, at: nat|
                qdrant_plan(
                    plan,
                    storage,
                    options,
                    arch,
                    spec_decimal(micros),
                    spec_timestamp(at),
                )
        },
        DatabaseType::SurrealDB => {
            &&& install matches HomebrewInstall::Formula { tap, formula, service_name }
            &&& tap matches Some(t)
            &&& t@ == "surrealdb/tap"@
            &&& formula@ == "surreal"@
            &&& service_name is None
        },
        _ => {
            &&& install matches HomebrewInstall::Formula { tap, formula, service_name }
            &&& HomebrewDatabaseRecipe::spec_resolve(db_type) matches Ok(recipe)
            &&& formula_of(recipe, tap, formula, service_name)
        },
    }
}

/// How an engine is installed on macOS: Qdrant from its releases, SurrealDB
/// by its formula as a process of its own, every other engine by its formula
/// as a service of Homebrew.
pub fn install_database_via_homebrew(
    db_type: &DatabaseType,
    storage_path: &str,
    options: &HomebrewInstallOptions<'_>,
    arch: Arch,
) -> (outcome: Result<HomebrewInstall, LifecycleError>)
    ensures
        outcome matches Ok(install) && installs_as(install, *db_type, storage_path@, *options, arch),
        outcome matches Ok(HomebrewInstall::Binary(plan)) ==> plan.record.id@.len() > 0,
{
    match db_type {
        DatabaseType::Qdrant => {
            let id = generate_id();
            let now = get_timestamp();
            let ghost micros = choose|micros: nat| id@ == spec_decimal(micros);
            let ghost at = choose|at: nat| now@ == spec_timestamp(at);
            let plan = install_qdrant_binary(storage_path, options, arch, id, now);
            assert(qdrant_plan(
                plan,
                storage_path@,
                *options,
                arch,
                spec_decimal(micros),
                spec_timestamp(at),
            ));
            Ok(HomebrewInstall::Binary(plan))
        },
        DatabaseType::SurrealDB => Ok(
            HomebrewInstall::Formula {
                tap: Some("surrealdb/tap"),
                formula: "surreal",
                service_name: None,
            },
        ),
        _ => {
            let recipe = HomebrewDatabaseRecipe::resolve(db_type)?;
            Ok(
                HomebrewInstall::Formula {
                    tap: recipe.tap,
                    formula: recipe.formula,
                    service_name: Some(recipe.service_name),
                },
            )
        },
    }
}

/// How an engine is started or stopped on macOS.
#[derive(Debug, PartialEq, Eq)]
pub enum ServiceAction {
    /// The engine is run as a process of its own.
    Spawn(SpawnPlan),
    /// SurrealDB is run as a process of its own; its binary lies under the
    /// prefix of its formula.
    SpawnSurrealDb,
    /// The process whose id this file holds is ended.
    EndProcess { pid_file: String },
    /// The service of this name is started or stopped through Homebrew.
    BrewService { name: String },
}

/// How Qdrant is started on macOS.
pub open spec fn spec_start_qdrant(record: DatabaseRecord) -> Result<SpawnView, Seq<char>> {
    let config = match record.config {
        Some(path) => Some(path),
        None => match path_parent(record.data_path) {
            Some(parent) => Some(
                path_join(path_join(path_join(parent, "config"@), "qdrant"@), "config.yaml"@),
            ),
            None => None,
        },
    };
    match config {
        Some(path) => Ok(
            SpawnView {
                program: path_join(record.install_path, "qdrant"@),
                args: seq!["--config-path"@, path],
                pid_file: Some(path_join(record.data_path, "qdrant.pid"@)),
            },
        ),
        None => Err("Config path missing"@),
    }
}

/// How Qdrant is started on macOS: its binary is run with its
/// configuration, which lies beside the data where the record names none.
pub fn start_qdrant_process(db_info: &DatabaseInfo) -> (outcome: Result<SpawnPlan, LifecycleError>)
    ensures
        spawn_outcome(outcome, spec_start_qdrant(db_info@)),
{
    let data = db_info.data_path.as_str();
    let config: Option<String> = match &db_info.config {
        Some(path) => Some(path.clone()),
        None => match parent_path(data) {
            Some(parent) => {
                let a = join_path(parent.as_str(), "config");
                let b = join_path(a.as_str(), "qdrant");
                Some(join_path(b.as_str(), "config.yaml"))
            },
            None => None,
        },
    };
    match config {
        Some(path) => {
            let args = arguments(&vec!["--config-path", path.as_str()]);
            assert(texts(args@) =~= seq!["--config-path"@, path@]);
            Ok(
                SpawnPlan {
                    invocation: Invocation {
                        program: join_path(db_info.install_path.as_str(), "qdrant"),
                        args,
                    },
                    pid_file: Some(join_path(data, "qdrant.pid")),
                },
            )
        },
        None => Err(LifecycleError::Provisioning("Config path missing".to_string())),
    }
}

/// How SurrealDB is started on macOS. `prefix` is what `brew --prefix`
/// names for its formula.
pub open spec fn spec_start_surrealdb(record: DatabaseRecord, prefix: Seq<char>) -> SpawnView {
    SpawnView {
        program: path_join(path_join(prefix, "bin"@), "surreal"@),
        args: seq![
            "start"@,
            "--bind"@,
            "0.0.0.0:"@ + spec_decimal(record.port as nat),
            "--log"@,
            "info"@,
            "--user"@,
            spec_or_default(record.username, "admin"@),
            "--pass"@,
            spec_or_default(record.password, "admin888"@),
            "rocksdb://"@ + record.data_path,
        ],
        pid_file: Some(path_join(record.data_path, "surrealdb.pid"@)),
    }
}

/// Where SurrealDB writes what it prints on macOS: `surrealdb.log` beside
/// the log file of the record, or in the data directory where the log file
/// has no directory.
pub open spec fn spec_surrealdb_log_file(record: DatabaseRecord) -> Seq<char> {
    match path_parent(record.log_path) {
        Some(dir) => path_join(dir, "surrealdb.log"@),
        None => path_join(record.data_path, "surrealdb.log"@),
    }
}

/// How SurrealDB is started on macOS, and the file to which what it prints
/// is written.
pub fn start_surrealdb_process(db_info: &DatabaseInfo, prefix: &str) -> (plan: (SpawnPlan, String))
    ensures
        plan.0@ == spec_start_surrealdb(db_info@, prefix@),
        plan.1@ == spec_surrealdb_log_file(db_info@),
{
    let data = db_info.data_path.as_str();
    let bin = join_path(prefix, "bin");
    let user = match &db_info.username {
        Some(u) => u.clone(),
        None => "admin".to_string(),
    };
    let pass = match &db_info.password {
        Some(p) => p.clone(),
        None => "admin888".to_string(),
    };
    let bind = concat("0.0.0.0:", decimal(db_info.port as u128).as_str());
    let store = concat("rocksdb://", data);
    let args = arguments(
        &vec![
            "start",
            "--bind",
            bind.as_str(),
            "--log",
            "info",
            "--user",
            user.as_str(),
            "--pass",
            pass.as_str(),
            store.as_str(),
        ],
    );
    assert(texts(args@) =~= seq![
        "start"@,
        "--bind"@,
        bind@,
        "--log"@,
        "info"@,
        "--user"@,
        user@,
        "--pass"@,
        pass@,
        store@,
    ]);
    let log_file = match parent_path(db_info.log_path.as_str()) {
        Some(dir) => join_path(dir.as_str(), "surrealdb.log"),
        None => join_path(data, "surrealdb.log"),
    };
    (
        SpawnPlan {
            invocation: Invocation { program: join_path(bin.as_str(), "surreal"), args },
            pid_file: Some(join_path(data, "surrealdb.pid")),
        },
        log_file,
    )
}

/// Whether `outcome` names the service of Homebrew that runs an engine.
pub open spec fn names_service(outcome: Result<ServiceAction, LifecycleError>, db_type: DatabaseType) -> bool {
    &&& outcome matches Ok(ServiceAction::BrewService { name })
    &&& HomebrewDatabaseRecipe::spec_resolve(db_type) matches Ok(recipe)
    &&& name@ == recipe.service_name
}

/// Whether `outcome` asks to end the process whose id the given pid file of
/// an engine holds.
pub open spec fn ends_process(
    outcome: Result<ServiceAction, LifecycleError>,
    data_path: Seq<char>,
    file: Seq<char>,
) -> bool {
    &&& outcome matches Ok(ServiceAction::EndProcess { pid_file })
    &&& pid_file@ == path_join(data_path, file)
}

/// Whether `outcome` is how an engine is started on macOS.
pub open spec fn starts_as(outcome: Result<ServiceAction, LifecycleError>, record: DatabaseRecord) -> bool {
    match record.db_type {
        DatabaseType::Qdrant => match spec_start_qdrant(record) {
            Ok(view) => outcome matches Ok(ServiceAction::Spawn(plan)) && plan@ == view,
            Err(text) => outcome matches Err(LifecycleError::Provisioning(said)) && said@ == text,
        },
        DatabaseType::SurrealDB => outcome matches Ok(ServiceAction::SpawnSurrealDb),
        _ => names_service(outcome, record.db_type),
    }
}

/// Whether `outcome` is how an engine is stopped on macOS.
pub open spec fn stops_as(outcome: Result<ServiceAction, LifecycleError>, record: DatabaseRecord) -> bool {
    match record.db_type {
        DatabaseType::Qdrant => ends_process(outcome, record.data_path, "qdrant.pid"@),
        DatabaseType::SurrealDB => ends_process(outcome, record.data_path, "surrealdb.pid"@),
        _ => names_service(outcome, record.db_type),
    }
}

/// How an engine is started on macOS: Qdrant and SurrealDB as processes of
/// their own, every other engine as a service of Homebrew.
pub fn start_service_for_database(db_info: &DatabaseInfo) -> (outcome: Result<
    ServiceAction,
    LifecycleError,
>)
    ensures
        starts_as(outcome, db_info@),
{
    match db_info.db_type {
        DatabaseType::Qdrant => match start_qdrant_process(db_info) {
            Ok(plan) => Ok(ServiceAction::Spawn(plan)),
            Err(error) => Err(error),
        },
        DatabaseType::SurrealDB => Ok(ServiceAction::SpawnSurrealDb),
        _ => match HomebrewDatabaseRecipe::resolve(&db_info.db_type) {
            Ok(recipe) => Ok(ServiceAction::BrewService { name: recipe.service_name.to_owned() }),
            Err(error) => Err(error),
        },
    }
}

/// How an engine is stopped on macOS: the processes of Qdrant and SurrealDB
/// are ended by the ids that their pid files hold, every other engine is
/// stopped as a service of Homebrew.
pub fn stop_service_for_database(db_info: &DatabaseInfo) -> (outcome: Result<
    ServiceAction,
    LifecycleError,
>)
    ensures
        stops_as(outcome, db_info@),
{
    match db_info.db_type {
        DatabaseType::Qdrant => Ok(
            ServiceAction::EndProcess {
                pid_file: join_path(db_info.data_path.as_str(), "qdrant.pid"),
            },
        ),
        DatabaseType::SurrealDB => Ok(
            ServiceAction::EndProcess {
                pid_file: join_path(db_info.data_path.as_str(), "surrealdb.pid"),
            },
        ),
        _ => match HomebrewDatabaseRecipe::resolve(&db_info.db_type) {
            Ok(recipe) => Ok(ServiceAction::BrewService { name: recipe.service_name.to_owned() }),
            Err(error) => Err(error),
        },
    }
}

/// The id of the process that is to be ended, by what its pid file holds:
/// the number that the text spells, white space at either end aside.
pub fn stop_pid(pid_file_content: &str) -> (outcome: Result<u32, LifecycleError>)
    ensures
        match outcome {
            Ok(pid) => parse_stop_pid(pid_file_content@) == Some(pid as int),
            Err(LifecycleError::Provisioning(said)) => parse_stop_pid(pid_file_content@) is None
                && said@ == "Invalid PID format"@,
            Err(_) => false,
        },
{
    let trimmed = trim(pid_file_content);
    match parse_u32(trimmed.as_str()) {
        Some(pid) => Ok(pid),
        None => Err(LifecycleError::Provisioning("Invalid PID format".to_string())),
    }
}

/// The process id that a pid file names for a stop: a number without a
/// minus sign, white space at either end aside.
pub open spec fn parse_stop_pid(content: Seq<char>) -> Option<int> {
    let text = spec_trim(content);
    if text.len() > 0 && text[0] == '-' {
        None
    } else {
        spec_parse_bounded(text, 0, u32::MAX as int)
    }
}

/// Where `brew` is, by how `which brew` ended and what it printed: the path
/// that it printed, white space aside, where it ended well and printed one.
pub fn which_brew(succeeded: bool, output: &str) -> (path: Option<String>)
    ensures
        opt_text(path) == (if succeeded && spec_trim(output@).len() > 0 {
            Some(spec_trim(output@))
        } else {
            None
        }),
{
    if !succeeded {
        return None;
    }
    let path = trim(output);
    if path.as_str().unicode_len() == 0 {
        None
    } else {
        Some(path)
    }
}

/// Where `brew` is looked for when `which` does not know it.
pub fn brew_candidates() -> (candidates: Vec<&'static str>)
    ensures
        slices(candidates@) == seq!["/opt/homebrew/bin/brew"@, "/usr/local/bin/brew"@],
{
    let candidates = vec!["/opt/homebrew/bin/brew", "/usr/local/bin/brew"];
    assert(slices(candidates@) =~= seq!["/opt/homebrew/bin/brew"@, "/usr/local/bin/brew"@]);
    candidates
}

/// The two shell commands that install Homebrew: the first fetches the
/// installer to `installer_path`, the second runs it without questions.
pub fn install_homebrew_via_script(installer_path: &str) -> (commands: (String, String))
    ensures
        commands.0@
            == "curl -fsSL https://raw.githubusercontent.com/Homebrew/install/HEAD/install.sh -o "@
            + installer_path@,
        commands.1@ == "NONINTERACTIVE=1 /bin/bash "@ + installer_path@,
{
    (
        concat(
            "curl -fsSL https://raw.githubusercontent.com/Homebrew/install/HEAD/install.sh -o ",
            installer_path,
        ),
        concat("NONINTERACTIVE=1 /bin/bash ", installer_path),
    )
}

} // verus!
