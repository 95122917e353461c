use crate::registry::{
    added, has_type, holder, lemma_added_ok, lemma_holder_unique, registry_ok, Registry,
};
use crate::state::{fresh_id, listing, AppState};
use crate::table::{listed, position, Table};
use crate::text::{chars_of, concat, parse_i32, spec_parse_bounded, spec_trim, string_of_range, trim};
use crate::types::{records_of, DatabaseInfo, DatabaseRecord, DatabaseStatus, DatabaseType};
use crate::utils::{get_timestamp, now_micros};
use vstd::prelude::*;

verus! {

/// The kinds of system on which engines are managed.
#[derive(Clone, Copy, Debug, PartialEq, Eq, Structural)]
pub enum Platform {
    MacOs,
    Linux,
    Windows,
}

impl Platform {
    /// Whether an engine is run as a process of its own, whose id is kept in
    /// a file beside its data, and not as a service of the package manager.
    pub open spec fn spec_uses_pid_file(self, db_type: DatabaseType) -> bool {
        match self {
            Platform::MacOs => db_type == DatabaseType::Qdrant || db_type
                == DatabaseType::SurrealDB,
            _ => true,
        }
    }

    /// Whether an engine is run as a process of its own, whose id is kept in
    /// a file beside its data, and not as a service of the package manager.
    pub fn uses_pid_file(&self, db_type: DatabaseType) -> (by_file: bool)
        ensures
            by_file == self.spec_uses_pid_file(db_type),
    {
        match self {
            Platform::MacOs => match db_type {
                DatabaseType::Qdrant => true,
                DatabaseType::SurrealDB => true,
                _ => false,
            },
            _ => true,
        }
    }
}

/// The name of the file beside an engine's data that holds its process id.
pub fn pid_file_name(db_type: DatabaseType) -> (name: String)
    ensures
        name@ == db_type.spec_as_str() + ".pid"@,
{
    concat(db_type.as_str(), ".pid")
}

/// The process id that a pid file holds: the number that its text spells,
/// white space at either end aside.
pub open spec fn spec_parse_pid(content: Seq<char>) -> Option<int> {
    spec_parse_bounded(spec_trim(content), i32::MIN as int, i32::MAX as int)
}

/// The process id that a pid file holds, if its text spells one.
pub fn parse_pid(content: &str) -> (pid: Option<i32>)
    ensures
        match pid {
            Some(n) => spec_parse_pid(content@) == Some(n as int),
            None => spec_parse_pid(content@) is None,
        },
{
    let trimmed = trim(content);
    parse_i32(trimmed.as_str())
}

/// What a pid file says of an engine. `content` is the text of the file, or
/// `None` where there is no file or it cannot be read; `probe` tells whether
/// a process with a given id exists. The engine runs only if the file holds
/// a process id and the probe finds that process.
pub fn check_pid_file_status<F: FnOnce(i32) -> bool>(content: Option<&str>, probe: F) -> (status:
    DatabaseStatus)
    requires
        forall|pid: i32| probe.requires((pid,)),
    ensures
        status == DatabaseStatus::Running || status == DatabaseStatus::Stopped,
        content is None ==> status == DatabaseStatus::Stopped,
        content matches Some(text) ==> match spec_parse_pid(text@) {
            Some(pid) => probe.ensures((pid as i32,), status == DatabaseStatus::Running),
            None => status == DatabaseStatus::Stopped,
        },
{
    match content {
        None => DatabaseStatus::Stopped,
        Some(text) => match parse_pid(text) {
            None => DatabaseStatus::Stopped,
            Some(pid) => {
                if probe(pid) {
                    DatabaseStatus::Running
                } else {
                    DatabaseStatus::Stopped
                }
            },
        },
    }
}

/// What the service list says of one service name.
pub open spec fn service_status(services: Map<Seq<char>, bool>, name: Seq<char>) -> Option<
    DatabaseStatus,
> {
    if services.dom().contains(name) {
        if services[name] {
            Some(DatabaseStatus::Running)
        } else {
            Some(DatabaseStatus::Stopped)
        }
    } else {
        None
    }
}

/// What the service list says of one service name: running where it is
/// listed as started, stopped where it is listed otherwise.
pub fn get_database_status_from_brew(brew_services: &Table<bool>, service_name: &str) -> (status:
    Option<DatabaseStatus>)
    ensures
        status == service_status(brew_services@, service_name@),
{
    match brew_services.get(service_name) {
        Some(running) => if *running {
            Some(DatabaseStatus::Running)
        } else {
            Some(DatabaseStatus::Stopped)
        },
        None => None,
    }
}

/// The names under which the service of an engine has been known, the one to
/// try first standing first.
pub open spec fn spec_aliases(db_type: DatabaseType) -> Seq<Seq<char>> {
    match db_type {
        DatabaseType::Redis => seq!["redis"@],
        DatabaseType::MySQL => seq!["mysql@8.4"@, "mysql@8.0"@, "mysql"@],
        DatabaseType::PostgreSQL => seq![
            "postgresql@18"@,
            "postgresql@17"@,
            "postgresql@16"@,
            "postgresql"@,
        ],
        DatabaseType::MongoDB => seq![
            "mongodb-community@7.0"@,
            "mongodb-community@6.0"@,
            "mongodb-community"@,
        ],
        DatabaseType::Qdrant => Seq::empty(),
        DatabaseType::SurrealDB => Seq::empty(),
    }
}

/// The names under which the service of an engine has been known.
pub fn service_aliases(db_type: DatabaseType) -> (aliases: Vec<&'static str>)
    ensures
        aliases@.map_values(|s: &'static str| s@) == spec_aliases(db_type),
{
    let mut aliases: Vec<&'static str> = Vec::new();
    match db_type {
        DatabaseType::Redis => {
            aliases.push("redis");
        },
        DatabaseType::MySQL => {
            aliases.push("mysql@8.4");
            aliases.push("mysql@8.0");
            aliases.push("mysql");
        },
        DatabaseType::PostgreSQL => {
            aliases.push("postgresql@18");
            aliases.push("postgresql@17");
            aliases.push("postgresql@16");
            aliases.push("postgresql");
        },
        DatabaseType::MongoDB => {
            aliases.push("mongodb-community@7.0");
            aliases.push("mongodb-community@6.0");
            aliases.push("mongodb-community");
        },
        DatabaseType::Qdrant => {},
        DatabaseType::SurrealDB => {},
    }
    assert(aliases@.map_values(|s: &'static str| s@) =~= spec_aliases(db_type));
    aliases
}

/// What the service list says of the first of `aliases`, from position `i`
/// on, that it lists; stopped where it lists none.
pub open spec fn alias_status_from(services: Map<Seq<char>, bool>, aliases: Seq<Seq<char>>, i: int) -> DatabaseStatus
    decreases aliases.len() - i,
{
    if i < 0 || i >= aliases.len() {
        DatabaseStatus::Stopped
    } else {
        match service_status(services, aliases[i]) {
            Some(status) => status,
            None => alias_status_from(services, aliases, i + 1),
        }
    }
}

/// What the service list says of an engine: the first of its aliases that is
/// listed decides; an engine that is not listed is stopped.
pub open spec fn alias_status(services: Map<Seq<char>, bool>, db_type: DatabaseType) -> DatabaseStatus {
    alias_status_from(services, spec_aliases(db_type), 0)
}

/// What the service list says of an engine.
pub fn service_status_of(brew_services: &Table<bool>, db_type: DatabaseType) -> (status:
    DatabaseStatus)
    ensures
        status == alias_status(brew_services@, db_type),
{
    let aliases = service_aliases(db_type);
    let ghost names = spec_aliases(db_type);
    let mut i: usize = 0;
    while i < aliases.len()
        invariant
            i <= aliases.len(),
            aliases@.map_values(|s: &'static str| s@) == names,
            alias_status(brew_services@, db_type) == alias_status_from(
                brew_services@,
                names,
                i as int,
            ),
        decreases aliases.len() - i,
    {
        assert(names[i as int] == aliases[i as int]@);
        match get_database_status_from_brew(brew_services, aliases[i]) {
            Some(status) => {
                return status;
            },
            None => {},
        }
        i += 1;
    }
    DatabaseStatus::Stopped
}

/// What is seen of a record: an engine with a pid file runs where the probe
/// of that file says so, a service runs where the service list says so, and
/// whatever is not reported is stopped.
pub open spec fn observed(
    platform: Platform,
    record: DatabaseRecord,
    services: Map<Seq<char>, bool>,
    probes: Map<Seq<char>, DatabaseStatus>,
) -> DatabaseStatus {
    if platform.spec_uses_pid_file(record.db_type) {
        if probes.dom().contains(record.id) && probes[record.id] == DatabaseStatus::Running {
            DatabaseStatus::Running
        } else {
            DatabaseStatus::Stopped
        }
    } else {
        alias_status(services, record.db_type)
    }
}

/// What is seen of a record.
pub fn observe(
    platform: Platform,
    db_info: &DatabaseInfo,
    services: &Table<bool>,
    probes: &Table<DatabaseStatus>,
) -> (status: DatabaseStatus)
    ensures
        status == observed(platform, db_info@, services@, probes@),
        status == DatabaseStatus::Running || status == DatabaseStatus::Stopped,
{
    proof {
        lemma_observed_is_binary(platform, db_info@, services@, probes@);
    }
    if platform.uses_pid_file(db_info.db_type) {
        match probes.get(db_info.id.as_str()) {
            Some(DatabaseStatus::Running) => DatabaseStatus::Running,
            _ => DatabaseStatus::Stopped,
        }
    } else {
        service_status_of(services, db_info.db_type)
    }
}

/// What the service list says of an engine is that it runs, or that it is
/// stopped.
proof fn lemma_alias_status_is_binary(services: Map<Seq<char>, bool>, aliases: Seq<Seq<char>>, i: int)
    ensures
        alias_status_from(services, aliases, i) == DatabaseStatus::Running || alias_status_from(
            services,
            aliases,
            i,
        ) == DatabaseStatus::Stopped,
    decreases aliases.len() - i,
{
    if 0 <= i < aliases.len() {
        lemma_alias_status_is_binary(services, aliases, i + 1);
    }
}

/// What is seen of a record is that it runs, or that it is stopped.
pub proof fn lemma_observed_is_binary(
    platform: Platform,
    record: DatabaseRecord,
    services: Map<Seq<char>, bool>,
    probes: Map<Seq<char>, DatabaseStatus>,
)
    ensures
        observed(platform, record, services, probes) == DatabaseStatus::Running || observed(
            platform,
            record,
            services,
            probes,
        ) == DatabaseStatus::Stopped,
{
    lemma_alias_status_is_binary(services, spec_aliases(record.db_type), 0);
}

/// By a service list that lists nothing every engine is stopped.
proof fn lemma_no_services(aliases: Seq<Seq<char>>, i: int)
    ensures
        alias_status_from(Map::empty(), aliases, i) == DatabaseStatus::Stopped,
    decreases aliases.len() - i,
{
    if 0 <= i < aliases.len() {
        lemma_no_services(aliases, i + 1);
    }
}

/// Whatever could not be found out counts as stopped, never as running: a
/// record whose probe did not report, and every service where the service
/// list could not be had.
pub proof fn lemma_fail_safe(
    platform: Platform,
    record: DatabaseRecord,
    services: Map<Seq<char>, bool>,
    probes: Map<Seq<char>, DatabaseStatus>,
)
    ensures
        platform.spec_uses_pid_file(record.db_type) && !probes.dom().contains(record.id)
            ==> observed(platform, record, services, probes) == DatabaseStatus::Stopped,
        !platform.spec_uses_pid_file(record.db_type) && services == Map::<
            Seq<char>,
            bool,
        >::empty() ==> observed(platform, record, services, probes) == DatabaseStatus::Stopped,
{
    lemma_no_services(spec_aliases(record.db_type), 0);
}

/// The record with its status set right at the moment `now`; a record whose
/// status is right already is left as it is.
pub open spec fn corrected(record: DatabaseRecord, status: DatabaseStatus, now: Seq<char>) -> DatabaseRecord {
    if record.status == status {
        record
    } else {
        DatabaseRecord { status, updated_at: now, ..record }
    }
}

/// The registry with the status of every record set right.
pub open spec fn corrected_all(
    m: Registry,
    platform: Platform,
    services: Map<Seq<char>, bool>,
    probes: Map<Seq<char>, DatabaseStatus>,
    now: Seq<char>,
) -> Registry {
    Map::new(
        |k: Seq<char>| m.dom().contains(k),
        |k: Seq<char>| corrected(m[k], observed(platform, m[k], services, probes), now),
    )
}

/// Whether the status of some record is not what is seen of it.
pub open spec fn drifted(
    m: Registry,
    platform: Platform,
    services: Map<Seq<char>, bool>,
    probes: Map<Seq<char>, DatabaseStatus>,
) -> bool {
    exists|k: Seq<char>|
        m.dom().contains(k) && (#[trigger] m[k]).status != observed(
            platform,
            m[k],
            services,
            probes,
        )
}

/// Sets the status of every record right: what is seen of a record becomes
/// its status, and a record that is changed is stamped with `now`. Tells
/// whether any record was changed.
pub fn correct_statuses(
    state: &mut AppState,
    platform: Platform,
    services: &Table<bool>,
    probes: &Table<DatabaseStatus>,
    now: &str,
) -> (changed: bool)
    ensures
        final(state).same_but_records(old(state)),
        final(state).databases@ == corrected_all(
            old(state).databases@,
            platform,
            services@,
            probes@,
            now@,
        ),
        registry_ok(final(state).databases@),
        changed == drifted(old(state).databases@, platform, services@, probes@),
{
    let all = state.databases.all();
    let ghost before = state.databases@;
    let ghost order = state.databases.order();
    let n = all.len();
    let mut changed = false;
    let mut i: usize = 0;
    while i < n
        invariant
            i <= n,
            n == all.len(),
            listing(before, order, records_of(all@)),
            registry_ok(before),
            registry_ok(state.databases@),
            state.databases@.dom() == before.dom(),
            state.same_but_records(old(state)),
            forall|j: int|
                0 <= j < i ==> #[trigger] state.databases@[order[j]] == corrected(
                    before[order[j]],
                    observed(platform, before[order[j]], services@, probes@),
                    now@,
                ),
            forall|j: int| i <= j < n ==> #[trigger] state.databases@[order[j]] == before[order[j]],
            changed == (exists|j: int|
                0 <= j < i && (#[trigger] before[order[j]]).status != observed(
                    platform,
                    before[order[j]],
                    services@,
                    probes@,
                )),
        decreases n - i,
    {
        let mut db_info = all[i].clone();
        let ghost current = state.databases@;
        let ghost key = order[i as int];
        proof {
            assert(records_of(all@)[i as int] == before[key]);
            assert(db_info@ == before[key]);
            assert(before[key].id == key);
            assert(current[key] == before[key]);
        }
        let actual = observe(platform, &db_info, services, probes);
        if db_info.status != actual {
            db_info.status = actual;
            db_info.updated_at = now.to_owned();
            proof {
                crate::registry::lemma_upsert_in_place(current, db_info@);
            }
            state.update_database(db_info);
            changed = true;
            proof {
                assert(state.databases@.dom() =~= before.dom());
                assert forall|j: int| 0 <= j < i implies #[trigger] state.databases@[order[j]]
                    == corrected(
                    before[order[j]],
                    observed(platform, before[order[j]], services@, probes@),
                    now@,
                ) by {
                    assert(order[j] != key);
                    assert(state.databases@[order[j]] == current[order[j]]);
                }
                assert forall|j: int| i < j < n implies #[trigger] state.databases@[order[j]]
                    == before[order[j]] by {
                    assert(order[j] != key);
                    assert(state.databases@[order[j]] == current[order[j]]);
                }
            }
        }
        i += 1;
    }
    proof {
        let target = corrected_all(before, platform, services@, probes@, now@);
        assert forall|k: Seq<char>| before.dom().contains(k) implies #[trigger] state.databases@[k]
            == target[k] by {
            assert(listed(order, k));
            let p = position(order, k);
            assert(order[p] == k);
        }
        assert(state.databases@ =~= target);
        if changed {
            let j = choose|j: int|
                0 <= j < n && (#[trigger] before[order[j]]).status != observed(
                    platform,
                    before[order[j]],
                    services@,
                    probes@,
                );
            assert(records_of(all@)[j] == before[order[j]]);
            assert(before.dom().contains(order[j]));
        } else {
            assert forall|k: Seq<char>| before.dom().contains(k) implies (#[trigger] before[k]).status
                == observed(platform, before[k], services@, probes@) by {
                assert(listed(order, k));
                let p = position(order, k);
                assert(order[p] == k);
            }
        }
    }
    changed
}

/// The first of `aliases`, from position `i` on, that the service list
/// lists.
pub open spec fn deciding_alias_from(
    services: Map<Seq<char>, bool>,
    aliases: Seq<Seq<char>>,
    i: int,
) -> Option<Seq<char>>
    decreases aliases.len() - i,
{
    if i < 0 || i >= aliases.len() {
        None
    } else if services.dom().contains(aliases[i]) {
        Some(aliases[i])
    } else {
        deciding_alias_from(services, aliases, i + 1)
    }
}

/// The name that decides the status of an engine: the first of its aliases
/// that the service list lists.
pub open spec fn deciding_alias(services: Map<Seq<char>, bool>, db_type: DatabaseType) -> Option<
    Seq<char>,
> {
    deciding_alias_from(services, spec_aliases(db_type), 0)
}

/// The status of an engine is that of the name that decides it.
proof fn lemma_deciding_alias_from(services: Map<Seq<char>, bool>, aliases: Seq<Seq<char>>, i: int)
    ensures
        match deciding_alias_from(services, aliases, i) {
            Some(name) => services.dom().contains(name) && alias_status_from(services, aliases, i)
                == (if services[name] {
                DatabaseStatus::Running
            } else {
                DatabaseStatus::Stopped
            }),
            None => alias_status_from(services, aliases, i) == DatabaseStatus::Stopped,
        },
    decreases aliases.len() - i,
{
    if 0 <= i < aliases.len() {
        lemma_deciding_alias_from(services, aliases, i + 1);
    }
}

/// An engine runs by the service list exactly where the name that decides
/// its status is listed as started.
pub proof fn lemma_deciding_alias(services: Map<Seq<char>, bool>, db_type: DatabaseType)
    ensures
        alias_status(services, db_type) == DatabaseStatus::Running <==> (deciding_alias(
            services,
            db_type,
        ) matches Some(name) && services.dom().contains(name) && services[name]),
{
    lemma_deciding_alias_from(services, spec_aliases(db_type), 0);
}

/// Whether an engine is found that the registry does not hold: it is run as
/// a service, no record of it exists, and by the service list it runs. The
/// rule by which it runs is the one by which the status of a record is seen.
pub open spec fn found(
    m: Registry,
    platform: Platform,
    services: Map<Seq<char>, bool>,
    db_type: DatabaseType,
) -> bool {
    &&& !platform.spec_uses_pid_file(db_type)
    &&& !has_type(m, db_type)
    &&& alias_status(services, db_type) == DatabaseStatus::Running
}

/// The service by which an engine is found that the registry does not hold:
/// the name that decides its status.
pub open spec fn discovery_of(
    m: Registry,
    platform: Platform,
    services: Map<Seq<char>, bool>,
    db_type: DatabaseType,
) -> Option<Seq<char>> {
    if found(m, platform, services, db_type) {
        deciding_alias(services, db_type)
    } else {
        None
    }
}

/// The service by which an engine is found that the registry does not hold.
pub fn find_discovery(
    state: &AppState,
    platform: Platform,
    services: &Table<bool>,
    db_type: DatabaseType,
) -> (name: Option<String>)
    ensures
        crate::text::opt_text(name) == discovery_of(state.databases@, platform, services@, db_type),
        name is Some == found(state.databases@, platform, services@, db_type),
        registry_ok(state.databases@),
{
    proof {
        lemma_deciding_alias(services@, db_type);
    }
    let known = state.databases.get_of(db_type);
    if platform.uses_pid_file(db_type) || known.is_some() {
        return None;
    }
    let aliases = service_aliases(db_type);
    let ghost names = spec_aliases(db_type);
    let mut i: usize = 0;
    while i < aliases.len()
        invariant
            i <= aliases.len(),
            aliases@.map_values(|s: &'static str| s@) == names,
            names == spec_aliases(db_type),
            registry_ok(state.databases@),
            !platform.spec_uses_pid_file(db_type),
            !has_type(state.databases@, db_type),
            alias_status(services@, db_type) == alias_status_from(services@, names, i as int),
            deciding_alias(services@, db_type) == deciding_alias_from(services@, names, i as int),
            alias_status(services@, db_type) == DatabaseStatus::Running <==> (deciding_alias(
                services@,
                db_type,
            ) matches Some(name) && services@.dom().contains(name) && services@[name]),
        decreases aliases.len() - i,
    {
        assert(names[i as int] == aliases[i as int]@);
        match get_database_status_from_brew(services, aliases[i]) {
            Some(DatabaseStatus::Running) => {
                return Some(aliases[i].to_string());
            },
            Some(_) => {
                return None;
            },
            None => {},
        }
        i += 1;
    }
    None
}

/// The position of the last `@` in `name`, or -1 where it holds none.
pub open spec fn last_at(name: Seq<char>) -> int
    decreases name.len(),
{
    if name.len() == 0 {
        -1
    } else if name.last() == '@' {
        name.len() - 1
    } else {
        last_at(name.drop_last())
    }
}

/// The version that a service name tells: what follows its last `@`, or the
/// word `detected` where it holds none.
pub open spec fn spec_detected_version(name: Seq<char>) -> Seq<char> {
    if last_at(name) < 0 {
        "detected"@
    } else {
        name.subrange(last_at(name) + 1, name.len() as int)
    }
}

/// The version that a service name tells: what follows its last `@`, or the
/// word `detected` where it holds none.
pub fn detected_version(service_name: &str) -> (version: String)
    ensures
        version@ == spec_detected_version(service_name@),
{
    let v = chars_of(service_name);
    let mut i: usize = v.len();
    assert(v@.subrange(0, i as int) == v@);
    while i > 0
        invariant
            i <= v.len(),
            v@ == service_name@,
            last_at(v@) == last_at(v@.subrange(0, i as int)),
        decreases i,
    {
        if v[i - 1] == '@' {
            assert(v@.subrange(0, i as int).last() == '@');
            return string_of_range(&v, i, v.len());
        }
        assert(v@.subrange(0, i as int).drop_last() == v@.subrange(0, i - 1));
        i -= 1;
    }
    "detected".to_string()
}

/// The record of an engine that was found running as a service and was not
/// installed through this library.
pub open spec fn synthesized(
    db_type: DatabaseType,
    version: Seq<char>,
    id: Seq<char>,
    now: Seq<char>,
) -> DatabaseRecord {
    DatabaseRecord {
        id,
        name: db_type.spec_display_name(),
        db_type,
        version,
        install_path: "Managed by Homebrew"@,
        data_path: "Managed by Homebrew"@,
        log_path: Seq::empty(),
        port: db_type.spec_default_port(),
        username: None,
        password: None,
        config: None,
        status: DatabaseStatus::Running,
        auto_start: false,
        pid: None,
        created_at: now,
        updated_at: now,
    }
}

/// The record of an engine that was found running as the service
/// `service_name`.
pub fn synthesize(db_type: DatabaseType, service_name: &str, id: String, now: String) -> (db_info:
    DatabaseInfo)
    ensures
        db_info@ == synthesized(db_type, spec_detected_version(service_name@), id@, now@),
{
    DatabaseInfo {
        id,
        name: db_type.display_name().to_string(),
        db_type,
        version: detected_version(service_name),
        install_path: "Managed by Homebrew".to_string(),
        data_path: "Managed by Homebrew".to_string(),
        log_path: String::new(),
        port: db_type.default_port(),
        username: None,
        password: None,
        config: None,
        status: DatabaseStatus::Running,
        auto_start: false,
        pid: None,
        created_at: now.clone(),
        updated_at: now,
    }
}

/// The registry after the search for one engine: where the engine is found,
/// its record is added under `id`, unless that id is taken.
pub open spec fn discovered(
    m: Registry,
    platform: Platform,
    services: Map<Seq<char>, bool>,
    db_type: DatabaseType,
    id: Seq<char>,
    now: Seq<char>,
) -> Registry {
    match discovery_of(m, platform, services, db_type) {
        Some(name) => added(m, synthesized(db_type, spec_detected_version(name), id, now)),
        None => m,
    }
}

/// Adds the record of an engine that was found running as the service
/// `service_name`. Tells whether it was added: it is not where its id or
/// its engine is taken.
pub fn register_discovered(
    state: &mut AppState,
    db_type: DatabaseType,
    service_name: &str,
    id: String,
    now: String,
) -> (registered: bool)
    ensures
        final(state).same_but_records(old(state)),
        registry_ok(final(state).databases@),
        final(state).databases@ == added(
            old(state).databases@,
            synthesized(db_type, spec_detected_version(service_name@), id@, now@),
        ),
        registered == (crate::registry::add_refusal(
            old(state).databases@,
            synthesized(db_type, spec_detected_version(service_name@), id@, now@),
        ) is None),
{
    let db_info = synthesize(db_type, service_name, id, now);
    state.add_database(db_info).is_ok()
}

/// The ids that a pass has at hand for the engines it may find.
pub struct DiscoveryIds {
    pub mysql: Seq<char>,
    pub postgresql: Seq<char>,
    pub redis: Seq<char>,
    pub mongodb: Seq<char>,
}

/// The registry after a pass over it: the status of every record is set
/// right, then MySQL, PostgreSQL, Redis and MongoDB are searched for, in
/// this order.
pub open spec fn reconciled(
    m: Registry,
    platform: Platform,
    services: Map<Seq<char>, bool>,
    probes: Map<Seq<char>, DatabaseStatus>,
    ids: DiscoveryIds,
    now: Seq<char>,
) -> Registry {
    let m0 = corrected_all(m, platform, services, probes, now);
    let m1 = discovered(m0, platform, services, DatabaseType::MySQL, ids.mysql, now);
    let m2 = discovered(m1, platform, services, DatabaseType::PostgreSQL, ids.postgresql, now);
    let m3 = discovered(m2, platform, services, DatabaseType::Redis, ids.redis, now);
    discovered(m3, platform, services, DatabaseType::MongoDB, ids.mongodb, now)
}

/// Whether the id at hand for an engine is free where the engine is found.
pub open spec fn id_free(
    m: Registry,
    platform: Platform,
    services: Map<Seq<char>, bool>,
    db_type: DatabaseType,
    id: Seq<char>,
) -> bool {
    found(m, platform, services, db_type) ==> !m.dom().contains(id)
}

/// Whether each id that a pass has at hand is free at the moment at which
/// the pass searches for its engine.
pub open spec fn ids_free(
    m: Registry,
    platform: Platform,
    services: Map<Seq<char>, bool>,
    probes: Map<Seq<char>, DatabaseStatus>,
    ids: DiscoveryIds,
    now: Seq<char>,
) -> bool {
    let m0 = corrected_all(m, platform, services, probes, now);
    let m1 = discovered(m0, platform, services, DatabaseType::MySQL, ids.mysql, now);
    let m2 = discovered(m1, platform, services, DatabaseType::PostgreSQL, ids.postgresql, now);
    let m3 = discovered(m2, platform, services, DatabaseType::Redis, ids.redis, now);
    &&& id_free(m0, platform, services, DatabaseType::MySQL, ids.mysql)
    &&& id_free(m1, platform, services, DatabaseType::PostgreSQL, ids.postgresql)
    &&& id_free(m2, platform, services, DatabaseType::Redis, ids.redis)
    &&& id_free(m3, platform, services, DatabaseType::MongoDB, ids.mongodb)
}

/// Whether a pass over `m` can leave the registry `after`: it is `m` after a
/// pass at some moment, with ids that were free at their turn.
pub open spec fn reconciles(
    m: Registry,
    platform: Platform,
    services: Map<Seq<char>, bool>,
    probes: Map<Seq<char>, DatabaseStatus>,
    after: Registry,
) -> bool {
    exists|ids: DiscoveryIds, now: Seq<char>|
        #![trigger reconciled(m, platform, services, probes, ids, now)]
        ids_free(m, platform, services, probes, ids, now) && after == reconciled(
            m,
            platform,
            services,
            probes,
            ids,
            now,
        )
}

/// Whether `db_type` is one of the engines that a pass searches for.
pub open spec fn searched(db_type: DatabaseType) -> bool {
    db_type == DatabaseType::MySQL || db_type == DatabaseType::PostgreSQL || db_type
        == DatabaseType::Redis || db_type == DatabaseType::MongoDB
}

/// Searches for one engine and adds its record under a fresh id where it is
/// found. Hands back the id that was offered.
fn discover(
    state: &mut AppState,
    platform: Platform,
    services: &Table<bool>,
    db_type: DatabaseType,
    now: &str,
) -> (id: Ghost<Seq<char>>)
    ensures
        final(state).same_but_records(old(state)),
        registry_ok(final(state).databases@),
        id_free(old(state).databases@, platform, services@, db_type, id@),
        final(state).databases@ == discovered(
            old(state).databases@,
            platform,
            services@,
            db_type,
            id@,
            now@,
        ),
{
    match find_discovery(state, platform, services, db_type) {
        Some(name) => {
            let id = fresh_id(&state.databases, now_micros());
            let ghost offered = id@;
            let _ = register_discovered(state, db_type, name.as_str(), id, now.to_owned());
            Ghost(offered)
        },
        None => Ghost(Seq::empty()),
    }
}

/// One pass of reconciliation with the service list `services`, or with none
/// where the list could not be had, and with what the probes of the pid files
/// said, each under the id of its record. The status of every record is set
/// right, each engine that runs as a service and is not in the registry gets
/// a record under an id that was free, and the records are listed as they
/// are afterwards.
pub fn sync_databases_status(
    state: &mut AppState,
    platform: Platform,
    services: Option<&Table<bool>>,
    probes: &Table<DatabaseStatus>,
) -> (all: Vec<DatabaseInfo>)
    ensures
        final(state).same_but_records(old(state)),
        registry_ok(old(state).databases@),
        registry_ok(final(state).databases@),
        reconciles(
            old(state).databases@,
            platform,
            spec_service_map(services),
            probes@,
            final(state).databases@,
        ),
        forall|k: Seq<char>|
            old(state).databases@.dom().contains(k) ==> final(state).databases@.dom().contains(k)
                && (#[trigger] final(state).databases@[k]).status == observed(
                platform,
                old(state).databases@[k],
                spec_service_map(services),
                probes@,
            ),
        forall|t: DatabaseType|
            searched(t) && #[trigger] found(
                old(state).databases@,
                platform,
                spec_service_map(services),
                t,
            ) ==> has_type(final(state).databases@, t) && !old(state).databases@.dom().contains(
                holder(final(state).databases@, t),
            ) && final(state).databases@[holder(final(state).databases@, t)].status
                == DatabaseStatus::Running,
        listing(final(state).databases@, final(state).databases.order(), records_of(all@)),
{
    let none: Table<bool> = Table::new();
    let list: &Table<bool> = match services {
        Some(list) => list,
        None => &none,
    };
    assert(list@ == spec_service_map(services));
    let now = get_timestamp();
    proof {
        use_type_invariant(&state.databases);
    }
    let _ = correct_statuses(state, platform, list, probes, now.as_str());
    let mysql = discover(state, platform, list, DatabaseType::MySQL, now.as_str());
    let postgresql = discover(state, platform, list, DatabaseType::PostgreSQL, now.as_str());
    let redis = discover(state, platform, list, DatabaseType::Redis, now.as_str());
    let mongodb = discover(state, platform, list, DatabaseType::MongoDB, now.as_str());
    proof {
        let ids = DiscoveryIds {
            mysql: mysql@,
            postgresql: postgresql@,
            redis: redis@,
            mongodb: mongodb@,
        };
        let m = old(state).databases@;
        let map = spec_service_map(services);
        assert(state.databases@ == reconciled(m, platform, map, probes@, ids, now@));
        assert(ids_free(m, platform, map, probes@, ids, now@));
        assert forall|k: Seq<char>| m.dom().contains(k) implies state.databases@.dom().contains(k)
            && (#[trigger] state.databases@[k]).status == observed(
            platform,
            m[k],
            map,
            probes@,
        ) by {
            lemma_reconciled_status(m, platform, map, probes@, ids, now@, k);
        }
        assert forall|t: DatabaseType| searched(t) && #[trigger] found(m, platform, map, t) implies 
            has_type(state.databases@, t) && !m.dom().contains(holder(state.databases@, t))
            && state.databases@[holder(state.databases@, t)].status == DatabaseStatus::Running by {
            lemma_found_is_added(m, platform, map, probes@, ids, now@, t);
        }
    }
    state.get_all_databases()
}

/// Whether each service of a list is started; no service where there is no
/// list.
pub open spec fn spec_service_map(services: Option<&Table<bool>>) -> Map<Seq<char>, bool> {
    match services {
        Some(list) => list@,
        None => Map::empty(),
    }
}

/// Setting the status of every record right changes neither which records
/// there are nor their ids and engines, and leaves every status as it is
/// seen.
pub proof fn lemma_corrected_all(
    m: Registry,
    platform: Platform,
    services: Map<Seq<char>, bool>,
    probes: Map<Seq<char>, DatabaseStatus>,
    now: Seq<char>,
)
    requires
        registry_ok(m),
    ensures
        registry_ok(corrected_all(m, platform, services, probes, now)),
        corrected_all(m, platform, services, probes, now).dom() == m.dom(),
        forall|k: Seq<char>|
            m.dom().contains(k) ==> {
                let c = #[trigger] corrected_all(m, platform, services, probes, now)[k];
                &&& c.id == m[k].id
                &&& c.db_type == m[k].db_type
                &&& c.status == observed(platform, m[k], services, probes)
                &&& observed(platform, c, services, probes) == c.status
            },
        forall|t: DatabaseType|
            has_type(corrected_all(m, platform, services, probes, now), t) == has_type(m, t),
{
    let c = corrected_all(m, platform, services, probes, now);
    assert(c.dom() =~= m.dom());
    assert forall|k: Seq<char>| c.dom().contains(k) implies (#[trigger] c[k]).id == k by {
        assert(m[k].id == k);
    }
    assert forall|a: Seq<char>, b: Seq<char>|
        c.dom().contains(a) && c.dom().contains(b) && (#[trigger] c[a]).db_type == (
        #[trigger] c[b]).db_type implies a == b by {
        assert(m[a].db_type == m[b].db_type);
    }
    assert forall|t: DatabaseType| has_type(c, t) == has_type(m, t) by {
        if has_type(c, t) {
            let k = choose|k: Seq<char>| c.dom().contains(k) && (#[trigger] c[k]).db_type == t;
            assert(m.dom().contains(k) && m[k].db_type == t);
        }
        if has_type(m, t) {
            let k = choose|k: Seq<char>| m.dom().contains(k) && (#[trigger] m[k]).db_type == t;
            assert(c.dom().contains(k) && c[k].db_type == t);
        }
    }
}

/// The search for one engine keeps every record that was there, and adds
/// the record of that engine, under the id at hand, exactly where the engine
/// is found.
pub proof fn lemma_discovered(
    m: Registry,
    platform: Platform,
    services: Map<Seq<char>, bool>,
    db_type: DatabaseType,
    id: Seq<char>,
    now: Seq<char>,
)
    requires
        registry_ok(m),
        id_free(m, platform, services, db_type, id),
    ensures
        registry_ok(discovered(m, platform, services, db_type, id, now)),
        forall|k: Seq<char>|
            m.dom().contains(k) ==> discovered(m, platform, services, db_type, id, now).dom().contains(
                k,
            ) && #[trigger] discovered(m, platform, services, db_type, id, now)[k] == m[k],
        forall|k: Seq<char>|
            discovered(m, platform, services, db_type, id, now).dom().contains(k)
                && !m.dom().contains(k) ==> found(m, platform, services, db_type) && k == id,
        found(m, platform, services, db_type) ==> {
            let d = discovered(m, platform, services, db_type, id, now);
            &&& !m.dom().contains(id)
            &&& d.dom().contains(id)
            &&& d[id].id == id
            &&& d[id].db_type == db_type
            &&& d[id].status == DatabaseStatus::Running
        },
        forall|t: DatabaseType|
            t != db_type ==> has_type(discovered(m, platform, services, db_type, id, now), t)
                == has_type(m, t),
        has_type(discovered(m, platform, services, db_type, id, now), db_type) == (has_type(
            m,
            db_type,
        ) || found(m, platform, services, db_type)),
{
    let d = discovered(m, platform, services, db_type, id, now);
    lemma_deciding_alias(services, db_type);
    if found(m, platform, services, db_type) {
        let name = deciding_alias(services, db_type)->Some_0;
        let r = synthesized(db_type, spec_detected_version(name), id, now);
        lemma_added_ok(m, r);
        assert(d == m.insert(id, r));
        assert(d.dom().contains(id) && d[id].db_type == db_type);
        assert forall|t: DatabaseType| t != db_type implies has_type(d, t) == has_type(m, t) by {
            if has_type(d, t) {
                let k = choose|k: Seq<char>| d.dom().contains(k) && (#[trigger] d[k]).db_type == t;
                assert(m.dom().contains(k) && m[k].db_type == t);
            }
            if has_type(m, t) {
                let k = choose|k: Seq<char>| m.dom().contains(k) && (#[trigger] m[k]).db_type == t;
                assert(d.dom().contains(k) && d[k].db_type == t);
            }
        }
    } else {
        assert(d == m);
    }
}

/// An engine that a pass finds has a record afterwards that was not there
/// before, and by that record it runs.
pub proof fn lemma_found_is_added(
    m: Registry,
    platform: Platform,
    services: Map<Seq<char>, bool>,
    probes: Map<Seq<char>, DatabaseStatus>,
    ids: DiscoveryIds,
    now: Seq<char>,
    t: DatabaseType,
)
    requires
        registry_ok(m),
        ids_free(m, platform, services, probes, ids, now),
        searched(t),
        found(m, platform, services, t),
    ensures
        ({
            let after = reconciled(m, platform, services, probes, ids, now);
            &&& has_type(after, t)
            &&& after.dom().contains(holder(after, t))
            &&& !m.dom().contains(holder(after, t))
            &&& after[holder(after, t)].status == DatabaseStatus::Running
        }),
{
    let m0 = corrected_all(m, platform, services, probes, now);
    let m1 = discovered(m0, platform, services, DatabaseType::MySQL, ids.mysql, now);
    let m2 = discovered(m1, platform, services, DatabaseType::PostgreSQL, ids.postgresql, now);
    let m3 = discovered(m2, platform, services, DatabaseType::Redis, ids.redis, now);
    let m4 = discovered(m3, platform, services, DatabaseType::MongoDB, ids.mongodb, now);
    lemma_corrected_all(m, platform, services, probes, now);
    lemma_discovered(m0, platform, services, DatabaseType::MySQL, ids.mysql, now);
    lemma_discovered(m1, platform, services, DatabaseType::PostgreSQL, ids.postgresql, now);
    lemma_discovered(m2, platform, services, DatabaseType::Redis, ids.redis, now);
    lemma_discovered(m3, platform, services, DatabaseType::MongoDB, ids.mongodb, now);
    let id = match t {
        DatabaseType::MySQL => ids.mysql,
        DatabaseType::PostgreSQL => ids.postgresql,
        DatabaseType::Redis => ids.redis,
        _ => ids.mongodb,
    };
    match t {
        DatabaseType::MySQL => {
            assert(found(m0, platform, services, t));
            assert(m2[id] == m1[id]);
            assert(m3[id] == m2[id]);
            assert(m4[id] == m3[id]);
        },
        DatabaseType::PostgreSQL => {
            assert(found(m1, platform, services, t));
            assert(m3[id] == m2[id]);
            assert(m4[id] == m3[id]);
        },
        DatabaseType::Redis => {
            assert(found(m2, platform, services, t));
            assert(m4[id] == m3[id]);
        },
        _ => {
            assert(found(m3, platform, services, t));
        },
    }
    assert(m4.dom().contains(id) && m4[id].db_type == t);
    lemma_holder_unique(m4, t, id);
}

/// Whether a pass can find nothing to do in a registry: every status is as
/// it is seen, and no engine is left to be found.
pub open spec fn at_rest(
    m: Registry,
    platform: Platform,
    services: Map<Seq<char>, bool>,
    probes: Map<Seq<char>, DatabaseStatus>,
) -> bool {
    &&& !drifted(m, platform, services, probes)
    &&& forall|t: DatabaseType| searched(t) ==> !#[trigger] found(m, platform, services, t)
}

/// A pass over a registry at rest changes nothing, whatever ids it has at
/// hand and at whatever moment it is made.
pub proof fn lemma_pass_at_rest(
    m: Registry,
    platform: Platform,
    services: Map<Seq<char>, bool>,
    probes: Map<Seq<char>, DatabaseStatus>,
    ids: DiscoveryIds,
    now: Seq<char>,
)
    requires
        at_rest(m, platform, services, probes),
    ensures
        reconciled(m, platform, services, probes, ids, now) == m,
{
    let c = corrected_all(m, platform, services, probes, now);
    assert forall|k: Seq<char>| m.dom().contains(k) implies #[trigger] c[k] == m[k] by {
        assert(m[k].status == observed(platform, m[k], services, probes));
    }
    assert(c =~= m);
    assert(!found(m, platform, services, DatabaseType::MySQL));
    assert(!found(m, platform, services, DatabaseType::PostgreSQL));
    assert(!found(m, platform, services, DatabaseType::Redis));
    assert(!found(m, platform, services, DatabaseType::MongoDB));
}

/// A pass leaves the registry in order and at rest: every status is as it
/// is seen, and every engine that was found has its record.
pub proof fn lemma_pass_settles(
    m: Registry,
    platform: Platform,
    services: Map<Seq<char>, bool>,
    probes: Map<Seq<char>, DatabaseStatus>,
    ids: DiscoveryIds,
    now: Seq<char>,
)
    requires
        registry_ok(m),
        ids_free(m, platform, services, probes, ids, now),
    ensures
        registry_ok(reconciled(m, platform, services, probes, ids, now)),
        at_rest(reconciled(m, platform, services, probes, ids, now), platform, services, probes),
{
    let m0 = corrected_all(m, platform, services, probes, now);
    let m1 = discovered(m0, platform, services, DatabaseType::MySQL, ids.mysql, now);
    let m2 = discovered(m1, platform, services, DatabaseType::PostgreSQL, ids.postgresql, now);
    let m3 = discovered(m2, platform, services, DatabaseType::Redis, ids.redis, now);
    let m4 = discovered(m3, platform, services, DatabaseType::MongoDB, ids.mongodb, now);
    lemma_corrected_all(m, platform, services, probes, now);
    lemma_discovered(m0, platform, services, DatabaseType::MySQL, ids.mysql, now);
    lemma_discovered(m1, platform, services, DatabaseType::PostgreSQL, ids.postgresql, now);
    lemma_discovered(m2, platform, services, DatabaseType::Redis, ids.redis, now);
    lemma_discovered(m3, platform, services, DatabaseType::MongoDB, ids.mongodb, now);
    // Every status is as it is seen.
    assert forall|k: Seq<char>| m4.dom().contains(k) implies (#[trigger] m4[k]).status == observed(
        platform,
        m4[k],
        services,
        probes,
    ) by {
        if m0.dom().contains(k) {
            assert(m1[k] == m0[k]);
            assert(m2[k] == m1[k]);
            assert(m3[k] == m2[k]);
            assert(m4[k] == m3[k]);
            assert(observed(platform, m0[k], services, probes) == m0[k].status);
        } else if m1.dom().contains(k) {
            assert(m2[k] == m1[k]);
            assert(m3[k] == m2[k]);
            assert(m4[k] == m3[k]);
            assert(found(m0, platform, services, DatabaseType::MySQL) && k == ids.mysql);
        } else if m2.dom().contains(k) {
            assert(m3[k] == m2[k]);
            assert(m4[k] == m3[k]);
            assert(found(m1, platform, services, DatabaseType::PostgreSQL) && k == ids.postgresql);
        } else if m3.dom().contains(k) {
            assert(m4[k] == m3[k]);
            assert(found(m2, platform, services, DatabaseType::Redis) && k == ids.redis);
        } else {
            assert(found(m3, platform, services, DatabaseType::MongoDB) && k == ids.mongodb);
        }
    }
    // No engine is left to be found.
    assert forall|t: DatabaseType| searched(t) implies !#[trigger] found(
        m4,
        platform,
        services,
        t,
    ) by {
        if found(m4, platform, services, t) {
            assert(!has_type(m4, t));
            assert(!has_type(m3, t));
            assert(!has_type(m2, t));
            assert(!has_type(m1, t));
            assert(!has_type(m0, t));
            assert(found(m0, platform, services, t));
            assert(found(m1, platform, services, t));
            assert(found(m2, platform, services, t));
            assert(found(m3, platform, services, t));
        }
    }
}

/// A second pass finds nothing to do. Where nothing outside has changed
/// between two passes, the second one leaves the registry as the first one
/// left it: it sets no status right and adds no record.
pub proof fn lemma_reconcile_idempotent(
    m: Registry,
    platform: Platform,
    services: Map<Seq<char>, bool>,
    probes: Map<Seq<char>, DatabaseStatus>,
    first: Registry,
    second: Registry,
)
    requires
        registry_ok(m),
        reconciles(m, platform, services, probes, first),
        reconciles(first, platform, services, probes, second),
    ensures
        registry_ok(first),
        !drifted(first, platform, services, probes),
        second == first,
{
    let (ids, now) = choose|ids: DiscoveryIds, now: Seq<char>|
        #![trigger reconciled(m, platform, services, probes, ids, now)]
        ids_free(m, platform, services, probes, ids, now) && first == reconciled(
            m,
            platform,
            services,
            probes,
            ids,
            now,
        );
    let (later_ids, later) = choose|ids: DiscoveryIds, now: Seq<char>|
        #![trigger reconciled(first, platform, services, probes, ids, now)]
        ids_free(first, platform, services, probes, ids, now) && second == reconciled(
            first,
            platform,
            services,
            probes,
            ids,
            now,
        );
    lemma_pass_settles(m, platform, services, probes, ids, now);
    lemma_pass_at_rest(first, platform, services, probes, later_ids, later);
}

/// After a pass the status of every record that was there is what was seen
/// of it. So a record whose probe did not report, and every service where
/// the service list could not be had, is stopped afterwards, never running.
pub proof fn lemma_reconciled_status(
    m: Registry,
    platform: Platform,
    services: Map<Seq<char>, bool>,
    probes: Map<Seq<char>, DatabaseStatus>,
    ids: DiscoveryIds,
    now: Seq<char>,
    k: Seq<char>,
)
    requires
        registry_ok(m),
        ids_free(m, platform, services, probes, ids, now),
        m.dom().contains(k),
    ensures
        reconciled(m, platform, services, probes, ids, now).dom().contains(k),
        reconciled(m, platform, services, probes, ids, now)[k].status == observed(
            platform,
            m[k],
            services,
            probes,
        ),
        platform.spec_uses_pid_file(m[k].db_type) && !probes.dom().contains(k) ==> reconciled(
            m,
            platform,
            services,
            probes,
            ids,
            now,
        )[k].status == DatabaseStatus::Stopped,
        !platform.spec_uses_pid_file(m[k].db_type) && services == Map::<Seq<char>, bool>::empty()
            ==> reconciled(m, platform, services, probes, ids, now)[k].status
            == DatabaseStatus::Stopped,
{
    let m0 = corrected_all(m, platform, services, probes, now);
    let m1 = discovered(m0, platform, services, DatabaseType::MySQL, ids.mysql, now);
    let m2 = discovered(m1, platform, services, DatabaseType::PostgreSQL, ids.postgresql, now);
    let m3 = discovered(m2, platform, services, DatabaseType::Redis, ids.redis, now);
    let m4 = discovered(m3, platform, services, DatabaseType::MongoDB, ids.mongodb, now);
    lemma_corrected_all(m, platform, services, probes, now);
    lemma_discovered(m0, platform, services, DatabaseType::MySQL, ids.mysql, now);
    lemma_discovered(m1, platform, services, DatabaseType::PostgreSQL, ids.postgresql, now);
    lemma_discovered(m2, platform, services, DatabaseType::Redis, ids.redis, now);
    lemma_discovered(m3, platform, services, DatabaseType::MongoDB, ids.mongodb, now);
    assert(m1[k] == m0[k]);
    assert(m2[k] == m1[k]);
    assert(m3[k] == m2[k]);
    assert(m4[k] == m3[k]);
    assert(m[k].id == k);
    lemma_fail_safe(platform, m[k], services, probes);
}

} // verus!
