use crate::error::LifecycleError;
use crate::manager::{spec_started, DatabaseManager};
use crate::registry::{
    add_refusal, added, has_type, lemma_added_ok, lemma_holder_unique, lemma_removed_ok,
    lemma_restored_ok, lemma_upsert_in_place, lemma_upsert_ok, registry_ok, restored, upsert,
    without_type, Registry,
};
use crate::table::{distinct, listed, position, Table};
use crate::text::concat;
use crate::types::{
    records_of, AsyncTask, DatabaseInfo, DatabaseRecord, DatabaseStatus, DatabaseType,
    GlobalSettings,
};
use crate::text::spec_decimal;
use crate::utils::{get_timestamp, id_from_micros};
use vstd::prelude::*;

verus! {

/// The records of the registry. Each stands under its id, and no two are of
/// one engine.
pub struct Records {
    table: Table<DatabaseInfo>,
}

impl View for Records {
    type V = Registry;

    /// The records, each under its id.
    closed spec fn view(&self) -> Registry {
        self.table@.map_values(|d: DatabaseInfo| d@)
    }
}

/// Whether `all` lists the records of `m` in the order `order`, each once.
pub open spec fn listing(m: Registry, order: Seq<Seq<char>>, all: Seq<DatabaseRecord>) -> bool {
    &&& all.len() == order.len()
    &&& distinct(order)
    &&& forall|k: Seq<char>| m.dom().contains(k) <==> listed(order, k)
    &&& forall|i: int|
        0 <= i < all.len() ==> m.dom().contains(order[i]) && #[trigger] all[i] == m[order[i]]
}

/// The records of `m` whose ids stand among the first `n` of `order`.
spec fn first_listed(m: Registry, order: Seq<Seq<char>>, n: int) -> Registry {
    Map::new(
        |k: Seq<char>| exists|i: int| 0 <= i < n && i < order.len() && order[i] == k,
        |k: Seq<char>| m[k],
    )
}

/// Putting the first `n` listed records in place gives the records of `m`
/// under the first `n` ids.
proof fn lemma_restore_prefix(m: Registry, order: Seq<Seq<char>>, all: Seq<DatabaseRecord>, n: int)
    requires
        registry_ok(m),
        listing(m, order, all),
        0 <= n <= all.len(),
    ensures
        restored(all.subrange(0, n)) == first_listed(m, order, n),
    decreases n,
{
    if n == 0 {
        assert(all.subrange(0, 0) =~= Seq::<DatabaseRecord>::empty());
        assert(first_listed(m, order, 0) =~= Map::<Seq<char>, DatabaseRecord>::empty());
    } else {
        lemma_restore_prefix(m, order, all, n - 1);
        let earlier = first_listed(m, order, n - 1);
        let now = all.subrange(0, n);
        assert(now.drop_last() =~= all.subrange(0, n - 1));
        let r = all[n - 1];
        assert(now.last() == r);
        assert(r == m[order[n - 1]]);
        assert(r.id == order[n - 1]);
        assert forall|k: Seq<char>| earlier.dom().contains(k) implies (#[trigger] earlier[k]).db_type
            != r.db_type by {
            let i = choose|i: int| 0 <= i < n - 1 && i < order.len() && order[i] == k;
            assert(order[i] != order[n - 1]);
            assert(all[i] == m[order[i]]);
            if m[k].db_type == r.db_type {
                assert(m[k].db_type == m[order[n - 1]].db_type);
            }
        }
        assert(upsert(earlier, r) =~= first_listed(m, order, n)) by {
            assert forall|k: Seq<char>| first_listed(m, order, n).dom().contains(k) implies upsert(
                earlier,
                r,
            ).dom().contains(k) by {
                let i = choose|i: int| 0 <= i < n && i < order.len() && order[i] == k;
                if i < n - 1 {
                    assert(earlier.dom().contains(k));
                }
            }
        }
    }
}

/// What was written out is read back as it was: the records of a registry,
/// listed once each and put in place again one after the other, make that
/// registry.
pub proof fn lemma_snapshot_round_trip(
    m: Registry,
    order: Seq<Seq<char>>,
    all: Seq<DatabaseRecord>,
)
    requires
        registry_ok(m),
        listing(m, order, all),
    ensures
        restored(all) == m,
{
    lemma_restore_prefix(m, order, all, all.len() as int);
    assert(all.subrange(0, all.len() as int) =~= all);
    assert(first_listed(m, order, all.len() as int) =~= m) by {
        assert forall|k: Seq<char>| m.dom().contains(k) implies first_listed(
            m,
            order,
            all.len() as int,
        ).dom().contains(k) by {
            assert(listed(order, k));
            let p = position(order, k);
            assert(order[p] == k);
        }
        assert forall|k: Seq<char>|
            first_listed(m, order, all.len() as int).dom().contains(k) implies m.dom().contains(
            k,
        ) by {
            let i = choose|i: int| 0 <= i < all.len() && i < order.len() && order[i] == k;
            assert(all[i] == m[order[i]]);
        }
    }
}

impl Records {
    /// What holds of the records at every moment.
    #[verifier::type_invariant]
    pub open spec fn valid(&self) -> bool {
        registry_ok(self@)
    }

    /// The ids in the order in which the records are listed.
    pub closed spec fn order(&self) -> Seq<Seq<char>> {
        self.table.key_seq()
    }

    /// No records: nothing stands under any id, and nothing is listed.
    pub fn new() -> (records: Self)
        ensures
            records@ == Map::<Seq<char>, DatabaseRecord>::empty(),
            records.order() == Seq::<Seq<char>>::empty(),
    {
        let table: Table<DatabaseInfo> = Table::new();
        assert(table@.map_values(|d: DatabaseInfo| d@) =~= Map::<Seq<char>, DatabaseRecord>::empty());
        Records { table }
    }

    /// How many records there are.
    pub fn len(&self) -> (n: usize)
        ensures
            n == self.order().len(),
            registry_ok(self@),
    {
        proof {
            use_type_invariant(self);
        }
        self.table.len()
    }

    /// Takes the table out and leaves an empty one in its place.
    fn take(&mut self) -> (table: Table<DatabaseInfo>)
        ensures
            table == old(self).table,
            registry_ok(table@.map_values(|d: DatabaseInfo| d@)),
    {
        proof {
            use_type_invariant(&*self);
        }
        let mut taken = Records::new();
        std::mem::swap(self, &mut taken);
        let Records { table } = taken;
        table
    }

    /// The position of the record of engine `db_type`, if there is one.
    fn holder_index(&self, db_type: DatabaseType) -> (found: Option<usize>)
        ensures
            registry_ok(self@),
            self.table.wf(),
            match found {
                Some(i) => i < self.order().len() && self@.dom().contains(self.order()[i as int])
                    && self@[self.order()[i as int]].db_type == db_type
                    && self.table.value_seq()[i as int].db_type == db_type
                    && self.table.value_seq()[i as int]@ == self@[self.order()[i as int]],
                None => !has_type(self@, db_type),
            },
    {
        proof {
            use_type_invariant(self);
        }
        let n = self.table.len();
        let mut i: usize = 0;
        while i < n
            invariant
                i <= n,
                n == self.table.key_seq().len(),
                n == self.table.value_seq().len(),
                self.table.wf(),
                registry_ok(self@),
                forall|j: int|
                    0 <= j < i ==> (#[trigger] self.table.value_seq()[j]).db_type != db_type,
            decreases n - i,
        {
            let d = self.table.value_at(i);
            if d.db_type == db_type {
                proof {
                    self.table.lemma_at(i as int);
                }
                return Some(i);
            }
            i += 1;
        }
        proof {
            assert forall|k: Seq<char>| self@.dom().contains(k) implies (#[trigger] self@[k]).db_type
                != db_type by {
                let p = position(self.table.key_seq(), k);
                self.table.lemma_at(p);
                assert(self.table.value_seq()[p].db_type != db_type);
            }
        }
        None
    }

    /// Adds a record. It is refused where its id is taken, or where a record
    /// of its engine exists; the records are then left as they were.
    pub fn add(&mut self, db_info: DatabaseInfo) -> (outcome: Result<(), LifecycleError>)
        ensures
            final(self)@ == added(old(self)@, db_info@),
            registry_ok(final(self)@),
            match add_refusal(old(self)@, db_info@) {
                Some(text) => outcome matches Err(LifecycleError::Conflict(said)) && said@ == text,
                None => outcome is Ok,
            },
    {
        proof {
            use_type_invariant(&*self);
        }
        if self.table.contains_key(db_info.id.as_str()) {
            return Err(
                LifecycleError::Conflict(
                    concat("Database id already exists: ", db_info.id.as_str()),
                ),
            );
        }
        match self.holder_index(db_info.db_type) {
            Some(i) => {
                let existing_id = self.table.key_at(i);
                proof {
                    lemma_holder_unique(self@, db_info.db_type, existing_id@);
                }
                let mut text = concat("Database type already exists: ", db_info.db_type.as_str());
                text.append(" (id=");
                text.append(existing_id.as_str());
                text.append(")");
                Err(LifecycleError::Conflict(text))
            },
            None => {
                let ghost before = self@;
                let ghost record = db_info@;
                let key = db_info.id.clone();
                let mut table = self.take();
                proof {
                    lemma_added_ok(before, record);
                    assert(before.insert(record.id, record) =~= table@.insert(
                        db_info.id@,
                        db_info,
                    ).map_values(|d: DatabaseInfo| d@));
                }
                let _ = table.insert(key, db_info);
                *self = Records { table };
                Ok(())
            },
        }
    }

    /// The record with the given id.
    pub fn get(&self, id: &str) -> (found: Option<DatabaseInfo>)
        ensures
            registry_ok(self@),
            match found {
                Some(d) => self@.dom().contains(id@) && d@ == self@[id@],
                None => !self@.dom().contains(id@),
            },
    {
        proof {
            use_type_invariant(self);
        }
        match self.table.get(id) {
            Some(d) => Some(d.clone()),
            None => None,
        }
    }

    /// Every record, once, in the order in which the records came in. No two
    /// of them are of one engine or have one id.
    pub fn all(&self) -> (all: Vec<DatabaseInfo>)
        ensures
            listing(self@, self.order(), records_of(all@)),
            registry_ok(self@),
            forall|i: int, j: int|
                0 <= i < j < all.len() ==> (#[trigger] all[i]).db_type != (#[trigger] all[j]).db_type
                    && all[i].id@ != all[j].id@,
    {
        proof {
            use_type_invariant(self);
        }
        let n = self.table.len();
        let mut all: Vec<DatabaseInfo> = Vec::new();
        let mut i: usize = 0;
        while i < n
            invariant
                i <= n,
                n == self.table.key_seq().len(),
                n == self.table.value_seq().len(),
                self.table.wf(),
                all.len() == i,
                forall|j: int| 0 <= j < i ==> #[trigger] all[j] == self.table.value_seq()[j],
            decreases n - i,
        {
            all.push(self.table.value_at(i).clone());
            i += 1;
        }
        proof {
            let order = self.order();
            let m = self@;
            let listed_all = records_of(all@);
            assert forall|j: int| 0 <= j < listed_all.len() implies m.dom().contains(order[j])
                && #[trigger] listed_all[j] == m[order[j]] by {
                self.table.lemma_at(j);
            }
            assert forall|a: int, b: int| 0 <= a < b < all.len() implies (#[trigger] all[a]).db_type
                != (#[trigger] all[b]).db_type && all[a].id@ != all[b].id@ by {
                self.table.lemma_at(a);
                self.table.lemma_at(b);
                assert(m[order[a]] == all[a]@);
                assert(m[order[b]] == all[b]@);
                assert(order[a] != order[b]);
            }
        }
        all
    }

    /// Puts a record in place: it stands under its id, and every other record
    /// of its engine is evicted.
    pub fn upsert(&mut self, db_info: DatabaseInfo)
        ensures
            final(self)@ == upsert(old(self)@, db_info@),
            registry_ok(final(self)@),
    {
        proof {
            use_type_invariant(&*self);
        }
        let ghost before = self@;
        let ghost record = db_info@;
        let found = self.holder_index(db_info.db_type);
        let mut table = self.take();
        match found {
            Some(i) => {
                let evicted = table.key_at(i).clone();
                let _ = table.remove(evicted.as_str());
                proof {
                    assert(table@.map_values(|d: DatabaseInfo| d@) =~= without_type(
                        before,
                        record.db_type,
                    )) by {
                        assert forall|k: Seq<char>| #[trigger]
                            before.dom().contains(k) && k != evicted@ implies before[k].db_type
                            != record.db_type by {
                            assert(before[evicted@].db_type == record.db_type);
                            if before[k].db_type == record.db_type {
                                assert(before[k].db_type == before[evicted@].db_type);
                            }
                        }
                    }
                }
            },
            None => {
                proof {
                    assert(table@.map_values(|d: DatabaseInfo| d@) =~= without_type(
                        before,
                        record.db_type,
                    ));
                }
            },
        }
        proof {
            lemma_upsert_ok(before, record);
            assert(upsert(before, record) =~= table@.insert(db_info.id@, db_info).map_values(
                |d: DatabaseInfo| d@,
            ));
        }
        let key = db_info.id.clone();
        let _ = table.insert(key, db_info);
        *self = Records { table };
    }

    /// Deletes the record with the given id and hands it back.
    pub fn remove(&mut self, id: &str) -> (removed: Option<DatabaseInfo>)
        ensures
            final(self)@ == old(self)@.remove(id@),
            registry_ok(final(self)@),
            match removed {
                Some(d) => old(self)@.dom().contains(id@) && d@ == old(self)@[id@],
                None => !old(self)@.dom().contains(id@),
            },
    {
        let ghost before = self@;
        let mut table = self.take();
        proof {
            lemma_removed_ok(before, id@);
            assert(before.remove(id@) =~= table@.remove(id@).map_values(|d: DatabaseInfo| d@));
        }
        let removed = table.remove(id);
        *self = Records { table };
        removed
    }

    /// The record of engine `db_type`.
    pub fn get_of(&self, db_type: DatabaseType) -> (found: Option<DatabaseInfo>)
        ensures
            registry_ok(self@),
            match found {
                Some(d) => self@.dom().contains(d.id@) && self@[d.id@] == d@ && d.db_type
                    == db_type,
                None => !has_type(self@, db_type),
            },
    {
        match self.holder_index(db_type) {
            Some(i) => {
                let d = self.table.value_at(i).clone();
                proof {
                    let k = self.order()[i as int];
                    assert(self@[k].id == k);
                }
                Some(d)
            },
            None => None,
        }
    }

    /// The record of the engine with the given lower-case name.
    pub fn get_by_type(&self, db_type: &str) -> (found: Option<DatabaseInfo>)
        ensures
            match found {
                Some(d) => self@.dom().contains(d.id@) && self@[d.id@] == d@
                    && d.db_type.spec_as_str() == db_type@,
                None => forall|k: Seq<char>|
                    self@.dom().contains(k) ==> (#[trigger] self@[k]).db_type.spec_as_str()
                        != db_type@,
            },
    {
        match DatabaseType::from_name(db_type) {
            Some(t) => {
                proof {
                    assert(t.spec_as_str() == db_type@) by {
                        reveal_strlit("mysql");
                        reveal_strlit("postgresql");
                        reveal_strlit("mongodb");
                        reveal_strlit("redis");
                        reveal_strlit("qdrant");
                        reveal_strlit("surrealdb");
                    }
                }
                let found = self.get_of(t);
                proof {
                    if found is None {
                        assert forall|k: Seq<char>| self@.dom().contains(k) implies (
                        #[trigger] self@[k]).db_type.spec_as_str() != db_type@ by {
                            let u = self@[k].db_type;
                            if u.spec_as_str() == db_type@ {
                                u.lemma_name_round_trip();
                                assert(u == t);
                            }
                        }
                    }
                }
                found
            },
            None => {
                proof {
                    assert forall|k: Seq<char>| self@.dom().contains(k) implies (
                    #[trigger] self@[k]).db_type.spec_as_str() != db_type@ by {
                        let u = self@[k].db_type;
                        if u.spec_as_str() == db_type@ {
                            u.lemma_name_round_trip();
                        }
                    }
                }
                None
            },
        }
    }
}

/// The text `base` with `k` zeros behind it.
pub open spec fn padded(base: Seq<char>, k: nat) -> Seq<char> {
    base + Seq::new(k, |i: int| '0')
}

/// Whether `id` is the id that is made from `base` for the registry `m`:
/// `base` itself where no record stands under it, else `base` with as few
/// zeros behind it as make an id under which no record stands.
pub open spec fn fresh_from(m: Registry, base: Seq<char>, id: Seq<char>) -> bool {
    exists|k: nat|
        {
            &&& id == #[trigger] padded(base, k)
            &&& !m.dom().contains(id)
            &&& forall|j: nat| j < k ==> m.dom().contains(#[trigger] padded(base, j))
        }
}

/// The greatest length among `keys`.
spec fn longest(keys: Seq<Seq<char>>) -> nat
    decreases keys.len(),
{
    if keys.len() == 0 {
        0
    } else {
        let rest = longest(keys.drop_last());
        if keys.last().len() > rest {
            keys.last().len()
        } else {
            rest
        }
    }
}

/// No key is longer than the longest.
proof fn lemma_longest(keys: Seq<Seq<char>>, i: int)
    requires
        0 <= i < keys.len(),
    ensures
        keys[i].len() <= longest(keys),
    decreases keys.len(),
{
    if i < keys.len() - 1 {
        lemma_longest(keys.drop_last(), i);
    }
}

/// An id under which no record stands, made from the reading `micros` of the
/// clock: its decimal digits, with zeros behind them for as long as the id
/// is in use.
pub fn fresh_id(records: &Records, micros: u128) -> (id: String)
    ensures
        !records@.dom().contains(id@),
        id@.len() > 0,
        fresh_from(records@, spec_decimal(micros as nat), id@),
{
    let mut id = id_from_micros(micros);
    let ghost base = id@;
    let ghost mut k: nat = 0;
    assert(id@ =~= padded(base, 0));
    loop
        invariant
            base == spec_decimal(micros as nat),
            base.len() > 0,
            id@ == padded(base, k),
            forall|j: nat| j < k ==> records@.dom().contains(#[trigger] padded(base, j)),
        decreases longest(records.table.key_seq()) + 1 - id@.len(),
    {
        match records.table.index_of(id.as_str()) {
            None => {
                return id;
            },
            Some(i) => {
                proof {
                    lemma_longest(records.table.key_seq(), i as int);
                }
                id.push('0');
                proof {
                    k = k + 1;
                    assert(id@ =~= padded(base, k));
                }
            },
        }
    }
}

/// What is written to the registry file: every record, and the settings.
#[derive(Debug)]
pub struct AppStateData {
    pub databases: Vec<DatabaseInfo>,
    pub settings: GlobalSettings,
}

/// The live state of the application: the registry of records, the settings,
/// the tasks that run in the background, and the manager that starts and
/// stops engines.
pub struct AppState {
    pub databases: Records,
    pub settings: GlobalSettings,
    pub db_manager: DatabaseManager,
    pub tasks: Table<AsyncTask>,
}

impl AppState {
    /// Whether two states differ in their records at most.
    pub open spec fn same_but_records(&self, other: &AppState) -> bool {
        &&& self.tasks == other.tasks
        &&& self.settings == other.settings
        &&& self.db_manager == other.db_manager
    }

    /// Whether two states differ in their tasks at most.
    pub open spec fn same_but_tasks(&self, other: &AppState) -> bool {
        &&& self.databases == other.databases
        &&& self.settings == other.settings
        &&& self.db_manager == other.db_manager
    }

    /// The state that the registry file describes: its records are put in
    /// place one after the other, no task runs, and the manager keeps its
    /// files where the settings say.
    pub fn new(state_data: AppStateData) -> (state: Self)
        ensures
            state.databases@ == restored(records_of(state_data.databases@)),
            registry_ok(state.databases@),
            state.settings == state_data.settings,
            state.tasks@ == Map::<Seq<char>, AsyncTask>::empty(),
            state.db_manager.storage() == state_data.settings.default_storage_path@,
            state.db_manager.processes() == Map::<Seq<char>, u32>::empty(),
            state.db_manager.next_pid() == crate::manager::FIRST_MOCK_PID,
    {
        let AppStateData { databases: loaded, settings } = state_data;
        let db_manager = DatabaseManager::new(settings.default_storage_path.as_str());
        let mut databases = Records::new();
        let n = loaded.len();
        let mut i: usize = 0;
        assert(records_of(loaded@).subrange(0, 0) =~= Seq::<DatabaseRecord>::empty());
        while i < n
            invariant
                i <= n,
                n == loaded.len(),
                databases@ == restored(records_of(loaded@).subrange(0, i as int)),
            decreases n - i,
        {
            let db_info = loaded[i].clone();
            proof {
                let next = records_of(loaded@).subrange(0, i + 1);
                assert(next.drop_last() =~= records_of(loaded@).subrange(0, i as int));
                assert(next.last() == db_info@);
            }
            databases.upsert(db_info);
            i += 1;
        }
        assert(records_of(loaded@).subrange(0, n as int) =~= records_of(loaded@));
        proof {
            lemma_restored_ok(records_of(loaded@));
        }
        AppState { databases, settings, db_manager, tasks: Table::new() }
    }

    /// What is to be written to the registry file: every record, and the
    /// settings.
    pub fn snapshot(&self) -> (data: AppStateData)
        ensures
            listing(self.databases@, self.databases.order(), records_of(data.databases@)),
            data.settings == self.settings,
    {
        AppStateData { databases: self.databases.all(), settings: self.settings.clone() }
    }

    /// Adds a record. It is refused where its id is taken, or where a record
    /// of its engine exists; the registry is then left as it was.
    pub fn add_database(&mut self, db_info: DatabaseInfo) -> (outcome: Result<(), LifecycleError>)
        ensures
            final(self).same_but_records(old(self)),
            final(self).databases@ == added(old(self).databases@, db_info@),
            registry_ok(final(self).databases@),
            match add_refusal(old(self).databases@, db_info@) {
                Some(text) => outcome matches Err(LifecycleError::Conflict(said)) && said@ == text,
                None => outcome is Ok,
            },
    {
        self.databases.add(db_info)
    }

    /// The record with the given id.
    pub fn get_database(&self, id: &str) -> (found: Option<DatabaseInfo>)
        ensures
            match found {
                Some(d) => self.databases@.dom().contains(id@) && d@ == self.databases@[id@],
                None => !self.databases@.dom().contains(id@),
            },
    {
        self.databases.get(id)
    }

    /// Every record, once. No two of them are of one engine or have one id.
    pub fn get_all_databases(&self) -> (all: Vec<DatabaseInfo>)
        ensures
            listing(self.databases@, self.databases.order(), records_of(all@)),
            registry_ok(self.databases@),
            forall|i: int, j: int|
                0 <= i < j < all.len() ==> (#[trigger] all[i]).db_type != (#[trigger] all[j]).db_type
                    && all[i].id@ != all[j].id@,
    {
        self.databases.all()
    }

    /// Puts a record in place: it stands under its id, and every other record
    /// of its engine is evicted.
    pub fn update_database(&mut self, db_info: DatabaseInfo)
        ensures
            final(self).same_but_records(old(self)),
            final(self).databases@ == upsert(old(self).databases@, db_info@),
            registry_ok(final(self).databases@),
    {
        self.databases.upsert(db_info)
    }

    /// Deletes the record with the given id and hands it back.
    pub fn remove_database(&mut self, id: &str) -> (removed: Option<DatabaseInfo>)
        ensures
            final(self).same_but_records(old(self)),
            final(self).databases@ == old(self).databases@.remove(id@),
            registry_ok(final(self).databases@),
            match removed {
                Some(d) => old(self).databases@.dom().contains(id@) && d@ == old(
                    self,
                ).databases@[id@],
                None => !old(self).databases@.dom().contains(id@),
            },
    {
        self.databases.remove(id)
    }

    /// Whether a record is started when the application comes up: it is
    /// marked for it and is stopped.
    pub open spec fn starts_at_launch(record: DatabaseRecord) -> bool {
        record.auto_start && record.status == DatabaseStatus::Stopped
    }

    /// What the start of the records that are marked for it makes of one
    /// record: a stopped record that is marked runs, every other is as it was.
    pub open spec fn autostart_outcome(before: DatabaseRecord, after: DatabaseRecord) -> bool {
        if Self::starts_at_launch(before) {
            exists|pid: u32, now: Seq<char>| after == spec_started(before, Some(pid), now)
        } else {
            after == before
        }
    }

    /// Starts every stopped record that is marked for it, on the manager's
    /// own process table. A record that cannot be started is passed over.
    pub fn start_autostart_databases(&mut self)
        ensures
            final(self).settings == old(self).settings,
            final(self).tasks == old(self).tasks,
            final(self).db_manager.storage() == old(self).db_manager.storage(),
            registry_ok(final(self).databases@),
            final(self).databases@.dom() == old(self).databases@.dom(),
            forall|k: Seq<char>|
                old(self).databases@.dom().contains(k) ==> Self::autostart_outcome(
                    old(self).databases@[k],
                    #[trigger] final(self).databases@[k],
                ),
            forall|k: Seq<char>|
                old(self).databases@.dom().contains(k) && Self::starts_at_launch(
                    old(self).databases@[k],
                ) ==> final(self).db_manager.processes().dom().contains(k) && (
                #[trigger] final(self).databases@[k]).pid == Some(
                    final(self).db_manager.processes()[k],
                ),
            forall|k: Seq<char>|
                old(self).db_manager.processes().dom().contains(k) ==> final(self)
                    .db_manager.processes().dom().contains(k),
    {
        let all = self.databases.all();
        let ghost before = self.databases@;
        let ghost order = self.databases.order();
        let n = all.len();
        let mut i: usize = 0;
        while i < n
            invariant
                i <= n,
                n == all.len(),
                listing(before, order, records_of(all@)),
                registry_ok(before),
                registry_ok(self.databases@),
                self.databases@.dom() == before.dom(),
                self.settings == old(self).settings,
                self.tasks == old(self).tasks,
                self.db_manager.storage() == old(self).db_manager.storage(),
                forall|j: int|
                    0 <= j < i ==> Self::autostart_outcome(
                        before[order[j]],
                        #[trigger] self.databases@[order[j]],
                    ),
                forall|j: int| i <= j < n ==> #[trigger] self.databases@[order[j]] == before[order[j]],
                forall|j: int|
                    0 <= j < i && Self::starts_at_launch(before[order[j]])
                        ==> self.db_manager.processes().dom().contains(order[j]) && (
                    #[trigger] self.databases@[order[j]]).pid == Some(
                        self.db_manager.processes()[order[j]],
                    ),
                forall|k: Seq<char>|
                    old(self).db_manager.processes().dom().contains(k)
                        ==> self.db_manager.processes().dom().contains(k),
            decreases n - i,
        {
            let mut db_info = all[i].clone();
            let ghost current = self.databases@;
            let ghost running = self.db_manager.processes();
            let ghost key = order[i as int];
            proof {
                assert(records_of(all@)[i as int] == before[key]);
                assert(db_info@ == before[key]);
                assert(before[key].id == key);
                assert(current[key] == before[key]);
            }
            if db_info.auto_start {
                match self.db_manager.start_database(&mut db_info) {
                    Ok(_) => {
                        proof {
                            lemma_upsert_in_place(current, db_info@);
                        }
                        self.databases.upsert(db_info);
                        proof {
                            assert(self.databases@.dom() =~= before.dom());
                            assert forall|j: int| 0 <= j < i implies Self::autostart_outcome(
                                before[order[j]],
                                #[trigger] self.databases@[order[j]],
                            ) by {
                                assert(order[j] != key);
                                assert(self.databases@[order[j]] == current[order[j]]);
                            }
                            assert forall|j: int| i < j < n implies #[trigger] self.databases@[order[j]]
                                == before[order[j]] by {
                                assert(order[j] != key);
                                assert(self.databases@[order[j]] == current[order[j]]);
                            }
                            assert forall|j: int|
                                0 <= j < i && Self::starts_at_launch(
                                    before[order[j]],
                                ) implies self.db_manager.processes().dom().contains(order[j]) && (
                            #[trigger] self.databases@[order[j]]).pid == Some(
                                self.db_manager.processes()[order[j]],
                            ) by {
                                assert(order[j] != key);
                                assert(self.databases@[order[j]] == current[order[j]]);
                                assert(running.dom().contains(order[j]));
                            }
                        }
                    },
                    Err(_) => {},
                }
            }
            i += 1;
        }
        proof {
            assert forall|k: Seq<char>| before.dom().contains(k) implies Self::autostart_outcome(
                before[k],
                #[trigger] self.databases@[k],
            ) by {
                let p = position(order, k);
                assert(order[p] == k);
            }
            assert forall|k: Seq<char>|
                before.dom().contains(k) && Self::starts_at_launch(
                    before[k],
                ) implies self.db_manager.processes().dom().contains(k) && (
            #[trigger] self.databases@[k]).pid == Some(self.db_manager.processes()[k]) by {
                let p = position(order, k);
                assert(order[p] == k);
            }
        }
    }

    /// Adds a task under its id; a task that stood there is replaced.
    pub fn add_task(&mut self, task: AsyncTask)
        ensures
            final(self).same_but_tasks(old(self)),
            final(self).tasks@ == old(self).tasks@.insert(task.id@, task),
    {
        let key = task.id.clone();
        let _ = self.tasks.insert(key, task);
    }

    /// The task with the given id.
    pub fn get_task(&self, id: &str) -> (found: Option<AsyncTask>)
        ensures
            match found {
                Some(task) => self.tasks@.dom().contains(id@) && task == self.tasks@[id@],
                None => !self.tasks@.dom().contains(id@),
            },
    {
        match self.tasks.get(id) {
            Some(task) => Some(task.clone()),
            None => None,
        }
    }

    /// Lets `updater` change the task with the given id and stamps the task
    /// with the present moment. Without such a task nothing happens.
    pub fn update_task<F: FnOnce(AsyncTask) -> AsyncTask>(&mut self, id: &str, updater: F)
        requires
            old(self).tasks@.dom().contains(id@) ==> updater.requires((old(self).tasks@[id@],)),
        ensures
            final(self).same_but_tasks(old(self)),
            !old(self).tasks@.dom().contains(id@) ==> final(self).tasks@ == old(self).tasks@,
            old(self).tasks@.dom().contains(id@) ==> exists|changed: AsyncTask, stamped: AsyncTask|
                {
                    &&& updater.ensures((old(self).tasks@[id@],), changed)
                    &&& stamped@ == (crate::types::TaskView {
                        updated_at: stamped@.updated_at,
                        ..changed@
                    })
                    &&& final(self).tasks@ == old(self).tasks@.insert(id@, stamped)
                },
    {
        match self.get_task(id) {
            Some(task) => {
                let changed = updater(task);
                let mut stamped = changed;
                stamped.updated_at = get_timestamp();
                assert(stamped@ == (crate::types::TaskView {
                    updated_at: stamped@.updated_at,
                    ..changed@
                }));
                let _ = self.tasks.insert(id.to_owned(), stamped);
            },
            None => {},
        }
    }

    /// Every task, once, in the order in which the tasks came in.
    pub fn get_all_tasks(&self) -> (all: Vec<AsyncTask>)
        ensures
            all.len() == self.tasks.key_seq().len(),
            self.tasks.wf(),
            forall|k: Seq<char>| self.tasks@.dom().contains(k) <==> listed(self.tasks.key_seq(), k),
            forall|i: int|
                0 <= i < all.len() ==> self.tasks@.dom().contains(self.tasks.key_seq()[i])
                    && #[trigger] all[i] == self.tasks@[self.tasks.key_seq()[i]],
    {
        let n = self.tasks.len();
        let mut all: Vec<AsyncTask> = Vec::new();
        let mut i: usize = 0;
        while i < n
            invariant
                i <= n,
                n == self.tasks.key_seq().len(),
                n == self.tasks.value_seq().len(),
                self.tasks.wf(),
                all.len() == i,
                forall|j: int| 0 <= j < i ==> #[trigger] all[j] == self.tasks.value_seq()[j],
            decreases n - i,
        {
            all.push(self.tasks.value_at(i).clone());
            i += 1;
        }
        proof {
            assert forall|j: int| 0 <= j < all.len() implies self.tasks@.dom().contains(
                self.tasks.key_seq()[j],
            ) && #[trigger] all[j] == self.tasks@[self.tasks.key_seq()[j]] by {
                self.tasks.lemma_at(j);
            }
        }
        all
    }

    /// Forgets the task with the given id.
    pub fn remove_task(&mut self, id: &str)
        ensures
            final(self).same_but_tasks(old(self)),
            final(self).tasks@ == old(self).tasks@.remove(id@),
    {
        let _ = self.tasks.remove(id);
    }

    /// The settings.
    pub fn get_settings(&self) -> (settings: GlobalSettings)
        ensures
            settings == self.settings,
    {
        self.settings.clone()
    }

    /// Puts new settings in the place of the old ones.
    pub fn update_settings(&mut self, settings: GlobalSettings)
        ensures
            final(self).settings == settings,
            final(self).databases == old(self).databases,
            final(self).tasks == old(self).tasks,
            final(self).db_manager == old(self).db_manager,
    {
        self.settings = settings;
    }

    /// The record of the engine with the given lower-case name.
    pub fn get_database_by_type(&self, db_type: &str) -> (found: Option<DatabaseInfo>)
        ensures
            match found {
                Some(d) => self.databases@.dom().contains(d.id@) && self.databases@[d.id@] == d@
                    && d.db_type.spec_as_str() == db_type@,
                None => forall|k: Seq<char>|
                    self.databases@.dom().contains(k) ==> (
                    #[trigger] self.databases@[k]).db_type.spec_as_str() != db_type@,
            },
    {
        self.databases.get_by_type(db_type)
    }
}

} // verus!
