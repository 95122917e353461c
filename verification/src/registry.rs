use crate::types::{DatabaseRecord, DatabaseType};
use vstd::prelude::*;

verus! {

/// The records of a registry, each under its id.
pub type Registry = Map<Seq<char>, DatabaseRecord>;

/// Whether every record stands under its own id.
pub open spec fn keyed(m: Registry) -> bool {
    forall|k: Seq<char>| m.dom().contains(k) ==> (#[trigger] m[k]).id == k
}

/// Whether no two records are of one engine.
pub open spec fn one_per_type(m: Registry) -> bool {
    forall|a: Seq<char>, b: Seq<char>|
        m.dom().contains(a) && m.dom().contains(b) && (#[trigger] m[a]).db_type == (
        #[trigger] m[b]).db_type ==> a == b
}

/// What holds of a registry at every moment: ids are unique, and there is at
/// most one record of each engine.
pub open spec fn registry_ok(m: Registry) -> bool {
    keyed(m) && one_per_type(m)
}

/// Whether a record of engine `t` exists.
pub open spec fn has_type(m: Registry, t: DatabaseType) -> bool {
    exists|k: Seq<char>| m.dom().contains(k) && (#[trigger] m[k]).db_type == t
}

/// The id of a record of engine `t`.
pub open spec fn holder(m: Registry, t: DatabaseType) -> Seq<char> {
    choose|k: Seq<char>| m.dom().contains(k) && (#[trigger] m[k]).db_type == t
}

/// The registry without its records of engine `t`.
pub open spec fn without_type(m: Registry, t: DatabaseType) -> Registry {
    Map::new(|k: Seq<char>| m.dom().contains(k) && m[k].db_type != t, |k: Seq<char>| m[k])
}

/// The registry after an update with `r`: `r` stands under its id, and every
/// other record of its engine is gone.
pub open spec fn upsert(m: Registry, r: DatabaseRecord) -> Registry {
    without_type(m, r.db_type).insert(r.id, r)
}

/// The text with which adding `r` is refused, if it is refused: its id, or its
/// engine, is taken.
pub open spec fn add_refusal(m: Registry, r: DatabaseRecord) -> Option<Seq<char>> {
    if m.dom().contains(r.id) {
        Some("Database id already exists: "@ + r.id)
    } else if has_type(m, r.db_type) {
        Some(
            "Database type already exists: "@ + r.db_type.spec_as_str() + " (id="@ + holder(
                m,
                r.db_type,
            ) + ")"@,
        )
    } else {
        None
    }
}

/// The registry after `r` was offered for adding.
pub open spec fn added(m: Registry, r: DatabaseRecord) -> Registry {
    if add_refusal(m, r) is Some {
        m
    } else {
        m.insert(r.id, r)
    }
}

/// The registry that comes of putting the records of `s` in place one after
/// the other: where two have one id or are of one engine, the later one stays.
pub open spec fn restored(s: Seq<DatabaseRecord>) -> Registry
    decreases s.len(),
{
    if s.len() == 0 {
        Map::empty()
    } else {
        upsert(restored(s.drop_last()), s.last())
    }
}

/// Putting records in place one after the other gives a registry in order.
pub proof fn lemma_restored_ok(s: Seq<DatabaseRecord>)
    ensures
        registry_ok(restored(s)),
    decreases s.len(),
{
    if s.len() > 0 {
        lemma_restored_ok(s.drop_last());
        lemma_upsert_ok(restored(s.drop_last()), s.last());
    }
}

/// Putting a record in the place of one of its own engine changes nothing
/// else.
pub proof fn lemma_upsert_in_place(m: Registry, r: DatabaseRecord)
    requires
        registry_ok(m),
        m.dom().contains(r.id),
        m[r.id].db_type == r.db_type,
    ensures
        upsert(m, r) == m.insert(r.id, r),
{
    assert forall|k: Seq<char>| m.dom().contains(k) && k != r.id implies (#[trigger] m[k]).db_type
        != r.db_type by {
        if m[k].db_type == r.db_type {
            assert(m[k].db_type == m[r.id].db_type);
        }
    }
    assert(upsert(m, r) =~= m.insert(r.id, r));
}

/// One change that a registry can undergo.
pub enum Change {
    /// A record is offered for adding; it is refused where its id or engine is taken.
    Add(DatabaseRecord),
    /// A record is put in place, evicting the others of its engine.
    Update(DatabaseRecord),
    /// The record of an id is deleted.
    Remove(Seq<char>),
}

/// The registry after one change.
pub open spec fn applied(m: Registry, change: Change) -> Registry {
    match change {
        Change::Add(r) => added(m, r),
        Change::Update(r) => upsert(m, r),
        Change::Remove(id) => m.remove(id),
    }
}

/// The registry after a sequence of changes, the first one first.
pub open spec fn applied_all(m: Registry, changes: Seq<Change>) -> Registry
    decreases changes.len(),
{
    if changes.len() == 0 {
        m
    } else {
        applied(applied_all(m, changes.drop_last()), changes.last())
    }
}

/// An update leaves at most one record of each engine, each under its id.
pub proof fn lemma_upsert_ok(m: Registry, r: DatabaseRecord)
    requires
        registry_ok(m),
    ensures
        registry_ok(upsert(m, r)),
        upsert(m, r).dom().contains(r.id),
        upsert(m, r)[r.id] == r,
{
    let n = upsert(m, r);
    assert forall|k: Seq<char>| n.dom().contains(k) implies (#[trigger] n[k]).id == k by {
        if k != r.id {
            assert(m[k].id == k);
        }
    }
    assert forall|a: Seq<char>, b: Seq<char>|
        n.dom().contains(a) && n.dom().contains(b) && (#[trigger] n[a]).db_type == (
        #[trigger] n[b]).db_type implies a == b by {
        if a != r.id && b != r.id {
            assert(m[a].db_type == m[b].db_type);
        }
    }
}

/// Adding leaves at most one record of each engine, each under its id.
pub proof fn lemma_added_ok(m: Registry, r: DatabaseRecord)
    requires
        registry_ok(m),
    ensures
        registry_ok(added(m, r)),
{
    let n = added(m, r);
    if add_refusal(m, r) is None {
        assert forall|k: Seq<char>| n.dom().contains(k) implies (#[trigger] n[k]).id == k by {
            if k != r.id {
                assert(m[k].id == k);
            }
        }
        assert forall|a: Seq<char>, b: Seq<char>|
            n.dom().contains(a) && n.dom().contains(b) && (#[trigger] n[a]).db_type == (
            #[trigger] n[b]).db_type implies a == b by {
            if a != r.id && b != r.id {
                assert(m[a].db_type == m[b].db_type);
            } else if a != r.id {
                assert(m[a].db_type == r.db_type);
            } else if b != r.id {
                assert(m[b].db_type == r.db_type);
            }
        }
    }
}

/// Deleting leaves at most one record of each engine, each under its id.
pub proof fn lemma_removed_ok(m: Registry, id: Seq<char>)
    requires
        registry_ok(m),
    ensures
        registry_ok(m.remove(id)),
{
    let n = m.remove(id);
    assert forall|k: Seq<char>| n.dom().contains(k) implies (#[trigger] n[k]).id == k by {
        assert(m[k].id == k);
    }
    assert forall|a: Seq<char>, b: Seq<char>|
        n.dom().contains(a) && n.dom().contains(b) && (#[trigger] n[a]).db_type == (
        #[trigger] n[b]).db_type implies a == b by {
        assert(m[a].db_type == m[b].db_type);
    }
}

/// Whatever is added, updated and deleted, and in whatever order: a registry
/// never holds two records of one engine, nor two under one id.
pub proof fn lemma_single_instance(m: Registry, changes: Seq<Change>)
    requires
        registry_ok(m),
    ensures
        registry_ok(applied_all(m, changes)),
    decreases changes.len(),
{
    if changes.len() > 0 {
        lemma_single_instance(m, changes.drop_last());
        let before = applied_all(m, changes.drop_last());
        match changes.last() {
            Change::Add(r) => lemma_added_ok(before, r),
            Change::Update(r) => lemma_upsert_ok(before, r),
            Change::Remove(id) => lemma_removed_ok(before, id),
        }
    }
}

/// Where a record of engine `t` exists in a registry that is in order, only
/// one id holds it.
pub proof fn lemma_holder_unique(m: Registry, t: DatabaseType, k: Seq<char>)
    requires
        one_per_type(m),
        m.dom().contains(k),
        m[k].db_type == t,
    ensures
        has_type(m, t),
        holder(m, t) == k,
{
    let h = holder(m, t);
    assert(m.dom().contains(h) && m[h].db_type == t);
    assert(m[h].db_type == m[k].db_type);
}

} // verus!
