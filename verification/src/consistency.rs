//! How the service table and the cache stay in step. The table and the cache
//! are modelled as maps; each request of an operation is answered as a
//! database and cache that succeed would answer it, and the operation is run
//! to its end against that model.

use vstd::prelude::*;
use crate::keys::redis_key;
use crate::model::ServiceRecord;
use crate::service::{
    active_begin, add_begin, delete_begin, delete_from, flow_accepts, flow_step, update_begin, with_activity,
    EffectView, FlowView, OutcomeView,
};
use crate::urls::UrlErrorView;

verus! {

/// The service table (rows by id) and the cache (descriptions by key).
pub struct StoreView {
    pub rows: Map<Seq<char>, ServiceRecord>,
    pub cache: Map<Seq<char>, ServiceRecord>,
}

/// An enabled service (flag 1).
pub open spec fn is_enabled(r: ServiceRecord) -> bool {
    r.is_active == Some(1i32)
}

/// The table and the cache agree: every row is stored under its own id; every
/// enabled row is cached under its key; and every cache entry is an enabled
/// row of the table, cached under that row's key.
pub open spec fn consistent(st: StoreView) -> bool {
    &&& forall|id: Seq<char>| #[trigger] st.rows.contains_key(id) ==> st.rows[id].id == Some(id)
    &&& forall|id: Seq<char>|
        #[trigger] st.rows.contains_key(id) && is_enabled(st.rows[id]) ==> st.cache.contains_key(
            redis_key(st.rows[id]),
        ) && st.cache[redis_key(st.rows[id])] == st.rows[id]
    &&& forall|k: Seq<char>|
        #[trigger] st.cache.contains_key(k) ==> {
            let r = st.cache[k];
            &&& is_enabled(r)
            &&& redis_key(r) == k
            &&& r.id is Some
            &&& st.rows.contains_key(r.id->0)
            &&& st.rows[r.id->0] == r
        }
}

/// `new` over `old`: fields that `new` leaves empty keep their stored value,
/// as the database update skips empty fields.
pub open spec fn merge(old: ServiceRecord, new: ServiceRecord) -> ServiceRecord {
    ServiceRecord {
        id: if new.id is Some { new.id } else { old.id },
        server_name: if new.server_name is Some { new.server_name } else { old.server_name },
        url: if new.url is Some { new.url } else { old.url },
        description: if new.description is Some { new.description } else { old.description },
        protocol: if new.protocol is Some { new.protocol } else { old.protocol },
        port: if new.port is Some { new.port } else { old.port },
        path: if new.path is Some { new.path } else { old.path },
        is_active: if new.is_active is Some { new.is_active } else { old.is_active },
        created_at: if new.created_at is Some { new.created_at } else { old.created_at },
        updated_at: if new.updated_at is Some { new.updated_at } else { old.updated_at },
    }
}

/// The rows with the given ids, in the order of the ids (absent ids skipped).
pub open spec fn found_rows(rows: Map<Seq<char>, ServiceRecord>, ids: Seq<Seq<char>>) -> Seq<ServiceRecord>
    decreases ids.len(),
{
    if ids.len() == 0 {
        Seq::empty()
    } else {
        let rest = found_rows(rows, ids.drop_last());
        if rows.contains_key(ids.last()) {
            rest.push(rows[ids.last()])
        } else {
            rest
        }
    }
}

/// A non-empty text that stands for a cached description (only whether a
/// cache read is empty matters to the operations).
pub open spec fn some_description() -> Seq<char> {
    seq!['{', '}']
}

/// The answer of a database and cache that succeed to request `e`, and their
/// state afterwards. The only refusal is the insertion of a row whose id is
/// already taken.
pub open spec fn answer(st: StoreView, e: EffectView) -> (StoreView, OutcomeView) {
    match e {
        EffectView::CacheGet(k) => (
            st,
            OutcomeView::Cached(if st.cache.contains_key(k) { some_description() } else { Seq::empty() }),
        ),
        EffectView::CacheGetService(k) => (st, OutcomeView::CachedService(st.cache[k])),
        EffectView::CachePut(k, s) => (StoreView { cache: st.cache.insert(k, s), ..st }, OutcomeView::Done),
        EffectView::CacheDelete(k) => (StoreView { cache: st.cache.remove(k), ..st }, OutcomeView::Done),
        EffectView::StoreInsert(s) => if st.rows.contains_key(s.id->0) {
            (st, OutcomeView::Failed("duplicate id"@))
        } else {
            (StoreView { rows: st.rows.insert(s.id->0, s), ..st }, OutcomeView::Rows(1))
        },
        EffectView::StoreFind(id) => (
            st,
            OutcomeView::Found(if st.rows.contains_key(id) { Some(st.rows[id]) } else { None }),
        ),
        EffectView::StoreUpdate(s) => if st.rows.contains_key(s.id->0) {
            (
                StoreView { rows: st.rows.insert(s.id->0, merge(st.rows[s.id->0], s)), ..st },
                OutcomeView::Rows(1),
            )
        } else {
            (st, OutcomeView::Rows(0))
        },
        EffectView::StoreFindMany(ids) => (st, OutcomeView::FoundMany(found_rows(st.rows, ids))),
        EffectView::StoreDeleteMany(ids) => (
            StoreView { rows: st.rows.remove_keys(ids.to_set()), ..st },
            OutcomeView::Rows(found_rows(st.rows, ids).len() as u64),
        ),
        EffectView::Finish(_) => (st, OutcomeView::Done),
    }
}

/// Runs an operation in state `f` with pending request `e` against the model
/// for at most `fuel` requests: the final store, state and request (a
/// `Finish` when the operation ended).
pub open spec fn execute(st: StoreView, f: FlowView, e: EffectView, fuel: nat) -> (StoreView, FlowView, EffectView)
    decreases fuel,
{
    if fuel == 0 || e is Finish {
        (st, f, e)
    } else {
        let (st2, o) = answer(st, e);
        if !flow_accepts(f, o) {
            (st, f, e)
        } else {
            let (f2, e2) = flow_step(f, o);
            execute(st2, f2, e2, (fuel - 1) as nat)
        }
    }
}

/// In a consistent state no two enabled rows share a cache key.
pub proof fn law_enabled_keys_are_unique(st: StoreView, i: Seq<char>, j: Seq<char>)
    requires
        consistent(st),
        st.rows.contains_key(i),
        st.rows.contains_key(j),
        is_enabled(st.rows[i]),
        is_enabled(st.rows[j]),
        redis_key(st.rows[i]) == redis_key(st.rows[j]),
    ensures
        i == j,
{
    assert(st.rows[i].id == Some(i));
    assert(st.rows[j].id == Some(j));
}

/// Registering a service with a fresh id keeps the table and the cache
/// consistent, whether it is refused or stored.
pub proof fn law_add_keeps_consistency(
    st: StoreView,
    arg: ServiceRecord,
    host: Result<Option<Seq<char>>, UrlErrorView>,
    id: Seq<char>,
    now: Seq<char>,
)
    requires
        consistent(st),
        !st.rows.contains_key(id),
        host is Ok ==> host->Ok_0 is Some,
    ensures
        ({
            let (f, e) = add_begin(arg, host, id, now);
            let (st2, f2, e2) = execute(st, f, e, 3);
            &&& e2 is Finish
            &&& consistent(st2)
        }),
{
    let (f, e) = add_begin(arg, host, id, now);
    if !(e is CacheGet) {
        assert(e is Finish);
        assert(execute(st, f, e, 3) == (st, f, e));
    }
    if let EffectView::CacheGet(k) = e {
        let s = f->AddLookup_service;
        assert(k == redis_key(s));
        assert(s.id == Some(id));
        if st.cache.contains_key(k) {
            let fin = EffectView::Finish(Err(crate::error::ServiceErrorView::DuplicateService));
            assert(answer(st, e) == (st, OutcomeView::Cached(some_description())));
            assert(flow_step(f, OutcomeView::Cached(some_description())) == (FlowView::Finished, fin));
            assert(execute(st, FlowView::Finished, fin, 2) == (st, FlowView::Finished, fin));
            assert(execute(st, f, e, 3) == (st, FlowView::Finished, fin));
        } else {
            assert forall|j: Seq<char>| #[trigger] st.rows.contains_key(j) && is_enabled(st.rows[j])
                implies redis_key(st.rows[j]) != k by {
            }
            let rows2 = st.rows.insert(id, s);
            if is_enabled(s) {
                let cache2 = st.cache.insert(k, s);
                let st3 = StoreView { rows: rows2, cache: cache2 };
                let stc = StoreView { cache: cache2, ..st };
                let done = (st3, FlowView::Finished, EffectView::Finish(Ok(1u64)));
                assert(answer(stc, EffectView::StoreInsert(s)) == (st3, OutcomeView::Rows(1)));
                assert(execute(st3, FlowView::Finished, EffectView::Finish(Ok(1u64)), 0) == done);
                assert(execute(stc, FlowView::AddInsert, EffectView::StoreInsert(s), 1) == done);
                assert(answer(st, EffectView::CachePut(k, s)) == (stc, OutcomeView::Done));
                assert(execute(st, FlowView::AddCacheWrite { service: s }, EffectView::CachePut(k, s), 2) == done);
                assert(answer(st, e) == (st, OutcomeView::Cached(Seq::empty())));
                assert(flow_step(f, OutcomeView::Cached(Seq::empty()))
                    == (FlowView::AddCacheWrite { service: s }, EffectView::CachePut(k, s)));
                assert(execute(st, f, e, 3) == done);
                assert forall|c: Seq<char>| #[trigger] cache2.contains_key(c) implies {
                    let r = cache2[c];
                    &&& is_enabled(r)
                    &&& redis_key(r) == c
                    &&& r.id is Some
                    &&& rows2.contains_key(r.id->0)
                    &&& rows2[r.id->0] == r
                } by {
                    if c != k {
                        assert(st.cache.contains_key(c));
                        assert(st.cache[c].id->0 != id);
                    }
                }
                assert(consistent(st3));
            } else {
                let st3 = StoreView { rows: rows2, cache: st.cache };
                let done = (st3, FlowView::Finished, EffectView::Finish(Ok(1u64)));
                assert(answer(st, EffectView::StoreInsert(s)) == (st3, OutcomeView::Rows(1)));
                assert(execute(st3, FlowView::Finished, EffectView::Finish(Ok(1u64)), 1) == done);
                assert(execute(st, FlowView::AddInsert, EffectView::StoreInsert(s), 2) == done);
                assert(answer(st, e) == (st, OutcomeView::Cached(Seq::empty())));
                assert(flow_step(f, OutcomeView::Cached(Seq::empty())) == (FlowView::AddInsert, EffectView::StoreInsert(s)));
                assert(execute(st, f, e, 3) == done);
                assert forall|c: Seq<char>| #[trigger] st.cache.contains_key(c) implies {
                    let r = st.cache[c];
                    &&& rows2.contains_key(r.id->0)
                    &&& rows2[r.id->0] == r
                } by {
                    assert(st.cache[c].id->0 != id);
                }
                assert(consistent(st3));
            }
        }
    }
}

/// Enabling or disabling a stored service keeps the table and the cache
/// consistent, provided no other enabled service shares its key (when one
/// does, the cache entry of that other service is overwritten or removed).
pub proof fn law_active_change_keeps_consistency(
    st: StoreView,
    id: Seq<char>,
    is_active: Option<i32>,
    now: Seq<char>,
)
    requires
        consistent(st),
        st.rows.contains_key(id),
        is_active is Some,
        forall|j: Seq<char>|
            #[trigger] st.rows.contains_key(j) && j != id && is_enabled(st.rows[j])
                ==> redis_key(st.rows[j]) != redis_key(st.rows[id]),
    ensures
        ({
            let (f, e) = active_begin(id, is_active, now);
            let (st2, f2, e2) = execute(st, f, e, 3);
            &&& e2 is Finish
            &&& consistent(st2)
        }),
{
    let (f, e) = active_begin(id, is_active, now);
    let stored = st.rows[id];
    assert(stored.id == Some(id));
    let key = redis_key(stored);
    let changed = with_activity(stored, is_active, now);
    assert(merge(stored, changed) == changed);
    assert(redis_key(changed) == key);
    let rows2 = st.rows.insert(id, changed);
    assert(answer(st, e) == (st, OutcomeView::Found(Some(stored))));
    let fin = EffectView::Finish(Ok(1u64));
    if is_active != Some(1i32) {
        let cache2 = st.cache.remove(key);
        let stc = StoreView { cache: cache2, ..st };
        let st3 = StoreView { rows: rows2, cache: cache2 };
        assert(flow_step(f, OutcomeView::Found(Some(stored)))
            == (FlowView::ActiveCacheDelete { service: changed }, EffectView::CacheDelete(key)));
        assert(answer(st, EffectView::CacheDelete(key)) == (stc, OutcomeView::Done));
        assert(answer(stc, EffectView::StoreUpdate(changed)) == (st3, OutcomeView::Rows(1)));
        assert(execute(st3, FlowView::Finished, fin, 0) == (st3, FlowView::Finished, fin));
        assert(flow_step(FlowView::ActiveUpdate, OutcomeView::Rows(1)) == (FlowView::Finished, fin));
        assert(execute(stc, FlowView::ActiveUpdate, EffectView::StoreUpdate(changed), 1)
            == (st3, FlowView::Finished, fin));
        assert(execute(st, FlowView::ActiveCacheDelete { service: changed }, EffectView::CacheDelete(key), 2)
            == (st3, FlowView::Finished, fin));
        assert(execute(st, f, e, 3) == (st3, FlowView::Finished, fin));
        assert forall|c: Seq<char>| #[trigger] cache2.contains_key(c) implies {
            let r = cache2[c];
            &&& is_enabled(r)
            &&& redis_key(r) == c
            &&& r.id is Some
            &&& rows2.contains_key(r.id->0)
            &&& rows2[r.id->0] == r
        } by {
            assert(st.cache.contains_key(c));
            if st.cache[c].id->0 == id {
                assert(st.cache[c] == stored);
            }
        }
        assert(consistent(st3));
    } else {
        let cache2 = st.cache.insert(key, changed);
        let stc = StoreView { cache: cache2, ..st };
        let st3 = StoreView { rows: rows2, cache: cache2 };
        assert(flow_step(f, OutcomeView::Found(Some(stored)))
            == (FlowView::ActiveCacheWrite { service: changed }, EffectView::CachePut(key, changed)));
        assert(answer(st, EffectView::CachePut(key, changed)) == (stc, OutcomeView::Done));
        assert(answer(stc, EffectView::StoreUpdate(changed)) == (st3, OutcomeView::Rows(1)));
        assert(execute(st3, FlowView::Finished, fin, 0) == (st3, FlowView::Finished, fin));
        assert(flow_step(FlowView::ActiveUpdate, OutcomeView::Rows(1)) == (FlowView::Finished, fin));
        assert(execute(stc, FlowView::ActiveUpdate, EffectView::StoreUpdate(changed), 1)
            == (st3, FlowView::Finished, fin));
        assert(execute(st, FlowView::ActiveCacheWrite { service: changed }, EffectView::CachePut(key, changed), 2)
            == (st3, FlowView::Finished, fin));
        assert(execute(st, f, e, 3) == (st3, FlowView::Finished, fin));
        assert forall|c: Seq<char>| #[trigger] cache2.contains_key(c) implies {
            let r = cache2[c];
            &&& is_enabled(r)
            &&& redis_key(r) == c
            &&& r.id is Some
            &&& rows2.contains_key(r.id->0)
            &&& rows2[r.id->0] == r
        } by {
            if c != key {
                assert(st.cache.contains_key(c));
                if st.cache[c].id->0 == id {
                    assert(st.cache[c] == stored);
                }
            }
        }
        assert(consistent(st3));
    }
}

/// Changing an enabled service keeps the table and the cache consistent,
/// whether the change is refused or stored, provided the change request
/// carries no activity flag (as a change request from the API does) and its
/// key is the key of the stored result (a request that leaves the name or the
/// path out keeps the stored one in the table while the cache is written under
/// the request's own key).
pub proof fn law_update_keeps_consistency(st: StoreView, arg: ServiceRecord, now: Seq<char>)
    requires
        consistent(st),
        arg.id is Some,
        st.rows.contains_key(arg.id->0),
        is_enabled(st.rows[arg.id->0]),
        arg.is_active is None,
        redis_key(merge(st.rows[arg.id->0], ServiceRecord { updated_at: Some(now), ..arg })) == redis_key(arg),
    ensures
        ({
            let (f, e) = update_begin(arg, now);
            let (st2, f2, e2) = execute(st, f, e, 7);
            &&& e2 is Finish
            &&& consistent(st2)
        }),
{
    let (f, e) = update_begin(arg, now);
    let id = arg.id->0;
    let a = ServiceRecord { updated_at: Some(now), ..arg };
    let stored = st.rows[id];
    assert(stored.id == Some(id));
    let old = redis_key(stored);
    let new = redis_key(a);
    assert(new == redis_key(arg));
    assert(st.cache.contains_key(old) && st.cache[old] == stored);
    let merged = merge(stored, a);
    assert(is_enabled(merged));
    assert(merged.id == Some(id));
    let rows2 = st.rows.insert(id, merged);
    let st1 = StoreView { rows: rows2, ..st };
    let fin = EffectView::Finish(Ok(1u64));
    let cached = FlowView::UpdateCached { arg: a, old_key: old, new_key: new };
    assert(answer(st, e) == (st, OutcomeView::Found(Some(stored))));
    assert(flow_step(f, OutcomeView::Found(Some(stored))) == (cached, EffectView::CacheGetService(old)));
    assert(answer(st, EffectView::CacheGetService(old)) == (st, OutcomeView::CachedService(stored)));
    assert(answer(st, EffectView::StoreUpdate(a)) == (st1, OutcomeView::Rows(1)));
    assert(answer(st1, EffectView::StoreFind(id)) == (st1, OutcomeView::Found(Some(merged))));
    assert forall|j: Seq<char>| #[trigger] st.rows.contains_key(j) && j != id && is_enabled(st.rows[j])
        implies redis_key(st.rows[j]) != old by {
        if redis_key(st.rows[j]) == old {
            assert(st.rows[j] == stored);
        }
    }
    if old == new {
        let write = FlowView::UpdateWrite { id, new_key: new, stale_key: None };
        let reload = FlowView::UpdateReload { new_key: new, stale_key: None, rows: 1 };
        let put = FlowView::UpdateCacheWrite { stale_key: None, rows: 1 };
        let cache2 = st.cache.insert(new, merged);
        let st2 = StoreView { rows: rows2, cache: cache2 };
        assert(flow_step(cached, OutcomeView::CachedService(stored)) == (write, EffectView::StoreUpdate(a)));
        assert(flow_step(write, OutcomeView::Rows(1)) == (reload, EffectView::StoreFind(id)));
        assert(flow_step(reload, OutcomeView::Found(Some(merged))) == (put, EffectView::CachePut(new, merged)));
        assert(answer(st1, EffectView::CachePut(new, merged)) == (st2, OutcomeView::Done));
        assert(flow_step(put, OutcomeView::Done) == (FlowView::Finished, fin));
        let done = (st2, FlowView::Finished, fin);
        assert(execute(st2, FlowView::Finished, fin, 2) == done);
        assert(execute(st1, put, EffectView::CachePut(new, merged), 3) == done);
        assert(execute(st1, reload, EffectView::StoreFind(id), 4) == done);
        assert(execute(st, write, EffectView::StoreUpdate(a), 5) == done);
        assert(execute(st, cached, EffectView::CacheGetService(old), 6) == done);
        assert(execute(st, f, e, 7) == done);
        assert forall|c: Seq<char>| #[trigger] cache2.contains_key(c) implies {
            let r = cache2[c];
            &&& is_enabled(r)
            &&& redis_key(r) == c
            &&& r.id is Some
            &&& rows2.contains_key(r.id->0)
            &&& rows2[r.id->0] == r
        } by {
            if c != new {
                assert(st.cache.contains_key(c));
                if st.cache[c].id->0 == id {
                    assert(st.cache[c] == stored);
                }
            }
        }
        assert(consistent(st2));
    } else {
        let lookup = FlowView::UpdateNewKeyLookup { arg: a, old_key: old, new_key: new };
        assert(flow_step(cached, OutcomeView::CachedService(stored)) == (lookup, EffectView::CacheGet(new)));
        if st.cache.contains_key(new) {
            let dup = EffectView::Finish(Err(crate::error::ServiceErrorView::DuplicateService));
            assert(answer(st, EffectView::CacheGet(new)) == (st, OutcomeView::Cached(some_description())));
            assert(flow_step(lookup, OutcomeView::Cached(some_description())) == (FlowView::Finished, dup));
            assert(execute(st, FlowView::Finished, dup, 4) == (st, FlowView::Finished, dup));
            assert(execute(st, lookup, EffectView::CacheGet(new), 5) == (st, FlowView::Finished, dup));
            assert(execute(st, cached, EffectView::CacheGetService(old), 6) == (st, FlowView::Finished, dup));
            assert(execute(st, f, e, 7) == (st, FlowView::Finished, dup));
        } else {
            let write = FlowView::UpdateWrite { id, new_key: new, stale_key: Some(old) };
            let reload = FlowView::UpdateReload { new_key: new, stale_key: Some(old), rows: 1 };
            let put = FlowView::UpdateCacheWrite { stale_key: Some(old), rows: 1 };
            let stale = FlowView::UpdateStaleDelete { rows: 1 };
            let cache2 = st.cache.insert(new, merged);
            let st2 = StoreView { rows: rows2, cache: cache2 };
            let cache3 = cache2.remove(old);
            let st3 = StoreView { rows: rows2, cache: cache3 };
            assert(answer(st, EffectView::CacheGet(new)) == (st, OutcomeView::Cached(Seq::empty())));
            assert(flow_step(lookup, OutcomeView::Cached(Seq::empty())) == (write, EffectView::StoreUpdate(a)));
            assert(flow_step(write, OutcomeView::Rows(1)) == (reload, EffectView::StoreFind(id)));
            assert(flow_step(reload, OutcomeView::Found(Some(merged))) == (put, EffectView::CachePut(new, merged)));
            assert(answer(st1, EffectView::CachePut(new, merged)) == (st2, OutcomeView::Done));
            assert(flow_step(put, OutcomeView::Done) == (stale, EffectView::CacheDelete(old)));
            assert(answer(st2, EffectView::CacheDelete(old)) == (st3, OutcomeView::Done));
            assert(flow_step(stale, OutcomeView::Done) == (FlowView::Finished, fin));
            let done = (st3, FlowView::Finished, fin);
            assert(execute(st3, FlowView::Finished, fin, 0) == done);
            assert(execute(st2, stale, EffectView::CacheDelete(old), 1) == done);
            assert(execute(st1, put, EffectView::CachePut(new, merged), 2) == done);
            assert(execute(st1, reload, EffectView::StoreFind(id), 3) == done);
            assert(execute(st, write, EffectView::StoreUpdate(a), 4) == done);
            assert(execute(st, lookup, EffectView::CacheGet(new), 5) == done);
            assert(execute(st, cached, EffectView::CacheGetService(old), 6) == done);
            assert(execute(st, f, e, 7) == done);
            assert forall|j: Seq<char>| #[trigger] st.rows.contains_key(j) && j != id && is_enabled(st.rows[j])
                implies redis_key(st.rows[j]) != new by {
                assert(st.cache.contains_key(redis_key(st.rows[j])));
            }
            assert forall|c: Seq<char>| #[trigger] cache3.contains_key(c) implies {
                let r = cache3[c];
                &&& is_enabled(r)
                &&& redis_key(r) == c
                &&& r.id is Some
                &&& rows2.contains_key(r.id->0)
                &&& rows2[r.id->0] == r
            } by {
                if c != new {
                    assert(st.cache.contains_key(c));
                    if st.cache[c].id->0 == id {
                        assert(st.cache[c] == stored);
                    }
                }
            }
            assert(consistent(st3));
        }
    }
}

/// The cache with the keys `ks` removed one after the other.
pub open spec fn remove_all(c: Map<Seq<char>, ServiceRecord>, ks: Seq<Seq<char>>) -> Map<Seq<char>, ServiceRecord>
    decreases ks.len(),
{
    if ks.len() == 0 {
        c
    } else {
        remove_all(c.remove(ks[0]), ks.drop_first())
    }
}

proof fn lemma_remove_all(c: Map<Seq<char>, ServiceRecord>, ks: Seq<Seq<char>>, x: Seq<char>)
    ensures
        remove_all(c, ks).contains_key(x) <==> c.contains_key(x) && !ks.contains(x),
        remove_all(c, ks).contains_key(x) ==> remove_all(c, ks)[x] == c[x],
    decreases ks.len(),
{
    if ks.len() > 0 {
        lemma_remove_all(c.remove(ks[0]), ks.drop_first(), x);
        if ks.contains(x) && x != ks[0] {
            let i = choose|i: int| 0 <= i < ks.len() && ks[i] == x;
            assert(ks.drop_first()[i - 1] == x);
        }
        if ks.drop_first().contains(x) {
            let i = choose|i: int| 0 <= i < ks.drop_first().len() && ks.drop_first()[i] == x;
            assert(ks[i + 1] == x);
        }
        if x == ks[0] {
            assert(ks.contains(x));
        }
    }
}

proof fn lemma_found_rows(rows: Map<Seq<char>, ServiceRecord>, ids: Seq<Seq<char>>)
    requires
        forall|x: Seq<char>| #[trigger] rows.contains_key(x) ==> rows[x].id == Some(x),
    ensures
        forall|x: Seq<char>| ids.contains(x) && rows.contains_key(x)
            ==> #[trigger] found_rows(rows, ids).contains(rows[x]),
        forall|i: int| #![trigger found_rows(rows, ids)[i]] 0 <= i < found_rows(rows, ids).len() ==> {
            let r = found_rows(rows, ids)[i];
            &&& r.id is Some
            &&& ids.contains(r.id->0)
            &&& rows.contains_key(r.id->0)
            &&& rows[r.id->0] == r
        },
    decreases ids.len(),
{
    if ids.len() > 0 {
        let rest_ids = ids.drop_last();
        lemma_found_rows(rows, rest_ids);
        let rest = found_rows(rows, rest_ids);
        let all = found_rows(rows, ids);
        assert forall|x: Seq<char>| ids.contains(x) && rows.contains_key(x) implies #[trigger] all.contains(rows[x]) by {
            let i = choose|i: int| 0 <= i < ids.len() && ids[i] == x;
            if i < ids.len() - 1 {
                assert(rest_ids[i] == x);
                assert(rest.contains(rows[x]));
                let j = choose|j: int| 0 <= j < rest.len() && rest[j] == rows[x];
                assert(all[j] == rows[x]);
            } else {
                assert(all[all.len() - 1] == rows[x]);
            }
        }
        assert forall|i: int| #![trigger all[i]] 0 <= i < all.len() implies {
            let r = all[i];
            &&& r.id is Some
            &&& ids.contains(r.id->0)
            &&& rows.contains_key(r.id->0)
            &&& rows[r.id->0] == r
        } by {
            if i < rest.len() {
                assert(all[i] == rest[i]);
                let x = rest[i].id->0;
                assert(rest_ids.contains(x));
                let j = choose|j: int| 0 <= j < rest_ids.len() && rest_ids[j] == x;
                assert(ids[j] == x);
            } else {
                let x = ids.last();
                assert(rows.contains_key(x));
                assert(all[i] == rows[x]);
                assert(ids[ids.len() - 1] == x);
            }
        }
    }
}

proof fn lemma_removal_run(st: StoreView, ids: Seq<Seq<char>>, keys: Seq<Seq<char>>, k: nat, fuel: nat)
    requires
        k <= keys.len(),
        fuel >= keys.len() - k + 2,
    ensures
        ({
            let (f, e) = delete_from(ids, keys, k);
            execute(st, f, e, fuel) == (
                StoreView {
                    rows: st.rows.remove_keys(ids.to_set()),
                    cache: remove_all(st.cache, keys.subrange(k as int, keys.len() as int)),
                },
                FlowView::Finished,
                EffectView::Finish(Ok(found_rows(st.rows, ids).len() as u64)),
            )
        }),
    decreases keys.len() - k,
{
    let (f, e) = delete_from(ids, keys, k);
    let rest = keys.subrange(k as int, keys.len() as int);
    if k < keys.len() {
        let stc = StoreView { cache: st.cache.remove(keys[k as int]), ..st };
        assert(answer(st, e) == (stc, OutcomeView::Done));
        assert(flow_step(f, OutcomeView::Done) == delete_from(ids, keys, k + 1));
        lemma_removal_run(stc, ids, keys, k + 1, (fuel - 1) as nat);
        assert(rest[0] == keys[k as int]);
        assert(rest.drop_first() =~= keys.subrange((k + 1) as int, keys.len() as int));
    } else {
        let n = found_rows(st.rows, ids).len() as u64;
        let st2 = StoreView { rows: st.rows.remove_keys(ids.to_set()), ..st };
        let fin = EffectView::Finish(Ok(n));
        assert(answer(st, e) == (st2, OutcomeView::Rows(n)));
        assert(flow_step(f, OutcomeView::Rows(n)) == (FlowView::Finished, fin));
        assert(execute(st2, FlowView::Finished, fin, (fuel - 1) as nat) == (st2, FlowView::Finished, fin));
        assert(rest.len() == 0);
        assert(remove_all(st.cache, rest) == st.cache);
    }
}

/// Removing services keeps the table and the cache consistent, provided no
/// service that stays enabled shares its key with a removed one (when one
/// does, its cache entry is removed with the other's key).
pub proof fn law_delete_keeps_consistency(st: StoreView, ids: Seq<Seq<char>>)
    requires
        consistent(st),
        forall|x: Seq<char>, y: Seq<char>|
            #![trigger st.rows.contains_key(x), st.rows.contains_key(y)]
            ids.contains(x) && st.rows.contains_key(x) && !ids.contains(y) && st.rows.contains_key(y)
                && is_enabled(st.rows[y]) ==> redis_key(st.rows[x]) != redis_key(st.rows[y]),
    ensures
        ({
            let (f, e) = delete_begin(ids);
            let (st2, f2, e2) = execute(st, f, e, found_rows(st.rows, ids).len() + 3);
            &&& e2 is Finish
            &&& consistent(st2)
        }),
{
    let (f, e) = delete_begin(ids);
    let found = found_rows(st.rows, ids);
    let keys = found.map_values(|r: ServiceRecord| redis_key(r));
    let fuel = found.len() + 3;
    lemma_delete_run(st, ids);
    let rows2 = st.rows.remove_keys(ids.to_set());
    let cache2 = remove_all(st.cache, keys);
    let st2 = StoreView { rows: rows2, cache: cache2 };
    assert(execute(st, f, e, fuel) == (st2, FlowView::Finished, EffectView::Finish(Ok(found.len() as u64))));
    lemma_found_rows(st.rows, ids);
    assert forall|y: Seq<char>| #[trigger] rows2.contains_key(y) && is_enabled(rows2[y]) implies
        cache2.contains_key(redis_key(rows2[y])) && cache2[redis_key(rows2[y])] == rows2[y] by {
        let ky = redis_key(st.rows[y]);
        assert(st.rows.contains_key(y) && !ids.contains(y));
        lemma_remove_all(st.cache, keys, ky);
        if keys.contains(ky) {
            let i = choose|i: int| 0 <= i < keys.len() && keys[i] == ky;
            let x = found[i].id->0;
            assert(redis_key(st.rows[x]) != redis_key(st.rows[y]));
        }
    }
    assert forall|c: Seq<char>| #[trigger] cache2.contains_key(c) implies {
        let r = cache2[c];
        &&& is_enabled(r)
        &&& redis_key(r) == c
        &&& r.id is Some
        &&& rows2.contains_key(r.id->0)
        &&& rows2[r.id->0] == r
    } by {
        lemma_remove_all(st.cache, keys, c);
        let r = st.cache[c];
        let j = r.id->0;
        if ids.contains(j) {
            assert(found.contains(st.rows[j]));
            let i = choose|i: int| 0 <= i < found.len() && found[i] == st.rows[j];
            assert(keys[i] == c);
            assert(keys.contains(c));
        }
    }
    assert(consistent(st2));
}

/// A service that the cache publishes: enabled, with a non-empty key.
pub open spec fn is_published(r: ServiceRecord) -> bool {
    is_enabled(r) && redis_key(r).len() > 0
}

/// Every row is stored under its own id.
pub open spec fn table_wf(st: StoreView) -> bool {
    forall|id: Seq<char>| #[trigger] st.rows.contains_key(id) ==> st.rows[id].id == Some(id)
}

/// The cache publishes the table: every enabled row with a non-empty key is
/// cached under its key; no two such rows share a key; and every cache entry
/// is such a row of the table, cached under its key.
pub open spec fn cache_publishes_table(st: StoreView) -> bool {
    &&& forall|id: Seq<char>|
        #[trigger] st.rows.contains_key(id) && is_published(st.rows[id]) ==> st.cache.contains_key(
            redis_key(st.rows[id]),
        ) && st.cache[redis_key(st.rows[id])] == st.rows[id]
    &&& forall|i: Seq<char>, j: Seq<char>|
        #![trigger st.rows.contains_key(i), st.rows.contains_key(j)]
        st.rows.contains_key(i) && st.rows.contains_key(j) && is_published(st.rows[i]) && is_published(st.rows[j])
            && redis_key(st.rows[i]) == redis_key(st.rows[j]) ==> i == j
    &&& forall|k: Seq<char>|
        #[trigger] st.cache.contains_key(k) ==> {
            let r = st.cache[k];
            &&& is_published(r)
            &&& redis_key(r) == k
            &&& r.id is Some
            &&& st.rows.contains_key(r.id->0)
            &&& st.rows[r.id->0] == r
        }
}

/// Registering a service ends, and when it succeeds the cache still
/// publishes the table; in particular no two enabled services then share a
/// name and path. (A new id that is already taken makes the insertion fail,
/// after an enabled service was already cached; the operation then reports
/// the database's error.)
pub proof fn law_add_keeps_cache_publishing_table(
    st: StoreView,
    arg: ServiceRecord,
    host: Result<Option<Seq<char>>, UrlErrorView>,
    id: Seq<char>,
    now: Seq<char>,
)
    requires
        table_wf(st),
        cache_publishes_table(st),
        host is Ok ==> host->Ok_0 is Some,
    ensures
        ({
            let (f, e) = add_begin(arg, host, id, now);
            let (st2, f2, e2) = execute(st, f, e, 3);
            &&& e2 is Finish
            &&& e2->Finish_0 is Ok ==> table_wf(st2) && cache_publishes_table(st2)
        }),
{
    let (f, e) = add_begin(arg, host, id, now);
    if !(e is CacheGet) {
        assert(e is Finish);
        assert(e->Finish_0 is Err);
        assert(execute(st, f, e, 3) == (st, f, e));
    }
    if let EffectView::CacheGet(k) = e {
        let s = f->AddLookup_service;
        assert(k == redis_key(s));
        assert(k.len() > 0);
        assert(s.id == Some(id));
        if st.cache.contains_key(k) {
            let fin = EffectView::Finish(Err(crate::error::ServiceErrorView::DuplicateService));
            assert(answer(st, e) == (st, OutcomeView::Cached(some_description())));
            assert(flow_step(f, OutcomeView::Cached(some_description())) == (FlowView::Finished, fin));
            assert(execute(st, FlowView::Finished, fin, 2) == (st, FlowView::Finished, fin));
            assert(execute(st, f, e, 3) == (st, FlowView::Finished, fin));
        } else {
            assert(answer(st, e) == (st, OutcomeView::Cached(Seq::empty())));
            let taken = st.rows.contains_key(id);
            let fail = EffectView::Finish(Err(crate::error::ServiceErrorView::Storage("duplicate id"@)));
            let rows2 = st.rows.insert(id, s);
            if is_enabled(s) {
                let cache2 = st.cache.insert(k, s);
                let stc = StoreView { cache: cache2, ..st };
                let st3 = StoreView { rows: rows2, cache: cache2 };
                assert(flow_step(f, OutcomeView::Cached(Seq::empty()))
                    == (FlowView::AddCacheWrite { service: s }, EffectView::CachePut(k, s)));
                assert(answer(st, EffectView::CachePut(k, s)) == (stc, OutcomeView::Done));
                if taken {
                    assert(answer(stc, EffectView::StoreInsert(s)) == (stc, OutcomeView::Failed("duplicate id"@)));
                    assert(flow_step(FlowView::AddInsert, OutcomeView::Failed("duplicate id"@)) == (FlowView::Finished, fail));
                    assert(execute(stc, FlowView::Finished, fail, 0) == (stc, FlowView::Finished, fail));
                    assert(execute(stc, FlowView::AddInsert, EffectView::StoreInsert(s), 1) == (stc, FlowView::Finished, fail));
                    assert(execute(st, FlowView::AddCacheWrite { service: s }, EffectView::CachePut(k, s), 2)
                        == (stc, FlowView::Finished, fail));
                    assert(execute(st, f, e, 3) == (stc, FlowView::Finished, fail));
                } else {
                    let done = (st3, FlowView::Finished, EffectView::Finish(Ok(1u64)));
                    assert(answer(stc, EffectView::StoreInsert(s)) == (st3, OutcomeView::Rows(1)));
                    assert(execute(st3, FlowView::Finished, EffectView::Finish(Ok(1u64)), 0) == done);
                    assert(execute(stc, FlowView::AddInsert, EffectView::StoreInsert(s), 1) == done);
                    assert(execute(st, FlowView::AddCacheWrite { service: s }, EffectView::CachePut(k, s), 2) == done);
                    assert(execute(st, f, e, 3) == done);
                    assert forall|j: Seq<char>| #[trigger] st.rows.contains_key(j) && is_published(st.rows[j])
                        implies redis_key(st.rows[j]) != k by {
                    }
                    assert forall|i: Seq<char>, j: Seq<char>|
                        #![trigger rows2.contains_key(i), rows2.contains_key(j)]
                        rows2.contains_key(i) && rows2.contains_key(j) && is_published(rows2[i]) && is_published(rows2[j])
                            && redis_key(rows2[i]) == redis_key(rows2[j]) implies i == j by {
                        if i != id && j != id {
                            assert(st.rows.contains_key(i) && st.rows.contains_key(j));
                        } else if i == id && j != id {
                            assert(st.rows.contains_key(j));
                        } else if i != id && j == id {
                            assert(st.rows.contains_key(i));
                        }
                    }
                    assert forall|c: Seq<char>| #[trigger] cache2.contains_key(c) implies {
                        let r = cache2[c];
                        &&& is_published(r)
                        &&& redis_key(r) == c
                        &&& r.id is Some
                        &&& rows2.contains_key(r.id->0)
                        &&& rows2[r.id->0] == r
                    } by {
                        if c != k {
                            assert(st.cache.contains_key(c));
                            assert(st.cache[c].id->0 != id);
                        }
                    }
                    assert(table_wf(st3));
                    assert(cache_publishes_table(st3));
                }
            } else {
                let st3 = StoreView { rows: rows2, cache: st.cache };
                assert(flow_step(f, OutcomeView::Cached(Seq::empty())) == (FlowView::AddInsert, EffectView::StoreInsert(s)));
                if taken {
                    assert(answer(st, EffectView::StoreInsert(s)) == (st, OutcomeView::Failed("duplicate id"@)));
                    assert(flow_step(FlowView::AddInsert, OutcomeView::Failed("duplicate id"@)) == (FlowView::Finished, fail));
                    assert(execute(st, FlowView::Finished, fail, 1) == (st, FlowView::Finished, fail));
                    assert(execute(st, FlowView::AddInsert, EffectView::StoreInsert(s), 2) == (st, FlowView::Finished, fail));
                    assert(execute(st, f, e, 3) == (st, FlowView::Finished, fail));
                } else {
                    let done = (st3, FlowView::Finished, EffectView::Finish(Ok(1u64)));
                    assert(answer(st, EffectView::StoreInsert(s)) == (st3, OutcomeView::Rows(1)));
                    assert(execute(st3, FlowView::Finished, EffectView::Finish(Ok(1u64)), 1) == done);
                    assert(execute(st, FlowView::AddInsert, EffectView::StoreInsert(s), 2) == done);
                    assert(execute(st, f, e, 3) == done);
                    assert forall|i: Seq<char>, j: Seq<char>|
                        #![trigger rows2.contains_key(i), rows2.contains_key(j)]
                        rows2.contains_key(i) && rows2.contains_key(j) && is_published(rows2[i]) && is_published(rows2[j])
                            && redis_key(rows2[i]) == redis_key(rows2[j]) implies i == j by {
                        assert(st.rows.contains_key(i) && st.rows.contains_key(j));
                    }
                    assert forall|c: Seq<char>| #[trigger] st.cache.contains_key(c) implies {
                        let r = st.cache[c];
                        &&& rows2.contains_key(r.id->0)
                        &&& rows2[r.id->0] == r
                    } by {
                        assert(st.cache[c].id->0 != id);
                    }
                    assert(table_wf(st3));
                    assert(cache_publishes_table(st3));
                }
            }
        }
    }
}

proof fn lemma_delete_run(st: StoreView, ids: Seq<Seq<char>>)
    ensures
        ({
            let (f, e) = delete_begin(ids);
            let found = found_rows(st.rows, ids);
            let keys = found.map_values(|r: ServiceRecord| redis_key(r));
            execute(st, f, e, found.len() + 3) == (
                StoreView { rows: st.rows.remove_keys(ids.to_set()), cache: remove_all(st.cache, keys) },
                FlowView::Finished,
                EffectView::Finish(Ok(found.len() as u64)),
            )
        }),
{
    let (f, e) = delete_begin(ids);
    let found = found_rows(st.rows, ids);
    let keys = found.map_values(|r: ServiceRecord| redis_key(r));
    let fuel = found.len() + 3;
    assert(answer(st, e) == (st, OutcomeView::FoundMany(found)));
    assert(flow_step(f, OutcomeView::FoundMany(found)) == delete_from(ids, keys, 0));
    lemma_removal_run(st, ids, keys, 0, (fuel - 1) as nat);
    assert(keys.subrange(0, keys.len() as int) =~= keys);
}

proof fn lemma_found_rows_none(rows: Map<Seq<char>, ServiceRecord>, ids: Seq<Seq<char>>)
    requires
        forall|x: Seq<char>| #[trigger] ids.contains(x) ==> !rows.contains_key(x),
    ensures
        found_rows(rows, ids).len() == 0,
    decreases ids.len(),
{
    if ids.len() > 0 {
        let rest = ids.drop_last();
        assert forall|x: Seq<char>| #[trigger] rest.contains(x) implies !rows.contains_key(x) by {
            let i = choose|i: int| 0 <= i < rest.len() && rest[i] == x;
            assert(ids[i] == x);
            assert(ids.contains(x));
        }
        lemma_found_rows_none(rows, rest);
        assert(ids[ids.len() - 1] == ids.last());
        assert(ids.contains(ids.last()));
    }
}

/// Removing the same services a second time finds none of them, removes no
/// cache key, reports 0 rows and leaves the table and the cache unchanged.
pub proof fn law_delete_twice_changes_nothing(st: StoreView, ids: Seq<Seq<char>>)
    ensures
        ({
            let (f, e) = delete_begin(ids);
            let (st1, f1, e1) = execute(st, f, e, found_rows(st.rows, ids).len() + 3);
            &&& e1 is Finish
            &&& execute(st1, f, e, 3) == (st1, FlowView::Finished, EffectView::Finish(Ok(0u64)))
        }),
{
    let (f, e) = delete_begin(ids);
    lemma_delete_run(st, ids);
    let found = found_rows(st.rows, ids);
    let keys = found.map_values(|r: ServiceRecord| redis_key(r));
    let st1 = StoreView { rows: st.rows.remove_keys(ids.to_set()), cache: remove_all(st.cache, keys) };
    assert forall|x: Seq<char>| #[trigger] ids.contains(x) implies !st1.rows.contains_key(x) by {
        assert(ids.to_set().contains(x));
    }
    lemma_found_rows_none(st1.rows, ids);
    let none = found_rows(st1.rows, ids);
    assert(none =~= Seq::<ServiceRecord>::empty());
    let no_keys = none.map_values(|r: ServiceRecord| redis_key(r));
    assert(no_keys.len() == 0);
    assert(answer(st1, e) == (st1, OutcomeView::FoundMany(none)));
    assert(flow_step(f, OutcomeView::FoundMany(none)) == delete_from(ids, no_keys, 0));
    assert(delete_from(ids, no_keys, 0) == (FlowView::DeleteRows, EffectView::StoreDeleteMany(ids)));
    let rows2 = st1.rows.remove_keys(ids.to_set());
    assert(rows2 =~= st1.rows);
    let fin = EffectView::Finish(Ok(0u64));
    assert(answer(st1, EffectView::StoreDeleteMany(ids)) == (st1, OutcomeView::Rows(0)));
    assert(flow_step(FlowView::DeleteRows, OutcomeView::Rows(0)) == (FlowView::Finished, fin));
    assert(execute(st1, FlowView::Finished, fin, 1) == (st1, FlowView::Finished, fin));
    assert(execute(st1, FlowView::DeleteRows, EffectView::StoreDeleteMany(ids), 2) == (st1, FlowView::Finished, fin));
    assert(execute(st1, f, e, 3) == (st1, FlowView::Finished, fin));
}

} // verus!
