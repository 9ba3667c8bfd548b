//! Properties of the service-management operations that span several steps.

use vstd::prelude::*;
use crate::error::ServiceErrorView;
use crate::keys::redis_key;
use crate::model::ServiceRecord;
use crate::service::{
    add_begin, delete_from, finish, flow_accepts, flow_step, flow_wf, with_activity, EffectView, FlowView, OutcomeView,
};
use crate::urls::UrlErrorView;

verus! {

/// The requests made when the answers `os` are fed, one by one, to an
/// operation in state `f`; feeding stops at the first answer that is not taken.
pub open spec fn flow_run(f: FlowView, os: Seq<OutcomeView>) -> Seq<EffectView>
    decreases os.len(),
{
    if os.len() == 0 || !flow_accepts(f, os[0]) {
        Seq::empty()
    } else {
        let (g, e) = flow_step(f, os[0]);
        seq![e] + flow_run(g, os.drop_first())
    }
}

/// Every step keeps the state well formed.
pub proof fn law_flow_wf_preserved(f: FlowView, o: OutcomeView)
    requires
        flow_wf(f),
        flow_accepts(f, o),
    ensures
        flow_wf(flow_step(f, o).0),
{
}

/// A finished operation makes no further request.
pub proof fn law_finished_is_final(os: Seq<OutcomeView>)
    ensures
        flow_run(FlowView::Finished, os) == Seq::<EffectView>::empty(),
{
}

/// Registering, changing the activity of, or removing a service never writes a
/// service to the cache under a key other than its own. (A change writes the
/// reloaded row under the key of the request; see `law_update_rename_moves_entry`.)
pub proof fn law_cache_writes_use_own_key(f: FlowView, o: OutcomeView)
    requires
        flow_wf(f),
        flow_accepts(f, o),
        !(f is UpdateReload),
        flow_step(f, o).1 is CachePut,
    ensures
        ({
            let e = flow_step(f, o).1;
            e->CachePut_0 == redis_key(e->CachePut_1)
        }),
{
}

/// A new service whose key already holds a description is refused as a
/// duplicate, and nothing is written.
pub proof fn law_add_refuses_taken_key(
    service: ServiceRecord,
    key: Seq<char>,
    v: Seq<char>,
    rest: Seq<OutcomeView>,
)
    requires
        v.len() > 0,
    ensures
        flow_run(FlowView::AddLookup { service, key }, seq![OutcomeView::Cached(v)] + rest)
            == seq![EffectView::Finish(Err(ServiceErrorView::DuplicateService))],
{
    let os = seq![OutcomeView::Cached(v)] + rest;
    assert(os[0] == OutcomeView::Cached(v));
    assert(flow_run(FlowView::Finished, os.drop_first()) == Seq::<EffectView>::empty());
}

/// A new enabled service whose key is free is published in the cache under
/// its key and then inserted; the operation reports the inserted rows, whether
/// or not the cache write succeeded.
pub proof fn law_add_publishes_enabled_service(
    service: ServiceRecord,
    written: OutcomeView,
    n: u64,
)
    requires
        flow_wf(FlowView::AddLookup { service, key: redis_key(service) }),
        service.is_active == Some(1i32),
        written is Done || written is Failed,
    ensures
        flow_run(
            FlowView::AddLookup { service, key: redis_key(service) },
            seq![OutcomeView::Cached(Seq::empty()), written, OutcomeView::Rows(n)],
        ) == seq![
            EffectView::CachePut(redis_key(service), service),
            EffectView::StoreInsert(service),
            EffectView::Finish(Ok(n)),
        ],
{
    let os = seq![OutcomeView::Cached(Seq::empty()), written, OutcomeView::Rows(n)];
    let os1 = os.drop_first();
    let os2 = os1.drop_first();
    let os3 = os2.drop_first();
    assert(os1 =~= seq![written, OutcomeView::Rows(n)]);
    assert(os2 =~= seq![OutcomeView::Rows(n)]);
    assert(os3.len() == 0);
    assert(flow_run(FlowView::Finished, os3) == Seq::<EffectView>::empty());
    assert(flow_run(FlowView::AddInsert, os2) =~= seq![EffectView::Finish(Ok(n))]);
    assert(flow_run(FlowView::AddCacheWrite { service }, os1) =~= seq![
        EffectView::StoreInsert(service),
        EffectView::Finish(Ok(n)),
    ]);
    assert(flow_run(FlowView::AddLookup { service, key: redis_key(service) }, os) =~= seq![
        EffectView::CachePut(redis_key(service), service),
        EffectView::StoreInsert(service),
        EffectView::Finish(Ok(n)),
    ]);
}

/// A new service that is not enabled is inserted without touching the cache.
pub proof fn law_add_keeps_disabled_service_out_of_cache(service: ServiceRecord, key: Seq<char>, n: u64)
    requires
        service.is_active != Some(1i32),
    ensures
        flow_run(
            FlowView::AddLookup { service, key },
            seq![OutcomeView::Cached(Seq::empty()), OutcomeView::Rows(n)],
        ) == seq![EffectView::StoreInsert(service), EffectView::Finish(Ok(n))],
{
    let os = seq![OutcomeView::Cached(Seq::empty()), OutcomeView::Rows(n)];
    let os1 = os.drop_first();
    let os2 = os1.drop_first();
    assert(os1 =~= seq![OutcomeView::Rows(n)]);
    assert(os2.len() == 0);
    assert(flow_run(FlowView::Finished, os2) == Seq::<EffectView>::empty());
    assert(flow_run(FlowView::AddInsert, os1) =~= seq![EffectView::Finish(Ok(n))]);
    assert(flow_run(FlowView::AddLookup { service, key }, os) =~= seq![
        EffectView::StoreInsert(service),
        EffectView::Finish(Ok(n)),
    ]);
}

/// A change that keeps the service's key is refused when the cached service
/// under that key has another id, and is written to the database when it has
/// the same id.
pub proof fn law_update_same_key_checks_owner(arg: ServiceRecord, key: Seq<char>, cached: ServiceRecord)
    requires
        flow_wf(FlowView::UpdateCached { arg, old_key: key, new_key: key }),
        cached.id is Some,
    ensures
        cached.id != arg.id ==> flow_step(
            FlowView::UpdateCached { arg, old_key: key, new_key: key },
            OutcomeView::CachedService(cached),
        ).1 == EffectView::Finish(Err(ServiceErrorView::DuplicateService)),
        cached.id == arg.id ==> flow_step(
            FlowView::UpdateCached { arg, old_key: key, new_key: key },
            OutcomeView::CachedService(cached),
        ).1 == EffectView::StoreUpdate(arg),
{
}

/// A change that gives the service a new key refuses a key that already
/// holds a description.
pub proof fn law_update_refuses_taken_key(arg: ServiceRecord, old_key: Seq<char>, new_key: Seq<char>, v: Seq<char>)
    requires
        v.len() > 0,
    ensures
        flow_step(FlowView::UpdateNewKeyLookup { arg, old_key, new_key }, OutcomeView::Cached(v)).1
            == EffectView::Finish(Err(ServiceErrorView::DuplicateService)),
{
}

/// A change to a free new key updates the row, reloads it, publishes it under
/// the new key, removes the old key, and reports the updated rows.
pub proof fn law_update_rename_moves_entry(
    arg: ServiceRecord,
    old_key: Seq<char>,
    cached: ServiceRecord,
    n: u64,
    stored: ServiceRecord,
    w1: OutcomeView,
    w2: OutcomeView,
)
    requires
        flow_wf(FlowView::UpdateCached { arg, old_key, new_key: redis_key(arg) }),
        old_key != redis_key(arg),
        w1 is Done || w1 is Failed,
        w2 is Done || w2 is Failed,
    ensures
        flow_run(
            FlowView::UpdateCached { arg, old_key, new_key: redis_key(arg) },
            seq![
                OutcomeView::CachedService(cached),
                OutcomeView::Cached(Seq::empty()),
                OutcomeView::Rows(n),
                OutcomeView::Found(Some(stored)),
                w1,
                w2,
            ],
        ) == seq![
            EffectView::CacheGet(redis_key(arg)),
            EffectView::StoreUpdate(arg),
            EffectView::StoreFind(arg.id->0),
            EffectView::CachePut(redis_key(arg), stored),
            EffectView::CacheDelete(old_key),
            EffectView::Finish(Ok(n)),
        ],
{
    let new_key = redis_key(arg);
    let os = seq![
        OutcomeView::CachedService(cached),
        OutcomeView::Cached(Seq::empty()),
        OutcomeView::Rows(n),
        OutcomeView::Found(Some(stored)),
        w1,
        w2,
    ];
    let os1 = os.drop_first();
    let os2 = os1.drop_first();
    let os3 = os2.drop_first();
    let os4 = os3.drop_first();
    let os5 = os4.drop_first();
    let os6 = os5.drop_first();
    assert(os1 =~= seq![OutcomeView::Cached(Seq::empty()), OutcomeView::Rows(n), OutcomeView::Found(Some(stored)), w1, w2]);
    assert(os2 =~= seq![OutcomeView::Rows(n), OutcomeView::Found(Some(stored)), w1, w2]);
    assert(os3 =~= seq![OutcomeView::Found(Some(stored)), w1, w2]);
    assert(os4 =~= seq![w1, w2]);
    assert(os5 =~= seq![w2]);
    assert(os6.len() == 0);
    let id = arg.id->0;
    assert(flow_run(FlowView::Finished, os6) == Seq::<EffectView>::empty());
    assert(flow_run(FlowView::UpdateStaleDelete { rows: n }, os5) =~= seq![EffectView::Finish(Ok(n))]);
    assert(flow_run(FlowView::UpdateCacheWrite { stale_key: Some(old_key), rows: n }, os4) =~= seq![
        EffectView::CacheDelete(old_key),
        EffectView::Finish(Ok(n)),
    ]);
    assert(flow_run(FlowView::UpdateReload { new_key, stale_key: Some(old_key), rows: n }, os3) =~= seq![
        EffectView::CachePut(new_key, stored),
        EffectView::CacheDelete(old_key),
        EffectView::Finish(Ok(n)),
    ]);
    assert(flow_run(FlowView::UpdateWrite { id, new_key, stale_key: Some(old_key) }, os2) =~= seq![
        EffectView::StoreFind(id),
        EffectView::CachePut(new_key, stored),
        EffectView::CacheDelete(old_key),
        EffectView::Finish(Ok(n)),
    ]);
    assert(flow_run(FlowView::UpdateNewKeyLookup { arg, old_key, new_key }, os1) =~= seq![
        EffectView::StoreUpdate(arg),
        EffectView::StoreFind(id),
        EffectView::CachePut(new_key, stored),
        EffectView::CacheDelete(old_key),
        EffectView::Finish(Ok(n)),
    ]);
}

/// `m` successful cache answers followed by the database's row count.
pub open spec fn removals_then_rows(m: nat, r: u64) -> Seq<OutcomeView> {
    Seq::new(m, |i: int| OutcomeView::Done) + seq![OutcomeView::Rows(r)]
}

/// The requests of a removal from key `k` on: the keys' removals, in order,
/// then the deletion of the rows, then the end.
pub open spec fn removal_requests(ids: Seq<Seq<char>>, keys: Seq<Seq<char>>, k: nat, r: u64) -> Seq<EffectView> {
    Seq::new((keys.len() - k) as nat, |i: int| EffectView::CacheDelete(keys[k + i]))
        + seq![EffectView::StoreDeleteMany(ids), EffectView::Finish(Ok(r))]
}

proof fn lemma_removal_from(ids: Seq<Seq<char>>, keys: Seq<Seq<char>>, k: nat, r: u64)
    requires
        k <= keys.len(),
    ensures
        seq![delete_from(ids, keys, k).1] + flow_run(
            delete_from(ids, keys, k).0,
            removals_then_rows((keys.len() - k) as nat, r),
        ) == removal_requests(ids, keys, k, r),
    decreases keys.len() - k,
{
    let os = removals_then_rows((keys.len() - k) as nat, r);
    if k < keys.len() {
        let next = FlowView::DeleteKeys { ids, keys, next: k + 1 };
        assert(os[0] == OutcomeView::Done);
        assert(os.drop_first() =~= removals_then_rows((keys.len() - (k + 1)) as nat, r));
        lemma_removal_from(ids, keys, k + 1, r);
        assert(flow_run(next, os) == seq![delete_from(ids, keys, k + 1).1] + flow_run(
            delete_from(ids, keys, k + 1).0,
            removals_then_rows((keys.len() - (k + 1)) as nat, r),
        ));
        assert(seq![EffectView::CacheDelete(keys[k as int])] + removal_requests(ids, keys, k + 1, r)
            =~= removal_requests(ids, keys, k, r));
    } else {
        assert(os =~= seq![OutcomeView::Rows(r)]);
        assert(os.drop_first().len() == 0);
        assert(flow_run(FlowView::Finished, os.drop_first()) == Seq::<EffectView>::empty());
        assert(flow_run(FlowView::DeleteRows, os) =~= seq![EffectView::Finish(Ok(r))]);
        assert(removal_requests(ids, keys, k, r) =~= seq![EffectView::StoreDeleteMany(ids), EffectView::Finish(Ok(r))]);
    }
}

/// Removing services deletes the cache key of every service found, in the
/// order found, before deleting their rows, and reports the deleted rows.
pub proof fn law_delete_removes_keys_before_rows(ids: Seq<Seq<char>>, found: Seq<ServiceRecord>, r: u64)
    ensures
        flow_run(
            FlowView::DeleteFind { ids },
            seq![OutcomeView::FoundMany(found)] + removals_then_rows(found.len(), r),
        ) == removal_requests(ids, found.map_values(|s: ServiceRecord| redis_key(s)), 0, r),
{
    let keys = found.map_values(|s: ServiceRecord| redis_key(s));
    let os = seq![OutcomeView::FoundMany(found)] + removals_then_rows(found.len(), r);
    assert(os[0] == OutcomeView::FoundMany(found));
    assert(os.drop_first() =~= removals_then_rows(found.len(), r));
    assert(keys.len() == found.len());
    lemma_removal_from(ids, keys, 0, r);
}

/// Disabling a service removes its cache entry, then stores the new flag and
/// change time.
pub proof fn law_disable_removes_entry(is_active: Option<i32>, now: Seq<char>, stored: ServiceRecord, n: u64)
    requires
        is_active != Some(1i32),
    ensures
        flow_run(
            FlowView::ActiveFind { is_active, now },
            seq![OutcomeView::Found(Some(stored)), OutcomeView::Done, OutcomeView::Rows(n)],
        ) == seq![
            EffectView::CacheDelete(redis_key(stored)),
            EffectView::StoreUpdate(with_activity(stored, is_active, now)),
            EffectView::Finish(Ok(n)),
        ],
{
    let changed = with_activity(stored, is_active, now);
    let os = seq![OutcomeView::Found(Some(stored)), OutcomeView::Done, OutcomeView::Rows(n)];
    let os1 = os.drop_first();
    let os2 = os1.drop_first();
    assert(os1 =~= seq![OutcomeView::Done, OutcomeView::Rows(n)]);
    assert(os2 =~= seq![OutcomeView::Rows(n)]);
    assert(os2.drop_first().len() == 0);
    assert(flow_run(FlowView::Finished, os2.drop_first()) == Seq::<EffectView>::empty());
    assert(flow_run(FlowView::ActiveUpdate, os2) =~= seq![EffectView::Finish(Ok(n))]);
    assert(flow_run(FlowView::ActiveCacheDelete { service: changed }, os1) =~= seq![
        EffectView::StoreUpdate(changed),
        EffectView::Finish(Ok(n)),
    ]);
    assert(flow_run(FlowView::ActiveFind { is_active, now }, os) =~= seq![
        EffectView::CacheDelete(redis_key(stored)),
        EffectView::StoreUpdate(changed),
        EffectView::Finish(Ok(n)),
    ]);
}

/// Enabling a service publishes it, with the new flag and change time, under
/// its key before storing it; a failed cache write ends the operation with the
/// cache's error and leaves the row unchanged.
pub proof fn law_enable_publishes_entry(now: Seq<char>, stored: ServiceRecord, n: u64, m: Seq<char>)
    ensures
        flow_run(
            FlowView::ActiveFind { is_active: Some(1i32), now },
            seq![OutcomeView::Found(Some(stored)), OutcomeView::Done, OutcomeView::Rows(n)],
        ) == seq![
            EffectView::CachePut(redis_key(stored), with_activity(stored, Some(1i32), now)),
            EffectView::StoreUpdate(with_activity(stored, Some(1i32), now)),
            EffectView::Finish(Ok(n)),
        ],
        flow_run(
            FlowView::ActiveFind { is_active: Some(1i32), now },
            seq![OutcomeView::Found(Some(stored)), OutcomeView::Failed(m)],
        ) == seq![
            EffectView::CachePut(redis_key(stored), with_activity(stored, Some(1i32), now)),
            EffectView::Finish(Err(ServiceErrorView::Storage(m))),
        ],
        redis_key(with_activity(stored, Some(1i32), now)) == redis_key(stored),
{
    let changed = with_activity(stored, Some(1i32), now);
    let f = FlowView::ActiveFind { is_active: Some(1i32), now };
    let os = seq![OutcomeView::Found(Some(stored)), OutcomeView::Done, OutcomeView::Rows(n)];
    let os1 = os.drop_first();
    let os2 = os1.drop_first();
    assert(os1 =~= seq![OutcomeView::Done, OutcomeView::Rows(n)]);
    assert(os2 =~= seq![OutcomeView::Rows(n)]);
    assert(os2.drop_first().len() == 0);
    assert(flow_run(FlowView::Finished, os2.drop_first()) == Seq::<EffectView>::empty());
    assert(flow_run(FlowView::ActiveUpdate, os2) =~= seq![EffectView::Finish(Ok(n))]);
    assert(flow_run(FlowView::ActiveCacheWrite { service: changed }, os1) =~= seq![
        EffectView::StoreUpdate(changed),
        EffectView::Finish(Ok(n)),
    ]);
    assert(flow_run(f, os) =~= seq![
        EffectView::CachePut(redis_key(stored), changed),
        EffectView::StoreUpdate(changed),
        EffectView::Finish(Ok(n)),
    ]);
    let fs = seq![OutcomeView::Found(Some(stored)), OutcomeView::Failed(m)];
    let fs1 = fs.drop_first();
    assert(fs1 =~= seq![OutcomeView::Failed(m)]);
    assert(fs1.drop_first().len() == 0);
    assert(flow_run(FlowView::Finished, fs1.drop_first()) == Seq::<EffectView>::empty());
    assert(flow_run(FlowView::ActiveCacheWrite { service: changed }, fs1) =~= seq![
        EffectView::Finish(Err(ServiceErrorView::Storage(m))),
    ]);
    assert(flow_run(f, fs) =~= seq![
        EffectView::CachePut(redis_key(stored), changed),
        EffectView::Finish(Err(ServiceErrorView::Storage(m))),
    ]);
}

/// Registering keeps the request's description: the service that is looked
/// up, then published and inserted, is the request's record with only its
/// address replaced by the host read from it, the new id, both time stamps set
/// to the current time, and the activity flag defaulted to enabled (1) when
/// none is given. Its name, path, description, protocol and port are the
/// request's own. An unreadable address is refused, and so is a service whose
/// key is empty.
pub proof fn law_add_registers_request(
    arg: ServiceRecord,
    host: Option<Seq<char>>,
    id: Seq<char>,
    now: Seq<char>,
    bad: UrlErrorView,
)
    ensures
        add_begin(arg, Err(bad), id, now) == finish(Err(ServiceErrorView::InvalidUrl)),
        redis_key(arg).len() == 0 ==> add_begin(arg, Ok(host), id, now) == finish(Err(ServiceErrorView::EmptyKey)),
        redis_key(arg).len() > 0 ==> ({
            let (f, e) = add_begin(arg, Ok(host), id, now);
            &&& f is AddLookup
            &&& f->AddLookup_key == redis_key(arg)
            &&& e == EffectView::CacheGet(redis_key(arg))
            &&& f->AddLookup_service.id == Some(id)
            &&& f->AddLookup_service.url == host
            &&& f->AddLookup_service.created_at == Some(now)
            &&& f->AddLookup_service.updated_at == Some(now)
            &&& f->AddLookup_service.is_active == (if arg.is_active is Some { arg.is_active } else { Some(1i32) })
            &&& f->AddLookup_service.server_name == arg.server_name
            &&& f->AddLookup_service.path == arg.path
            &&& f->AddLookup_service.description == arg.description
            &&& f->AddLookup_service.protocol == arg.protocol
            &&& f->AddLookup_service.port == arg.port
        }),
{
}

/// Enabling or disabling a service changes nothing but its flag and change
/// time: the record written to the table (and, when enabling, to the cache
/// under the service's key) is the stored record with `is_active` set to the
/// requested flag and `updated_at` to the current time; its id, name, address,
/// description, protocol, port, path and creation time stay the stored ones.
pub proof fn law_activity_change_keeps_record(is_active: Option<i32>, now: Seq<char>, stored: ServiceRecord)
    ensures
        ({
            let (f, e) = flow_step(FlowView::ActiveFind { is_active, now }, OutcomeView::Found(Some(stored)));
            let w = match f {
                FlowView::ActiveCacheDelete { service } => service,
                FlowView::ActiveCacheWrite { service } => service,
                _ => stored,
            };
            &&& is_active == Some(1i32) ==> f is ActiveCacheWrite && e == EffectView::CachePut(redis_key(stored), w)
            &&& is_active != Some(1i32) ==> f is ActiveCacheDelete && e == EffectView::CacheDelete(redis_key(stored))
            &&& flow_step(f, OutcomeView::Done).1 == EffectView::StoreUpdate(w)
            &&& w.is_active == is_active
            &&& w.updated_at == Some(now)
            &&& w.created_at == stored.created_at
            &&& w.id == stored.id
            &&& w.server_name == stored.server_name
            &&& w.url == stored.url
            &&& w.description == stored.description
            &&& w.protocol == stored.protocol
            &&& w.port == stored.port
            &&& w.path == stored.path
        }),
{
}

} // verus!
