//! The service-management operations (register, change, remove, enable or
//! disable a service) as step functions: each step takes the answer of the
//! database or the cache to the previous request and says what to ask next,
//! until the operation finishes with a row count or an error.

use vstd::prelude::*;
use vstd::string::*;
use crate::error::{ServiceError, ServiceErrorView};
use crate::keys::{redis_key, redis_key_of};
use crate::model::{opt_view, SelectServiceByPageReqVO, ServiceRecord, SysServices, UpdateIsActive};
use crate::text::{signed_decimal, signed_decimal_string};
use crate::urls::{host_view, normalize_service_url, parse_host, strings_view, url_host_of, with_default_scheme, UrlError, UrlErrorView};

verus! {

/// A request to the database or the cache, or the end of the operation.
#[derive(Debug, PartialEq, Eq)]
pub enum Effect {
    /// Read the text stored in the cache under the key.
    CacheGet(String),
    /// Read the service description stored in the cache under the key.
    CacheGetService(String),
    /// Store the service description in the cache under the key.
    CachePut(String, SysServices),
    /// Remove the key from the cache.
    CacheDelete(String),
    /// Insert the service into the database.
    StoreInsert(SysServices),
    /// Read the service with this id from the database.
    StoreFind(String),
    /// Update the database row with the service's id.
    StoreUpdate(SysServices),
    /// Read the services with these ids from the database.
    StoreFindMany(Vec<String>),
    /// Delete the services with these ids from the database.
    StoreDeleteMany(Vec<String>),
    /// The operation is over: the number of rows affected, or the error.
    Finish(Result<u64, ServiceError>),
}

/// Model of an [`Effect`].
pub enum EffectView {
    CacheGet(Seq<char>),
    CacheGetService(Seq<char>),
    CachePut(Seq<char>, ServiceRecord),
    CacheDelete(Seq<char>),
    StoreInsert(ServiceRecord),
    StoreFind(Seq<char>),
    StoreUpdate(ServiceRecord),
    StoreFindMany(Seq<Seq<char>>),
    StoreDeleteMany(Seq<Seq<char>>),
    Finish(Result<u64, ServiceErrorView>),
}

/// Model of a list of services.
pub open spec fn services_view(v: Seq<SysServices>) -> Seq<ServiceRecord> {
    v.map_values(|s: SysServices| s@)
}

/// Model of the result of an operation.
pub open spec fn result_view(r: Result<u64, ServiceError>) -> Result<u64, ServiceErrorView> {
    match r {
        Ok(n) => Ok(n),
        Err(e) => Err(e@),
    }
}

impl View for Effect {
    type V = EffectView;

    open spec fn view(&self) -> EffectView {
        match self {
            Effect::CacheGet(k) => EffectView::CacheGet(k@),
            Effect::CacheGetService(k) => EffectView::CacheGetService(k@),
            Effect::CachePut(k, s) => EffectView::CachePut(k@, s@),
            Effect::CacheDelete(k) => EffectView::CacheDelete(k@),
            Effect::StoreInsert(s) => EffectView::StoreInsert(s@),
            Effect::StoreFind(id) => EffectView::StoreFind(id@),
            Effect::StoreUpdate(s) => EffectView::StoreUpdate(s@),
            Effect::StoreFindMany(ids) => EffectView::StoreFindMany(strings_view(ids@)),
            Effect::StoreDeleteMany(ids) => EffectView::StoreDeleteMany(strings_view(ids@)),
            Effect::Finish(r) => EffectView::Finish(result_view(*r)),
        }
    }
}

/// The answer to an [`Effect`].
#[derive(Debug, PartialEq, Eq)]
pub enum Outcome {
    /// The text stored under the key (empty when the key is absent).
    Cached(String),
    /// The service description stored under the key.
    CachedService(SysServices),
    /// The cache write or removal succeeded.
    Done,
    /// The service read from the database, if any.
    Found(Option<SysServices>),
    /// The services read from the database.
    FoundMany(Vec<SysServices>),
    /// The number of rows affected.
    Rows(u64),
    /// The database or the cache failed, with this message.
    Failed(String),
}

/// Model of an [`Outcome`].
pub enum OutcomeView {
    Cached(Seq<char>),
    CachedService(ServiceRecord),
    Done,
    Found(Option<ServiceRecord>),
    FoundMany(Seq<ServiceRecord>),
    Rows(u64),
    Failed(Seq<char>),
}

/// Model of an optional service.
pub open spec fn opt_service_view(o: Option<SysServices>) -> Option<ServiceRecord> {
    match o {
        Some(s) => Some(s@),
        None => None,
    }
}

impl View for Outcome {
    type V = OutcomeView;

    open spec fn view(&self) -> OutcomeView {
        match self {
            Outcome::Cached(v) => OutcomeView::Cached(v@),
            Outcome::CachedService(s) => OutcomeView::CachedService(s@),
            Outcome::Done => OutcomeView::Done,
            Outcome::Found(o) => OutcomeView::Found(opt_service_view(*o)),
            Outcome::FoundMany(v) => OutcomeView::FoundMany(services_view(v@)),
            Outcome::Rows(n) => OutcomeView::Rows(*n),
            Outcome::Failed(m) => OutcomeView::Failed(m@),
        }
    }
}

/// Where an operation stands: which answer it awaits, and what it keeps.
#[derive(Debug, PartialEq, Eq)]
pub enum ServiceFlow {
    /// Registering `service`: awaits the cache's text under `key`.
    AddLookup { service: SysServices, key: String },
    /// Registering `service`: awaits the cache write.
    AddCacheWrite { service: SysServices },
    /// Registering: awaits the insertion.
    AddInsert,
    /// Changing a service to `arg`: awaits its stored row.
    UpdateFind { arg: SysServices },
    /// Changing: awaits the cached description under the service's old key.
    UpdateCached { arg: SysServices, old_key: String, new_key: String },
    /// Changing: awaits the cache's text under the new key.
    UpdateNewKeyLookup { arg: SysServices, old_key: String, new_key: String },
    /// Changing the row with `id`: awaits the update.
    UpdateWrite { id: String, new_key: String, stale_key: Option<String> },
    /// Changing: awaits the updated row.
    UpdateReload { new_key: String, stale_key: Option<String>, rows: u64 },
    /// Changing: awaits the cache write.
    UpdateCacheWrite { stale_key: Option<String>, rows: u64 },
    /// Changing: awaits the removal of the old key.
    UpdateStaleDelete { rows: u64 },
    /// Removing the services with `ids`: awaits their rows.
    DeleteFind { ids: Vec<String> },
    /// Removing: awaits the removal of `keys[next - 1]` from the cache.
    DeleteKeys { ids: Vec<String>, keys: Vec<String>, next: usize },
    /// Removing: awaits the deletion of the rows.
    DeleteRows,
    /// Setting the activity flag to `is_active` at time `now`: awaits the row.
    ActiveFind { is_active: Option<i32>, now: String },
    /// Disabling: awaits the removal of the cache entry.
    ActiveCacheDelete { service: SysServices },
    /// Enabling: awaits the cache write.
    ActiveCacheWrite { service: SysServices },
    /// Setting the activity flag: awaits the update.
    ActiveUpdate,
    /// The operation is over.
    Finished,
}

/// Model of a [`ServiceFlow`].
pub enum FlowView {
    AddLookup { service: ServiceRecord, key: Seq<char> },
    AddCacheWrite { service: ServiceRecord },
    AddInsert,
    UpdateFind { arg: ServiceRecord },
    UpdateCached { arg: ServiceRecord, old_key: Seq<char>, new_key: Seq<char> },
    UpdateNewKeyLookup { arg: ServiceRecord, old_key: Seq<char>, new_key: Seq<char> },
    UpdateWrite { id: Seq<char>, new_key: Seq<char>, stale_key: Option<Seq<char>> },
    UpdateReload { new_key: Seq<char>, stale_key: Option<Seq<char>>, rows: u64 },
    UpdateCacheWrite { stale_key: Option<Seq<char>>, rows: u64 },
    UpdateStaleDelete { rows: u64 },
    DeleteFind { ids: Seq<Seq<char>> },
    DeleteKeys { ids: Seq<Seq<char>>, keys: Seq<Seq<char>>, next: nat },
    DeleteRows,
    ActiveFind { is_active: Option<i32>, now: Seq<char> },
    ActiveCacheDelete { service: ServiceRecord },
    ActiveCacheWrite { service: ServiceRecord },
    ActiveUpdate,
    Finished,
}

impl View for ServiceFlow {
    type V = FlowView;

    open spec fn view(&self) -> FlowView {
        match self {
            ServiceFlow::AddLookup { service, key } => FlowView::AddLookup { service: service@, key: key@ },
            ServiceFlow::AddCacheWrite { service } => FlowView::AddCacheWrite { service: service@ },
            ServiceFlow::AddInsert => FlowView::AddInsert,
            ServiceFlow::UpdateFind { arg } => FlowView::UpdateFind { arg: arg@ },
            ServiceFlow::UpdateCached { arg, old_key, new_key } =>
                FlowView::UpdateCached { arg: arg@, old_key: old_key@, new_key: new_key@ },
            ServiceFlow::UpdateNewKeyLookup { arg, old_key, new_key } =>
                FlowView::UpdateNewKeyLookup { arg: arg@, old_key: old_key@, new_key: new_key@ },
            ServiceFlow::UpdateWrite { id, new_key, stale_key } =>
                FlowView::UpdateWrite { id: id@, new_key: new_key@, stale_key: opt_view(*stale_key) },
            ServiceFlow::UpdateReload { new_key, stale_key, rows } =>
                FlowView::UpdateReload { new_key: new_key@, stale_key: opt_view(*stale_key), rows: *rows },
            ServiceFlow::UpdateCacheWrite { stale_key, rows } =>
                FlowView::UpdateCacheWrite { stale_key: opt_view(*stale_key), rows: *rows },
            ServiceFlow::UpdateStaleDelete { rows } => FlowView::UpdateStaleDelete { rows: *rows },
            ServiceFlow::DeleteFind { ids } => FlowView::DeleteFind { ids: strings_view(ids@) },
            ServiceFlow::DeleteKeys { ids, keys, next } =>
                FlowView::DeleteKeys { ids: strings_view(ids@), keys: strings_view(keys@), next: *next as nat },
            ServiceFlow::DeleteRows => FlowView::DeleteRows,
            ServiceFlow::ActiveFind { is_active, now } => FlowView::ActiveFind { is_active: *is_active, now: now@ },
            ServiceFlow::ActiveCacheDelete { service } => FlowView::ActiveCacheDelete { service: service@ },
            ServiceFlow::ActiveCacheWrite { service } => FlowView::ActiveCacheWrite { service: service@ },
            ServiceFlow::ActiveUpdate => FlowView::ActiveUpdate,
            ServiceFlow::Finished => FlowView::Finished,
        }
    }
}

/// The end of an operation with result `r`.
pub open spec fn finish(r: Result<u64, ServiceErrorView>) -> (FlowView, EffectView) {
    (FlowView::Finished, EffectView::Finish(r))
}

/// Whether a state takes an answer. The others are the answers on which the
/// operation cannot go on: a failed cache read, a missing row, a cached
/// description without id where ids are compared, a failed cache removal
/// while services are removed or disabled, and any answer once finished.
pub open spec fn flow_accepts(f: FlowView, o: OutcomeView) -> bool {
    match f {
        FlowView::AddLookup { .. } => o is Cached,
        FlowView::AddCacheWrite { .. } => o is Done || o is Failed,
        FlowView::AddInsert => o is Rows || o is Failed,
        FlowView::UpdateFind { .. } => (o matches OutcomeView::Found(Some(_))) || o is Failed,
        FlowView::UpdateCached { old_key, new_key, .. } =>
            o matches OutcomeView::CachedService(c) && (old_key == new_key ==> c.id is Some),
        FlowView::UpdateNewKeyLookup { .. } => o is Cached,
        FlowView::UpdateWrite { .. } => o is Rows || o is Failed,
        FlowView::UpdateReload { .. } => (o matches OutcomeView::Found(Some(_))) || o is Failed,
        FlowView::UpdateCacheWrite { .. } => o is Done || o is Failed,
        FlowView::UpdateStaleDelete { .. } => o is Done || o is Failed,
        FlowView::DeleteFind { .. } => o is FoundMany || o is Failed,
        FlowView::DeleteKeys { .. } => o is Done,
        FlowView::DeleteRows => o is Rows || o is Failed,
        FlowView::ActiveFind { .. } => (o matches OutcomeView::Found(Some(_))) || o is Failed,
        FlowView::ActiveCacheDelete { .. } => o is Done,
        FlowView::ActiveCacheWrite { .. } => o is Done || o is Failed,
        FlowView::ActiveUpdate => o is Rows || o is Failed,
        FlowView::Finished => false,
    }
}

/// The step taken on a database answer that ends the operation: the row
/// count, or the database's error.
pub open spec fn finish_with_rows(o: OutcomeView) -> (FlowView, EffectView) {
    match o {
        OutcomeView::Rows(n) => finish(Ok(n)),
        OutcomeView::Failed(m) => finish(Err(ServiceErrorView::Storage(m))),
        _ => finish(Err(ServiceErrorView::Storage(Seq::empty()))),
    }
}

/// Removal of the found services' cache keys, from `keys[next]` on, then of
/// their rows.
pub open spec fn delete_from(ids: Seq<Seq<char>>, keys: Seq<Seq<char>>, next: nat) -> (FlowView, EffectView) {
    if next < keys.len() {
        (FlowView::DeleteKeys { ids, keys, next: next + 1 }, EffectView::CacheDelete(keys[next as int]))
    } else {
        (FlowView::DeleteRows, EffectView::StoreDeleteMany(ids))
    }
}

/// `s` with a new activity flag and change time.
pub open spec fn with_activity(s: ServiceRecord, is_active: Option<i32>, now: Seq<char>) -> ServiceRecord {
    ServiceRecord { is_active, updated_at: Some(now), ..s }
}

/// The next state and request once the awaited answer `o` has come
/// (meaningful where [`flow_accepts`] holds).
pub open spec fn flow_step(f: FlowView, o: OutcomeView) -> (FlowView, EffectView) {
    match f {
        FlowView::AddLookup { service, key } => match o {
            OutcomeView::Cached(v) => if v.len() == 0 {
                if service.is_active == Some(1i32) {
                    (FlowView::AddCacheWrite { service }, EffectView::CachePut(key, service))
                } else {
                    (FlowView::AddInsert, EffectView::StoreInsert(service))
                }
            } else {
                finish(Err(ServiceErrorView::DuplicateService))
            },
            _ => finish_with_rows(o),
        },
        FlowView::AddCacheWrite { service } => (FlowView::AddInsert, EffectView::StoreInsert(service)),
        FlowView::AddInsert => finish_with_rows(o),
        FlowView::UpdateFind { arg } => match o {
            OutcomeView::Found(Some(stored)) => {
                let old_key = redis_key(stored);
                let new_key = redis_key(arg);
                (FlowView::UpdateCached { arg, old_key, new_key }, EffectView::CacheGetService(old_key))
            },
            _ => finish_with_rows(o),
        },
        FlowView::UpdateCached { arg, old_key, new_key } => match o {
            OutcomeView::CachedService(cached) => if old_key == new_key {
                if cached.id == arg.id {
                    (FlowView::UpdateWrite { id: arg.id->0, new_key, stale_key: None }, EffectView::StoreUpdate(arg))
                } else {
                    finish(Err(ServiceErrorView::DuplicateService))
                }
            } else {
                (FlowView::UpdateNewKeyLookup { arg, old_key, new_key }, EffectView::CacheGet(new_key))
            },
            _ => finish_with_rows(o),
        },
        FlowView::UpdateNewKeyLookup { arg, old_key, new_key } => match o {
            OutcomeView::Cached(v) => if v.len() == 0 {
                (
                    FlowView::UpdateWrite { id: arg.id->0, new_key, stale_key: Some(old_key) },
                    EffectView::StoreUpdate(arg),
                )
            } else {
                finish(Err(ServiceErrorView::DuplicateService))
            },
            _ => finish_with_rows(o),
        },
        FlowView::UpdateWrite { id, new_key, stale_key } => match o {
            OutcomeView::Rows(n) => (FlowView::UpdateReload { new_key, stale_key, rows: n }, EffectView::StoreFind(id)),
            _ => finish_with_rows(o),
        },
        FlowView::UpdateReload { new_key, stale_key, rows } => match o {
            OutcomeView::Found(Some(stored)) =>
                (FlowView::UpdateCacheWrite { stale_key, rows }, EffectView::CachePut(new_key, stored)),
            _ => finish_with_rows(o),
        },
        FlowView::UpdateCacheWrite { stale_key, rows } => match stale_key {
            Some(k) => (FlowView::UpdateStaleDelete { rows }, EffectView::CacheDelete(k)),
            None => finish(Ok(rows)),
        },
        FlowView::UpdateStaleDelete { rows } => finish(Ok(rows)),
        FlowView::DeleteFind { ids } => match o {
            OutcomeView::FoundMany(found) => delete_from(ids, found.map_values(|s: ServiceRecord| redis_key(s)), 0),
            _ => finish_with_rows(o),
        },
        FlowView::DeleteKeys { ids, keys, next } => delete_from(ids, keys, next),
        FlowView::DeleteRows => finish_with_rows(o),
        FlowView::ActiveFind { is_active, now } => match o {
            OutcomeView::Found(Some(stored)) => {
                let key = redis_key(stored);
                let changed = with_activity(stored, is_active, now);
                if is_active != Some(1i32) {
                    (FlowView::ActiveCacheDelete { service: changed }, EffectView::CacheDelete(key))
                } else {
                    (FlowView::ActiveCacheWrite { service: changed }, EffectView::CachePut(key, changed))
                }
            },
            _ => finish_with_rows(o),
        },
        FlowView::ActiveCacheDelete { service } => (FlowView::ActiveUpdate, EffectView::StoreUpdate(service)),
        FlowView::ActiveCacheWrite { service } => match o {
            OutcomeView::Failed(m) => finish(Err(ServiceErrorView::Storage(m))),
            _ => (FlowView::ActiveUpdate, EffectView::StoreUpdate(service)),
        },
        FlowView::ActiveUpdate => finish_with_rows(o),
        FlowView::Finished => finish_with_rows(o),
    }
}

/// What every state of an operation keeps: the key awaited for a new service
/// is its own key, a change request carries an id and its own key, and the
/// removal of cache keys stays within the list.
pub open spec fn flow_wf(f: FlowView) -> bool {
    match f {
        FlowView::AddLookup { service, key } => key == redis_key(service),
        FlowView::UpdateFind { arg } => arg.id is Some,
        FlowView::UpdateCached { arg, new_key, .. } => arg.id is Some && new_key == redis_key(arg),
        FlowView::UpdateNewKeyLookup { arg, new_key, .. } => arg.id is Some && new_key == redis_key(arg),
        FlowView::DeleteKeys { keys, next, .. } => next <= keys.len(),
        _ => true,
    }
}

fn finish_rows(o: Outcome) -> (r: (ServiceFlow, Effect))
    requires
        o is Rows || o is Failed,
    ensures
        (r.0@, r.1@) == finish_with_rows(o@),
{
    match o {
        Outcome::Rows(n) => (ServiceFlow::Finished, Effect::Finish(Ok(n))),
        Outcome::Failed(m) => (ServiceFlow::Finished, Effect::Finish(Err(ServiceError::Storage(m)))),
        _ => {
            proof {
                assert(false);
            }
            (ServiceFlow::Finished, Effect::Finish(Ok(0)))
        },
    }
}

fn delete_from_exec(ids: Vec<String>, keys: Vec<String>, next: usize) -> (r: (ServiceFlow, Effect))
    requires
        next <= keys.len(),
    ensures
        (r.0@, r.1@) == delete_from(strings_view(ids@), strings_view(keys@), next as nat),
        flow_wf(r.0@),
{
    if next < keys.len() {
        let key = keys[next].clone();
        (ServiceFlow::DeleteKeys { ids, keys, next: next + 1 }, Effect::CacheDelete(key))
    } else {
        (ServiceFlow::DeleteRows, Effect::StoreDeleteMany(ids))
    }
}

/// The cache keys of a list of services, in order.
pub fn keys_of(list: &Vec<SysServices>) -> (keys: Vec<String>)
    ensures
        strings_view(keys@) == services_view(list@).map_values(|s: ServiceRecord| redis_key(s)),
{
    let mut keys: Vec<String> = Vec::new();
    let n = list.len();
    for i in 0..n
        invariant
            n == list@.len(),
            keys@.len() == i,
            forall|j: int| 0 <= j < i ==> (#[trigger] keys@[j])@ == redis_key(list@[j]@),
    {
        let k = redis_key_of(&list[i]);
        keys.push(k);
    }
    assert(strings_view(keys@) =~= services_view(list@).map_values(|s: ServiceRecord| redis_key(s)));
    keys
}

fn same_id(a: &Option<String>, b: &Option<String>) -> (r: bool)
    requires
        a is Some,
        b is Some,
    ensures
        r == (opt_view(*a) == opt_view(*b)),
{
    match (a, b) {
        (Some(x), Some(y)) => x.eq(y),
        _ => false,
    }
}

impl ServiceFlow {
    /// Whether this state takes the answer `o` (see [`flow_accepts`]).
    pub fn accepts(&self, o: &Outcome) -> (b: bool)
        ensures
            b == flow_accepts(self@, o@),
    {
        match self {
            ServiceFlow::AddLookup { .. } => matches!(o, Outcome::Cached(_)),
            ServiceFlow::AddCacheWrite { .. } => matches!(o, Outcome::Done | Outcome::Failed(_)),
            ServiceFlow::AddInsert => matches!(o, Outcome::Rows(_) | Outcome::Failed(_)),
            ServiceFlow::UpdateFind { .. } => matches!(o, Outcome::Found(Some(_)) | Outcome::Failed(_)),
            ServiceFlow::UpdateCached { old_key, new_key, .. } => match o {
                Outcome::CachedService(c) => !old_key.eq(new_key) || c.id.is_some(),
                _ => false,
            },
            ServiceFlow::UpdateNewKeyLookup { .. } => matches!(o, Outcome::Cached(_)),
            ServiceFlow::UpdateWrite { .. } => matches!(o, Outcome::Rows(_) | Outcome::Failed(_)),
            ServiceFlow::UpdateReload { .. } => matches!(o, Outcome::Found(Some(_)) | Outcome::Failed(_)),
            ServiceFlow::UpdateCacheWrite { .. } => matches!(o, Outcome::Done | Outcome::Failed(_)),
            ServiceFlow::UpdateStaleDelete { .. } => matches!(o, Outcome::Done | Outcome::Failed(_)),
            ServiceFlow::DeleteFind { .. } => matches!(o, Outcome::FoundMany(_) | Outcome::Failed(_)),
            ServiceFlow::DeleteKeys { .. } => matches!(o, Outcome::Done),
            ServiceFlow::DeleteRows => matches!(o, Outcome::Rows(_) | Outcome::Failed(_)),
            ServiceFlow::ActiveFind { .. } => matches!(o, Outcome::Found(Some(_)) | Outcome::Failed(_)),
            ServiceFlow::ActiveCacheDelete { .. } => matches!(o, Outcome::Done),
            ServiceFlow::ActiveCacheWrite { .. } => matches!(o, Outcome::Done | Outcome::Failed(_)),
            ServiceFlow::ActiveUpdate => matches!(o, Outcome::Rows(_) | Outcome::Failed(_)),
            ServiceFlow::Finished => false,
        }
    }

    /// Takes the answer `outcome` to the last request and says what to ask next.
    pub fn resume(self, outcome: Outcome) -> (r: (ServiceFlow, Effect))
        requires
            flow_wf(self@),
            flow_accepts(self@, outcome@),
        ensures
            flow_wf(r.0@),
            (r.0@, r.1@) == flow_step(self@, outcome@),
    {
        match self {
            ServiceFlow::AddLookup { service, key } => match outcome {
                Outcome::Cached(v) => {
                    if v.as_str().is_empty() {
                        let active = match service.is_active {
                            Some(a) => a == 1,
                            None => false,
                        };
                        if active {
                            let copy = service.clone();
                            (ServiceFlow::AddCacheWrite { service }, Effect::CachePut(key, copy))
                        } else {
                            (ServiceFlow::AddInsert, Effect::StoreInsert(service))
                        }
                    } else {
                        (ServiceFlow::Finished, Effect::Finish(Err(ServiceError::DuplicateService)))
                    }
                },
                other => finish_rows(other),
            },
            ServiceFlow::AddCacheWrite { service } => (ServiceFlow::AddInsert, Effect::StoreInsert(service)),
            ServiceFlow::AddInsert => finish_rows(outcome),
            ServiceFlow::UpdateFind { arg } => match outcome {
                Outcome::Found(Some(stored)) => {
                    let old_key = redis_key_of(&stored);
                    let new_key = redis_key_of(&arg);
                    let probe = old_key.clone();
                    (ServiceFlow::UpdateCached { arg, old_key, new_key }, Effect::CacheGetService(probe))
                },
                other => finish_rows(other),
            },
            ServiceFlow::UpdateCached { arg, old_key, new_key } => match outcome {
                Outcome::CachedService(cached) => {
                    if old_key.eq(&new_key) {
                        if same_id(&cached.id, &arg.id) {
                            let id = arg.id.as_ref().unwrap().clone();
                            (ServiceFlow::UpdateWrite { id, new_key, stale_key: None }, Effect::StoreUpdate(arg))
                        } else {
                            (ServiceFlow::Finished, Effect::Finish(Err(ServiceError::DuplicateService)))
                        }
                    } else {
                        let probe = new_key.clone();
                        (ServiceFlow::UpdateNewKeyLookup { arg, old_key, new_key }, Effect::CacheGet(probe))
                    }
                },
                other => finish_rows(other),
            },
            ServiceFlow::UpdateNewKeyLookup { arg, old_key, new_key } => match outcome {
                Outcome::Cached(v) => {
                    if v.as_str().is_empty() {
                        let id = arg.id.as_ref().unwrap().clone();
                        (
                            ServiceFlow::UpdateWrite { id, new_key, stale_key: Some(old_key) },
                            Effect::StoreUpdate(arg),
                        )
                    } else {
                        (ServiceFlow::Finished, Effect::Finish(Err(ServiceError::DuplicateService)))
                    }
                },
                other => finish_rows(other),
            },
            ServiceFlow::UpdateWrite { id, new_key, stale_key } => match outcome {
                Outcome::Rows(n) => (ServiceFlow::UpdateReload { new_key, stale_key, rows: n }, Effect::StoreFind(id)),
                other => finish_rows(other),
            },
            ServiceFlow::UpdateReload { new_key, stale_key, rows } => match outcome {
                Outcome::Found(Some(stored)) =>
                    (ServiceFlow::UpdateCacheWrite { stale_key, rows }, Effect::CachePut(new_key, stored)),
                other => finish_rows(other),
            },
            ServiceFlow::UpdateCacheWrite { stale_key, rows } => match stale_key {
                Some(k) => (ServiceFlow::UpdateStaleDelete { rows }, Effect::CacheDelete(k)),
                None => (ServiceFlow::Finished, Effect::Finish(Ok(rows))),
            },
            ServiceFlow::UpdateStaleDelete { rows } => (ServiceFlow::Finished, Effect::Finish(Ok(rows))),
            ServiceFlow::DeleteFind { ids } => match outcome {
                Outcome::FoundMany(found) => {
                    let keys = keys_of(&found);
                    delete_from_exec(ids, keys, 0)
                },
                other => finish_rows(other),
            },
            ServiceFlow::DeleteKeys { ids, keys, next } => delete_from_exec(ids, keys, next),
            ServiceFlow::DeleteRows => finish_rows(outcome),
            ServiceFlow::ActiveFind { is_active, now } => match outcome {
                Outcome::Found(Some(stored)) => {
                    let key = redis_key_of(&stored);
                    let mut changed = stored;
                    changed.is_active = is_active;
                    changed.updated_at = Some(now);
                    let enable = match is_active {
                        Some(a) => a == 1,
                        None => false,
                    };
                    if !enable {
                        (ServiceFlow::ActiveCacheDelete { service: changed }, Effect::CacheDelete(key))
                    } else {
                        let copy = changed.clone();
                        (ServiceFlow::ActiveCacheWrite { service: changed }, Effect::CachePut(key, copy))
                    }
                },
                other => finish_rows(other),
            },
            ServiceFlow::ActiveCacheDelete { service } => (ServiceFlow::ActiveUpdate, Effect::StoreUpdate(service)),
            ServiceFlow::ActiveCacheWrite { service } => match outcome {
                Outcome::Failed(m) => (ServiceFlow::Finished, Effect::Finish(Err(ServiceError::Storage(m)))),
                _ => (ServiceFlow::ActiveUpdate, Effect::StoreUpdate(service)),
            },
            ServiceFlow::ActiveUpdate => finish_rows(outcome),
            ServiceFlow::Finished => finish_rows(outcome),
        }
    }
}

/// The activity flag of a new service: the requested one, enabled (1) when
/// none is given.
pub open spec fn default_active(is_active: Option<i32>) -> Option<i32> {
    match is_active {
        Some(a) => Some(a),
        None => Some(1i32),
    }
}

/// The first state and request of registering `arg`, given the host read
/// from its address (`host`), the new id and the current time. The service is
/// stored with the host as its address, the id, `now` as creation and change
/// time, and enabled unless it asks otherwise; its cache key is looked up first.
pub open spec fn add_begin(
    arg: ServiceRecord,
    host: Result<Option<Seq<char>>, UrlErrorView>,
    id: Seq<char>,
    now: Seq<char>,
) -> (FlowView, EffectView) {
    match host {
        Err(_) => finish(Err(ServiceErrorView::InvalidUrl)),
        Ok(h) => {
            let s = ServiceRecord {
                id: Some(id),
                url: h,
                is_active: default_active(arg.is_active),
                created_at: Some(now),
                updated_at: Some(now),
                ..arg
            };
            let key = redis_key(s);
            if key.len() == 0 {
                finish(Err(ServiceErrorView::EmptyKey))
            } else {
                (FlowView::AddLookup { service: s, key }, EffectView::CacheGet(key))
            }
        },
    }
}

/// The first state and request of changing a service to `arg` at time `now`.
pub open spec fn update_begin(arg: ServiceRecord, now: Seq<char>) -> (FlowView, EffectView) {
    let a = ServiceRecord { updated_at: Some(now), ..arg };
    (FlowView::UpdateFind { arg: a }, EffectView::StoreFind(arg.id->0))
}

/// The first state and request of removing the services with `ids`.
pub open spec fn delete_begin(ids: Seq<Seq<char>>) -> (FlowView, EffectView) {
    (FlowView::DeleteFind { ids }, EffectView::StoreFindMany(ids))
}

/// The first state and request of setting the activity flag of service `id`.
pub open spec fn active_begin(id: Seq<char>, is_active: Option<i32>, now: Seq<char>) -> (FlowView, EffectView) {
    (FlowView::ActiveFind { is_active, now }, EffectView::StoreFind(id))
}

/// Starts registering `arg` from the host read from its address (or the
/// parser's refusal), its new `id` and the current time `now`.
pub fn prepare_add_service(
    arg: SysServices,
    host: Result<Option<String>, UrlError>,
    id: String,
    now: String,
) -> (r: (ServiceFlow, Effect))
    requires
        host is Ok ==> host->Ok_0 is Some,
    ensures
        flow_wf(r.0@),
        (r.0@, r.1@) == add_begin(arg@, host_view(host), id@, now@),
{
    match host {
        Err(_) => (ServiceFlow::Finished, Effect::Finish(Err(ServiceError::InvalidUrl))),
        Ok(h) => {
            let mut s = arg;
            s.url = h;
            s.id = Some(id);
            s.created_at = Some(now.clone());
            s.updated_at = Some(now);
            if s.is_active.is_none() {
                s.is_active = Some(1);
            }
            let key = redis_key_of(&s);
            if key.as_str().is_empty() {
                (ServiceFlow::Finished, Effect::Finish(Err(ServiceError::EmptyKey)))
            } else {
                let probe = key.clone();
                (ServiceFlow::AddLookup { service: s, key }, Effect::CacheGet(probe))
            }
        },
    }
}

/// Starts registering `arg` with the given id and time: its address, with the
/// default scheme added, is parsed (through the `url` crate) for its host.
pub fn start_add_service(arg: SysServices, id: String, now: String) -> (r: (ServiceFlow, Effect))
    requires
        arg.url is Some,
    ensures
        flow_wf(r.0@),
        (r.0@, r.1@) == add_begin(arg@, url_host_of(with_default_scheme(arg@.url->0)), id@, now@),
{
    let address = normalize_service_url(arg.url.as_ref().unwrap().as_str());
    let host = parse_host(address.as_str());
    proof {
        crate::urls::law_default_scheme_idempotent(arg@.url->0);
    }
    prepare_add_service(arg, host, id, now)
}

/// Starts changing a service to `arg` at time `now`.
pub fn start_update_service(arg: SysServices, now: String) -> (r: (ServiceFlow, Effect))
    requires
        arg.id is Some,
    ensures
        flow_wf(r.0@),
        (r.0@, r.1@) == update_begin(arg@, now@),
{
    let id = arg.id.as_ref().unwrap().clone();
    let mut a = arg;
    a.updated_at = Some(now);
    (ServiceFlow::UpdateFind { arg: a }, Effect::StoreFind(id))
}

/// Starts setting the activity flag requested by `arg` at time `now`.
pub fn start_update_is_active(arg: &UpdateIsActive, now: String) -> (r: (ServiceFlow, Effect))
    requires
        arg.id is Some,
    ensures
        flow_wf(r.0@),
        (r.0@, r.1@) == active_begin(arg.id->0@, arg.is_active, now@),
{
    let id = arg.id.as_ref().unwrap().clone();
    (ServiceFlow::ActiveFind { is_active: arg.is_active, now }, Effect::StoreFind(id))
}

/// Calls `rbatis::snowflake::new_snowflake_id`, the next id of the process's
/// snowflake generator. The id depends on the clock and on the ids given
/// before, so nothing is stated of it.
#[verifier::external_body]
fn new_snowflake_id() -> (id: i64) {
    rbatis::snowflake::new_snowflake_id()
}

/// Calls `rbatis::rbdc::DateTime::now` and renders the time with its
/// `Display` impl. It depends on the clock, so nothing is stated of it.
#[verifier::external_body]
fn current_datetime() -> (now: String) {
    rbatis::rbdc::DateTime::now().to_string()
}

/// The fields of a page request.
pub struct PageParams {
    pub total: u64,
    pub page_no: u64,
    pub page_size: u64,
    pub do_count: bool,
}

/// Calls `rbatis::PageRequest::new(page_no, page_size)` and copies its
/// fields. As its source shows, a page number below 1 becomes 1, the page size
/// is kept, the total starts at `DEFAULT_PAGE_SIZE` (10) and counting is on.
#[verifier::external_body]
fn new_page_request(page_no: u64, page_size: u64) -> (r: PageParams)
    ensures
        r.page_no == (if page_no < 1 { 1 } else { page_no }),
        r.page_size == page_size,
        r.total == 10,
        r.do_count,
{
    let p = rbatis::PageRequest::new(page_no, page_size);
    PageParams { total: p.total, page_no: p.page_no, page_size: p.page_size, do_count: p.do_count }
}

/// The query for one page of services.
#[derive(Debug, PartialEq, Eq)]
pub struct PageQuery {
    /// Page number, from 1.
    pub page_no: u64,
    pub page_size: u64,
    /// Initial total of the page request.
    pub total: u64,
    /// Whether the total number of rows is counted.
    pub do_count: bool,
    /// Name filter (empty for all names).
    pub server_name: String,
    /// Activity filter: 1 enabled, 2 disabled, 0 all.
    pub is_active: i32,
}

/// Entry point of the service-management operations.
pub struct SysServiceService {}

impl SysServiceService {
    /// Starts registering `arg` under a fresh snowflake id at the current time.
    pub fn add_service(&self, arg: SysServices) -> (r: (ServiceFlow, Effect))
        requires
            arg.url is Some,
        ensures
            flow_wf(r.0@),
            exists|id: i64, now: Seq<char>|
                (r.0@, r.1@) == #[trigger] add_begin(arg@, url_host_of(with_default_scheme(arg@.url->0)), signed_decimal(id as int), now),
    {
        let id = new_snowflake_id();
        let id_text = signed_decimal_string(id);
        let now = current_datetime();
        start_add_service(arg, id_text, now)
    }

    /// Starts changing a service to `arg` at the current time.
    pub fn update_service(&self, arg: SysServices) -> (r: (ServiceFlow, Effect))
        requires
            arg.id is Some,
        ensures
            flow_wf(r.0@),
            exists|now: Seq<char>| (r.0@, r.1@) == #[trigger] update_begin(arg@, now),
    {
        let now = current_datetime();
        start_update_service(arg, now)
    }

    /// Starts removing the services with ids `arg`.
    pub fn delete_service_by_ids(&self, arg: Vec<String>) -> (r: (ServiceFlow, Effect))
        ensures
            flow_wf(r.0@),
            (r.0@, r.1@) == delete_begin(strings_view(arg@)),
    {
        let ids = arg.clone();
        proof {
            assert(strings_view(ids@) =~= strings_view(arg@));
        }
        (ServiceFlow::DeleteFind { ids }, Effect::StoreFindMany(arg))
    }

    /// Starts setting the activity flag requested by `arg` at the current time.
    pub fn update_is_active(&self, arg: &UpdateIsActive) -> (r: (ServiceFlow, Effect))
        requires
            arg.id is Some,
        ensures
            flow_wf(r.0@),
            exists|now: Seq<char>| (r.0@, r.1@) == #[trigger] active_begin(arg.id->0@, arg.is_active, now),
    {
        let now = current_datetime();
        start_update_is_active(arg, now)
    }

    /// The page query asked for by `arg`; absent fields become 0 or the empty
    /// name, and the page request (through rbatis) counts pages from 1.
    pub fn select_service_by_page(&self, arg: &SelectServiceByPageReqVO) -> (q: PageQuery)
        ensures
            q.page_no == (match arg.page_no { Some(n) => if n < 1 { 1 } else { n }, None => 1 }),
            q.page_size == (match arg.page_size { Some(n) => n, None => 0 }),
            q.total == 10,
            q.do_count,
            q.server_name@ == (match opt_view(arg.server_name) { Some(n) => n, None => Seq::empty() }),
            q.is_active == (match arg.is_active { Some(a) => a, None => 0 }),
    {
        let page_no = match arg.page_no { Some(n) => n, None => 0 };
        let page_size = match arg.page_size { Some(n) => n, None => 0 };
        let server_name = match &arg.server_name { Some(n) => n.clone(), None => String::new() };
        let is_active = match arg.is_active { Some(a) => a, None => 0 };
        let request = new_page_request(page_no, page_size);
        PageQuery {
            page_no: request.page_no,
            page_size: request.page_size,
            total: request.total,
            do_count: request.do_count,
            server_name,
            is_active,
        }
    }
}

/// The cache entries that publish the given services: each service with a
/// non-empty key, under that key, in order.
pub open spec fn sync_plan(services: Seq<ServiceRecord>) -> Seq<(Seq<char>, ServiceRecord)> {
    services.filter_map(|s: ServiceRecord| if redis_key(s).len() > 0 { Some((redis_key(s), s)) } else { None })
}

/// Model of a list of cache entries.
pub open spec fn entries_view(v: Seq<(String, SysServices)>) -> Seq<(Seq<char>, ServiceRecord)> {
    v.map_values(|e: (String, SysServices)| (e.0@, e.1@))
}

/// The cache entries to write so that the cache publishes the given (active)
/// services: services without a key are skipped.
pub fn sync_tables_data(services: Vec<SysServices>) -> (entries: Vec<(String, SysServices)>)
    ensures
        entries_view(entries@) == sync_plan(services_view(services@)),
{
    let mut entries: Vec<(String, SysServices)> = Vec::new();
    let n = services.len();
    let ghost all = services_view(services@);
    let ghost f = |s: ServiceRecord| if redis_key(s).len() > 0 { Some((redis_key(s), s)) } else { None };
    for i in 0..n
        invariant
            n == services@.len(),
            all == services_view(services@),
            f == (|s: ServiceRecord| if redis_key(s).len() > 0 { Some((redis_key(s), s)) } else { None }),
            entries_view(entries@) =~= all.take(i as int).filter_map(f),
    {
        let key = redis_key_of(&services[i]);
        proof {
            all.lemma_filter_map_take_succ(f, i as int);
            assert(all[i as int] == services@[i as int]@);
        }
        if !key.as_str().is_empty() {
            let s = services[i].clone();
            entries.push((key, s));
        }
        proof {
            assert(entries_view(entries@) =~= all.take(i + 1).filter_map(f));
        }
    }
    proof {
        assert(all.take(n as int) =~= all);
    }
    entries
}

} // verus!
