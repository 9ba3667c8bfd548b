//! The cache key under which a service is published.

use vstd::prelude::*;
use vstd::string::*;
use crate::model::{ServiceRecord, SysServices};

verus! {

/// The cache key of a service: its name followed by its path, the name alone
/// when there is no path, and the empty key when the service has no name.
pub open spec fn redis_key(s: ServiceRecord) -> Seq<char> {
    match s.server_name {
        Some(name) => match s.path {
            Some(path) => name + path,
            None => name,
        },
        None => Seq::empty(),
    }
}

/// Computes the cache key of `arg` (always `Some`; empty when it has no name).
pub fn get_redis_key(arg: SysServices) -> (key: Option<String>)
    ensures
        key is Some,
        key->0@ == redis_key(arg@),
        arg@.server_name is Some && arg@.path is Some ==> key->0@ == arg@.server_name->0 + arg@.path->0,
        arg@.server_name is Some && arg@.path is None ==> key->0@ == arg@.server_name->0,
        arg@.server_name is None ==> key->0@.len() == 0,
{
    let mut redis_key = String::new();
    match arg.server_name {
        Some(name) => {
            redis_key = name;
            match arg.path {
                Some(path) => {
                    redis_key.append(path.as_str());
                },
                None => {},
            }
        },
        None => {},
    }
    Some(redis_key)
}

/// The cache key of a service, read without taking it.
pub fn redis_key_of(arg: &SysServices) -> (key: String)
    ensures
        key@ == redis_key(arg@),
{
    get_redis_key(arg.clone()).unwrap()
}

/// The cache key of a named service is its name immediately followed by its
/// path, exactly as given (no part of the path is dropped or rewritten); a
/// named service without a path has its name as key; a service without a name
/// has the empty key.
pub proof fn law_key_is_name_then_path(a: ServiceRecord)
    ensures
        a.server_name is Some && a.path is Some ==> redis_key(a) == a.server_name->0 + a.path->0,
        a.server_name is Some && a.path is Some ==> redis_key(a).len() == a.server_name->0.len() + a.path->0.len(),
        a.server_name is Some && a.path is Some ==> forall|i: int|
            0 <= i < a.path->0.len() ==> #[trigger] redis_key(a)[a.server_name->0.len() + i] == a.path->0[i],
        a.server_name is Some && a.path is None ==> redis_key(a) == a.server_name->0,
        a.server_name is None ==> redis_key(a) == Seq::<char>::empty(),
{
}

/// The cache key depends on the service's name and path only: two services
/// that agree on both have the same key, whatever their other fields.
pub proof fn law_key_depends_on_name_and_path(a: ServiceRecord, b: ServiceRecord)
    requires
        a.server_name == b.server_name,
        a.path == b.path,
    ensures
        redis_key(a) == redis_key(b),
{
}

/// A service without a name has the empty key; a named service's key starts
/// with its name.
pub proof fn law_key_starts_with_name(a: ServiceRecord)
    ensures
        a.server_name is None ==> redis_key(a).len() == 0,
        a.server_name is Some ==> a.server_name->0.is_prefix_of(redis_key(a)),
{
    if a.server_name is Some {
        let name = a.server_name->0;
        match a.path {
            Some(p) => {
                assert((name + p).subrange(0, name.len() as int) =~= name);
            },
            None => {
                assert(name.subrange(0, name.len() as int) =~= name);
            },
        }
    }
}

} // verus!
