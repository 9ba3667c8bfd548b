//! How the answer of a cache read is handed to the operations.

use vstd::prelude::*;
use vstd::string::*;

verus! {

/// The message of a failed read of `key` with the cache's error `err`.
pub open spec fn read_failure(key: Seq<char>, err: Seq<char>) -> Seq<char> {
    "RedisService get_string("@ + key + ") fail:"@ + err
}

/// The text that a cache read of `key` yields: the stored text, the empty text
/// when the key is absent, or, when the read failed with `err`, the message
/// `RedisService get_string(key) fail:err`.
pub fn read_result(key: &str, reply: Result<Option<String>, String>) -> (r: Result<String, String>)
    ensures
        match reply {
            Ok(Some(v)) => r is Ok && r->Ok_0@ == v@,
            Ok(None) => r is Ok && r->Ok_0@.len() == 0,
            Err(e) => r is Err && r->Err_0@ == read_failure(key@, e@),
        },
{
    match reply {
        Ok(Some(v)) => Ok(v),
        Ok(None) => Ok(String::new()),
        Err(e) => {
            let mut m = String::from_str("RedisService get_string(");
            m.append(key);
            m.append(") fail:");
            m.append(e.as_str());
            Err(m)
        },
    }
}

} // verus!
