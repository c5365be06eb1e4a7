//! Verified steps over a parsed [`Json`] tree: member lookup and the
//! plain-typed reading of one member, each pinned to its spec twin. The
//! schema decoders are built on these alone.

use vstd::prelude::*;
use crate::jsonval::Json;

verus! {

/// The first entry of the member list under the given key.
pub open spec fn spec_entry(entries: Seq<(String, Json)>, key: Seq<char>) -> Option<Json>
    decreases entries.len(),
{
    if entries.len() == 0 {
        None
    } else if entries[0].0@ == key {
        Some(entries[0].1)
    } else {
        spec_entry(entries.drop_first(), key)
    }
}

/// The member of an object under the given key; `None` where the value is
/// not an object or has no such member.
pub open spec fn spec_member(j: Json, key: Seq<char>) -> Option<Json> {
    match j {
        Json::Obj(entries) => spec_entry(entries@, key),
        _ => None,
    }
}

/// The member as text, where present and a JSON string.
pub open spec fn spec_str_member(j: Json, key: Seq<char>) -> Option<String> {
    match spec_member(j, key) {
        Some(Json::Str(s)) => Some(s),
        _ => None,
    }
}

/// The member as a `u64`, where present and an unsigned JSON number.
pub open spec fn spec_u64_member(j: Json, key: Seq<char>) -> Option<u64> {
    match spec_member(j, key) {
        Some(Json::UInt(n)) => Some(n),
        _ => None,
    }
}

/// The member as an `i64`, where present and an integral JSON number.
pub open spec fn spec_i64_member(j: Json, key: Seq<char>) -> Option<i64> {
    match spec_member(j, key) {
        Some(Json::UInt(n)) => if n <= i64::MAX as u64 {
            Some(n as i64)
        } else {
            None
        },
        Some(Json::Int(n)) => Some(n),
        _ => None,
    }
}

/// The member as a boolean, where present and a JSON boolean.
pub open spec fn spec_bool_member(j: Json, key: Seq<char>) -> Option<bool> {
    match spec_member(j, key) {
        Some(Json::Bool(b)) => Some(b),
        _ => None,
    }
}

/// The member's elements, where present and a JSON array.
pub open spec fn spec_arr_member(j: Json, key: Seq<char>) -> Option<Seq<Json>> {
    match spec_member(j, key) {
        Some(Json::Arr(a)) => Some(a@),
        _ => None,
    }
}

/// Look one member up, exactly as [`spec_member`] reads.
pub(crate) fn member<'a>(j: &'a Json, key: &str) -> (r: Option<&'a Json>)
    ensures
        match r {
            Some(f) => spec_member(*j, key@) == Some(*f),
            None => spec_member(*j, key@) is None,
        },
{
    match j {
        Json::Obj(entries) => {
            let k = String::from_str(key);
            let n = entries.len();
            proof {
                assert(entries@.subrange(0, n as int) =~= entries@);
            }
            let mut i: usize = 0;
            while i < n
                invariant
                    i <= n,
                    n == entries@.len(),
                    k@ == key@,
                    *j == Json::Obj(*entries),
                    spec_entry(entries@, key@) == spec_entry(
                        entries@.subrange(i as int, n as int),
                        key@,
                    ),
                decreases n - i,
            {
                proof {
                    let suffix = entries@.subrange(i as int, n as int);
                    assert(suffix[0] == entries@[i as int]);
                    assert(suffix.drop_first() =~= entries@.subrange(i as int + 1, n as int));
                }
                if entries[i].0 == k {
                    proof {
                        let suffix = entries@.subrange(i as int, n as int);
                        assert(suffix[0].0@ == key@);
                        assert(spec_entry(suffix, key@) == Some(entries@[i as int].1));
                        assert(*j == Json::Obj(*entries));
                        assert(spec_member(*j, key@) == spec_entry(entries@, key@));
                    }
                    return Some(&entries[i].1);
                }
                i = i + 1;
            }
            None
        },
        _ => None,
    }
}

/// Read one member as text, exactly as [`spec_str_member`] reads.
pub(crate) fn str_member(j: &Json, key: &str) -> (r: Option<String>)
    ensures
        r == spec_str_member(*j, key@),
{
    match member(j, key) {
        Some(Json::Str(s)) => Some(s.clone()),
        _ => None,
    }
}

/// Read one member as a `u64`, exactly as [`spec_u64_member`] reads.
pub(crate) fn u64_member(j: &Json, key: &str) -> (r: Option<u64>)
    ensures
        r == spec_u64_member(*j, key@),
{
    match member(j, key) {
        Some(Json::UInt(n)) => Some(*n),
        _ => None,
    }
}

/// Read one member as an `i64`, exactly as [`spec_i64_member`] reads.
pub(crate) fn i64_member(j: &Json, key: &str) -> (r: Option<i64>)
    ensures
        r == spec_i64_member(*j, key@),
{
    match member(j, key) {
        Some(Json::UInt(n)) => if *n <= i64::MAX as u64 {
            Some(*n as i64)
        } else {
            None
        },
        Some(Json::Int(n)) => Some(*n),
        _ => None,
    }
}

/// Read one member as a boolean, exactly as [`spec_bool_member`] reads.
pub(crate) fn bool_member(j: &Json, key: &str) -> (r: Option<bool>)
    ensures
        r == spec_bool_member(*j, key@),
{
    match member(j, key) {
        Some(Json::Bool(b)) => Some(*b),
        _ => None,
    }
}

/// Read one member's array elements, exactly as [`spec_arr_member`] reads.
pub(crate) fn arr_member<'a>(j: &'a Json, key: &str) -> (r: Option<&'a Vec<Json>>)
    ensures
        match r {
            Some(a) => spec_arr_member(*j, key@) == Some(a@),
            None => spec_arr_member(*j, key@) is None,
        },
{
    match member(j, key) {
        Some(Json::Arr(a)) => Some(a),
        _ => None,
    }
}

} // verus!
