//! The names and numbers of the kinds that the configuration knows.
//!
//! `call_ensures(f, args, r)` says that `r` is a result of the call of `f` with `args`.

use vstd::prelude::*;

use crate::auth::AuthType;
use crate::config::kinds::{CacheEvictorType, WriteType};
use crate::config::values::{parse_bool, parse_byte_size, TextMap};
use crate::proto::WritePType;
use crate::text::{decimal, lower, lowered, trim};

verus! {

/// The name and the number of each write type.
pub proof fn law_write_types_have_their_names_and_numbers(
    wt: WriteType,
    name: &'static str,
    text: String,
    n: i32,
)
    requires
        call_ensures(WriteType::as_str, (&wt,), name),
        call_ensures(WriteType::to_string, (&wt,), text),
        call_ensures(WriteType::as_i32, (&wt,), n),
    ensures
        text@ == name@,
        wt is MustCache ==> name@ == "must_cache"@ && n == 1,
        wt is TryCache ==> name@ == "try_cache"@ && n == 2,
        wt is CacheThrough ==> name@ == "cache_through"@ && n == 3,
        wt is Through ==> name@ == "through"@ && n == 4,
        wt is AsyncThrough ==> name@ == "async_through"@ && n == 5,
{
}

/// A write type is read back from its name, in whatever case the letters are, and from
/// its number.
pub proof fn law_write_type_is_read_back(
    wt: WriteType,
    name: &'static str,
    s: &str,
    low: String,
    parsed: std::result::Result<WriteType, String>,
    n: i32,
    p: Option<WritePType>,
    back: std::result::Result<WriteType, String>,
)
    requires
        call_ensures(WriteType::as_str, (&wt,), name),
        call_ensures(lower, (s,), low),
        call_ensures(WriteType::parse_name, (s,), parsed),
        call_ensures(WriteType::as_i32, (&wt,), n),
        call_ensures(WritePType::from_i32, (n,), p),
        p is Some ==> call_ensures(WriteType::try_from_proto, (p->0,), back),
    ensures
        low@ == name@ ==> parsed == Ok::<WriteType, String>(wt),
        p is Some && back == Ok::<WriteType, String>(wt),
{
    crate::config::kinds::law_write_type_name_is_read_back(wt);
    assert(lowered(wt.name()) == wt.name()) by {
        reveal_strlit("must_cache");
        reveal_strlit("try_cache");
        reveal_strlit("cache_through");
        reveal_strlit("through");
        reveal_strlit("async_through");
        assert(lowered(wt.name()) =~= wt.name());
    }
}

/// A name that is none of the five is refused, and so are the two wire values that stand
/// for no write type.
pub proof fn law_other_write_types_are_refused(
    s: &str,
    low: String,
    parsed: std::result::Result<WriteType, String>,
    pt: WritePType,
    back: std::result::Result<WriteType, String>,
)
    requires
        call_ensures(lower, (s,), low),
        call_ensures(WriteType::parse_name, (s,), parsed),
        call_ensures(WriteType::try_from_proto, (pt,), back),
    ensures
        parsed is Ok ==> low@ == "must_cache"@ || low@ == "try_cache"@ || low@ == "cache_through"@
            || low@ == "through"@ || low@ == "async_through"@,
        (back is Err) == (pt is UnspecifiedWriteType || pt is NoneWriteType),
        back matches Ok(t) ==> (t is MustCache) == (pt is MustCache) && (t is TryCache) == (
        pt is TryCache) && (t is CacheThrough) == (pt is CacheThrough) && (t is Through) == (
        pt is Through) && (t is AsyncThrough) == (pt is AsyncThrough),
{
}

/// The authentication types go by two names, in whatever case the letters are.
pub proof fn law_authentication_types_have_their_names(
    s: &str,
    low: String,
    r: std::result::Result<AuthType, String>,
)
    requires
        call_ensures(lower, (s,), low),
        call_ensures(AuthType::parse_name, (s,), r),
    ensures
        low@ == "nosasl"@ ==> (r matches Ok(t) && t is NoSasl),
        low@ == "simple"@ ==> (r matches Ok(t) && t is Simple),
        low@ != "nosasl"@ && low@ != "simple"@ ==> r is Err,
{
    reveal_strlit("nosasl");
    reveal_strlit("simple");
    assert("nosasl"@[0] != "simple"@[0]);
}

/// The eviction policies go by two names, in whatever case the letters are and with
/// white space around.
pub proof fn law_eviction_policies_have_their_names(
    s: &str,
    t: &str,
    low: String,
    r: std::result::Result<CacheEvictorType, String>,
)
    requires
        call_ensures(trim, (s,), t),
        call_ensures(lower, (t,), low),
        call_ensures(CacheEvictorType::parse_name, (s,), r),
    ensures
        low@ == "lru"@ ==> (r matches Ok(k) && k is Lru),
        low@ == "lfu"@ ==> (r matches Ok(k) && k is Lfu),
        low@ != "lru"@ && low@ != "lfu"@ ==> r is Err,
{
    reveal_strlit("lru");
    reveal_strlit("lfu");
    assert("lru"@[1] != "lfu"@[1]);
}

/// A truth value has one spelling each.
pub proof fn law_truth_values_are_spelled_out(s: &str, r: Option<bool>)
    requires
        call_ensures(parse_bool, (s,), r),
    ensures
        (r == Some(true)) == (s@ == "true"@),
        (r == Some(false)) == (s@ == "false"@),
{
    reveal_strlit("true");
    reveal_strlit("false");
    assert("true"@.len() != "false"@.len());
}

/// A byte size is a number, alone or followed by its unit.
pub proof fn law_byte_sizes_are_read_with_their_unit(
    s: &str,
    n: nat,
    r: std::result::Result<u64, String>,
)
    requires
        call_ensures(parse_byte_size, (s,), r),
        n <= u64::MAX,
    ensures
        s@ == decimal(n) ==> r == Ok::<u64, String>(n as u64),
        s@ == decimal(n) + "KB"@ && n * 1024 <= u64::MAX ==> (r matches Ok(v) && v == n * 1024),
        s@ == decimal(n) + "MB"@ && n * 1048576 <= u64::MAX ==> (r matches Ok(v) && v == n
            * 1048576),
        s@ == decimal(n) + "GB"@ && n * 1073741824 <= u64::MAX ==> (r matches Ok(v) && v == n
            * 1073741824),
{
    crate::config::setting_laws::lemma_byte_sizes(n);
}

/// A text map gives back what was put in last under a key, and nothing under a key that
/// was never used.
pub proof fn law_text_map_gives_back(
    m: &mut TextMap,
    k: String,
    v: String,
    other: &str,
    key: &str,
    before: Option<&str>,
    after: Option<&str>,
    own: Option<&str>,
)
    requires
        call_ensures(TextMap::insert, (m, k, v), ()),
        key@ == k@,
        other@ != k@,
        call_ensures(TextMap::get, (old(m), other), before),
        call_ensures(TextMap::get, (final(m), other), after),
        call_ensures(TextMap::get, (final(m), key), own),
    ensures
        own matches Some(s) && s@ == v@,
        (before is Some) == (after is Some),
        before is Some ==> before->0@ == after->0@,
{
}

} // verus!
