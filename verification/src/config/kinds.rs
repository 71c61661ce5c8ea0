//! Enumerated settings: the page-cache evictor and the write type.

use vstd::prelude::*;
use vstd::string::*;

use crate::proto::WritePType;
use crate::text::lower;
use crate::text::lowered;
use crate::text::same;
use crate::text::trim;
use crate::text::trimmed;
use crate::text::upper;
use crate::text::uppered;

verus! {

/// Page-cache eviction policy.
#[derive(Debug, Clone, Copy, PartialEq, Eq, Structural, Hash)]
pub enum CacheEvictorType {
    /// Least recently used.
    Lru,
    /// Least frequently used.
    Lfu,
}

impl Default for CacheEvictorType {
    fn default() -> (r: Self)
        ensures
            r == CacheEvictorType::Lru,
    {
        CacheEvictorType::Lru
    }
}

/// The eviction policy that `s` names, in any case of its letters and with
/// white space around it.
pub open spec fn evictor_named(s: Seq<char>) -> Option<CacheEvictorType> {
    if lowered(trimmed(s)) == "lru"@ {
        Some(CacheEvictorType::Lru)
    } else if lowered(trimmed(s)) == "lfu"@ {
        Some(CacheEvictorType::Lfu)
    } else {
        None
    }
}

impl CacheEvictorType {
    /// The eviction policy that `s` names, in any case of its letters and with
    /// white space around it.
    pub fn parse_name(s: &str) -> (r: Result<CacheEvictorType, String>)
        ensures
            match evictor_named(s@) {
                Some(t) => r == Ok::<CacheEvictorType, String>(t),
                None => r matches Err(e) && e@ == "unknown cache evictor type: "@ + uppered(
                    trimmed(s@),
                ),
            },
    {
        let t = trim(s);
        let l = lower(t);
        if same(l.as_str(), "lru") {
            Ok(CacheEvictorType::Lru)
        } else if same(l.as_str(), "lfu") {
            Ok(CacheEvictorType::Lfu)
        } else {
            let mut e = String::new();
            e.append("unknown cache evictor type: ");
            e.append(upper(t).as_str());
            Err(e)
        }
    }
}

impl std::str::FromStr for CacheEvictorType {
    type Err = String;

    fn from_str(s: &str) -> (r: Result<Self, String>)
        ensures
            match evictor_named(s@) {
                Some(t) => r == Ok::<CacheEvictorType, String>(t),
                None => r matches Err(e) && e@ == "unknown cache evictor type: "@ + uppered(
                    trimmed(s@),
                ),
            },
    {
        CacheEvictorType::parse_name(s)
    }
}

/// Write type of a new file.
#[derive(Debug, Clone, Copy, PartialEq, Eq, Structural, Hash)]
pub enum WriteType {
    /// Write to the cache only.
    MustCache,
    /// Write to the cache, or through if the cache is full.
    TryCache,
    /// Write to the cache and to the storage.
    CacheThrough,
    /// Write to the storage only.
    Through,
    /// Write to the cache now and to the storage later.
    AsyncThrough,
}

impl WriteType {
    /// All write types.
    pub const ALL: [WriteType; 5] = [
        WriteType::MustCache,
        WriteType::TryCache,
        WriteType::CacheThrough,
        WriteType::Through,
        WriteType::AsyncThrough,
    ];

    /// The lower-case name of the write type.
    pub open spec fn name(self) -> Seq<char> {
        match self {
            WriteType::MustCache => "must_cache"@,
            WriteType::TryCache => "try_cache"@,
            WriteType::CacheThrough => "cache_through"@,
            WriteType::Through => "through"@,
            WriteType::AsyncThrough => "async_through"@,
        }
    }

    /// The write type of the protocol.
    pub open spec fn proto(self) -> WritePType {
        match self {
            WriteType::MustCache => WritePType::MustCache,
            WriteType::TryCache => WritePType::TryCache,
            WriteType::CacheThrough => WritePType::CacheThrough,
            WriteType::Through => WritePType::Through,
            WriteType::AsyncThrough => WritePType::AsyncThrough,
        }
    }

    /// The lower-case name of the write type.
    pub fn as_str(&self) -> (r: &'static str)
        ensures
            r@ == self.name(),
    {
        match self {
            WriteType::MustCache => "must_cache",
            WriteType::TryCache => "try_cache",
            WriteType::CacheThrough => "cache_through",
            WriteType::Through => "through",
            WriteType::AsyncThrough => "async_through",
        }
    }

    /// The name of the write type, as an owned string.
    pub fn to_string(&self) -> (r: String)
        ensures
            r@ == self.name(),
    {
        self.as_str().to_owned()
    }

    /// The number of the write type in the protocol.
    pub fn as_i32(&self) -> (r: i32)
        ensures
            r == self.proto().number(),
    {
        WritePType::from(*self).as_i32()
    }

    /// The write type that `s` names, in any case of its letters.
    pub fn parse_name(s: &str) -> (r: Result<WriteType, String>)
        ensures
            match write_type_named(s@) {
                Some(t) => r == Ok::<WriteType, String>(t),
                None => r matches Err(e) && e@ == unknown_write_type(s@),
            },
    {
        let l = lower(s);
        if same(l.as_str(), "must_cache") {
            Ok(WriteType::MustCache)
        } else if same(l.as_str(), "try_cache") {
            Ok(WriteType::TryCache)
        } else if same(l.as_str(), "cache_through") {
            Ok(WriteType::CacheThrough)
        } else if same(l.as_str(), "through") {
            Ok(WriteType::Through)
        } else if same(l.as_str(), "async_through") {
            Ok(WriteType::AsyncThrough)
        } else {
            let mut e = String::new();
            e.append("unknown write type '");
            e.append(s);
            e.append("'. Expected one of: must_cache, try_cache, cache_through, through, async_through");
            Err(e)
        }
    }

    /// The write type of a protocol value; the values 0 and 6 stand for none.
    pub fn try_from_proto(pt: WritePType) -> (r: Result<Self, String>)
        ensures
            match r {
                Ok(t) => t.proto() == pt,
                Err(e) => (pt is UnspecifiedWriteType || pt is NoneWriteType) && e@
                    == "cannot convert WritePType::"@ + (if pt is UnspecifiedWriteType {
                    "UnspecifiedWriteType"@
                } else {
                    "None"@
                }) + " to WriteType"@,
            },
    {
        match pt {
            WritePType::MustCache => Ok(WriteType::MustCache),
            WritePType::TryCache => Ok(WriteType::TryCache),
            WritePType::CacheThrough => Ok(WriteType::CacheThrough),
            WritePType::Through => Ok(WriteType::Through),
            WritePType::AsyncThrough => Ok(WriteType::AsyncThrough),
            WritePType::UnspecifiedWriteType => {
                let mut e = String::new();
                e.append("cannot convert WritePType::");
                e.append("UnspecifiedWriteType");
                e.append(" to WriteType");
                Err(e)
            },
            WritePType::NoneWriteType => {
                let mut e = String::new();
                e.append("cannot convert WritePType::");
                e.append("None");
                e.append(" to WriteType");
                Err(e)
            },
        }
    }
}

/// The write type that `s` names, in any case of its letters.
pub open spec fn write_type_named(s: Seq<char>) -> Option<WriteType> {
    if lowered(s) == "must_cache"@ {
        Some(WriteType::MustCache)
    } else if lowered(s) == "try_cache"@ {
        Some(WriteType::TryCache)
    } else if lowered(s) == "cache_through"@ {
        Some(WriteType::CacheThrough)
    } else if lowered(s) == "through"@ {
        Some(WriteType::Through)
    } else if lowered(s) == "async_through"@ {
        Some(WriteType::AsyncThrough)
    } else {
        None
    }
}

/// The words for a name that is no write type.
pub open spec fn unknown_write_type(s: Seq<char>) -> Seq<char> {
    "unknown write type '"@ + s
        + "'. Expected one of: must_cache, try_cache, cache_through, through, async_through"@
}

impl std::str::FromStr for WriteType {
    type Err = String;

    fn from_str(s: &str) -> (r: Result<Self, String>)
        ensures
            match write_type_named(s@) {
                Some(t) => r == Ok::<WriteType, String>(t),
                None => r matches Err(e) && e@ == unknown_write_type(s@),
            },
    {
        WriteType::parse_name(s)
    }
}

impl vstd::std_specs::convert::FromSpecImpl<WriteType> for WritePType {
    open spec fn obeys_from_spec() -> bool {
        true
    }

    open spec fn from_spec(wt: WriteType) -> WritePType {
        wt.proto()
    }
}

impl From<WriteType> for WritePType {
    fn from(wt: WriteType) -> (r: Self) {
        match wt {
            WriteType::MustCache => WritePType::MustCache,
            WriteType::TryCache => WritePType::TryCache,
            WriteType::CacheThrough => WritePType::CacheThrough,
            WriteType::Through => WritePType::Through,
            WriteType::AsyncThrough => WritePType::AsyncThrough,
        }
    }
}

/// A write type survives the way to the protocol and back.
pub proof fn law_write_type_round_trip(a: WriteType, b: WriteType)
    ensures
        a.proto() == b.proto() ==> a == b,
        1 <= a.proto().number() <= 5,
        a.proto().number() == b.proto().number() ==> a == b,
{
}

/// Reading the name of a write type gives that write type.
pub proof fn law_write_type_name_is_read_back(t: WriteType)
    ensures
        write_type_named(t.name()) == Some(t),
{
    reveal_strlit("must_cache");
    reveal_strlit("try_cache");
    reveal_strlit("cache_through");
    reveal_strlit("through");
    reveal_strlit("async_through");
    assert(lowered(t.name()) =~= t.name());
    assert("must_cache"@[0] == 'm' && "try_cache"@[1] == 'r' && "cache_through"@[0] == 'c'
        && "through"@[1] == 'h' && "async_through"@[0] == 'a' && "try_cache"@[0] == 't'
        && "through"@[0] == 't');
}

} // verus!
