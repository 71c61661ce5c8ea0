//! Reading of setting values from text.
//!
//! An overlay takes the text that a source gives for a setting, if it gives
//! any, and the value so far: text that does not read as a value of the
//! setting leaves the value as it is.

use vstd::hash_map::StringHashMap;
use vstd::prelude::*;
use vstd::string::*;

use crate::auth::auth_type_named;
use crate::auth::AuthType;
use crate::clock::Duration;
use crate::config::kinds::evictor_named;
use crate::config::kinds::write_type_named;
use crate::config::kinds::CacheEvictorType;
use crate::config::kinds::WriteType;
use crate::text::describe_numeral_error;
use crate::text::lower;
use crate::text::lowered;
use crate::text::numeral_error_text;
use crate::text::parse_unsigned;
use crate::text::pieces;
use crate::text::same;
use crate::text::split;
use crate::text::trim;
use crate::text::trimmed;
use crate::text::unsigned_value;
use crate::text::views;

verus! {

/// Texts by name: the properties of a file, or the variables of an environment.
pub struct TextMap {
    entries: StringHashMap<String>,
}

impl View for TextMap {
    type V = Map<Seq<char>, Seq<char>>;

    closed spec fn view(&self) -> Map<Seq<char>, Seq<char>> {
        self.entries@.map_values(|s: String| s@)
    }
}

/// The text under `key`, where there is one.
pub open spec fn text_at(m: Map<Seq<char>, Seq<char>>, key: Seq<char>) -> Option<Seq<char>> {
    if m.contains_key(key) {
        Some(m[key])
    } else {
        None
    }
}

/// The characters of an optional string.
pub open spec fn opt_view(o: Option<&str>) -> Option<Seq<char>> {
    match o {
        Some(s) => Some(s@),
        None => None,
    }
}

impl TextMap {
    /// A map without entries.
    pub fn new() -> (r: Self)
        ensures
            r@ == Map::<Seq<char>, Seq<char>>::empty(),
    {
        let r = TextMap { entries: StringHashMap::new() };
        proof {
            assert(r@ =~= Map::<Seq<char>, Seq<char>>::empty());
        }
        r
    }

    /// Sets the text under `key`.
    pub fn insert(&mut self, key: String, value: String)
        ensures
            final(self)@ == old(self)@.insert(key@, value@),
    {
        let ghost before = self.entries@;
        self.entries.insert(key, value);
        proof {
            assert(self@ =~= old(self)@.insert(key@, value@));
        }
    }

    /// The text under `key`, where there is one.
    pub fn get(&self, key: &str) -> (r: Option<&str>)
        ensures
            opt_view(r) == text_at(self@, key@),
    {
        match self.entries.get(key) {
            Some(s) => Some(s.as_str()),
            None => None,
        }
    }
}

/// The truth value that `s` spells.
pub open spec fn bool_spelled(s: Seq<char>) -> Option<bool> {
    if s == "true"@ {
        Some(true)
    } else if s == "false"@ {
        Some(false)
    } else {
        None
    }
}

/// The truth value that `s` spells.
pub fn parse_bool(s: &str) -> (r: Option<bool>)
    ensures
        r == bool_spelled(s@),
{
    if same(s, "true") {
        Some(true)
    } else if same(s, "false") {
        Some(false)
    } else {
        None
    }
}

/// The nonempty items of a comma-separated list, without the white space
/// around them.
pub open spec fn items(list: Seq<Seq<char>>) -> Seq<Seq<char>>
    decreases list.len(),
{
    if list.len() == 0 {
        Seq::empty()
    } else if trimmed(list.last()).len() == 0 {
        items(list.drop_last())
    } else {
        items(list.drop_last()).push(trimmed(list.last()))
    }
}

/// The items of the comma-separated list `s`.
pub open spec fn listed(s: Seq<char>) -> Seq<Seq<char>> {
    items(pieces(s, ','))
}

/// The items of the comma-separated list `s`.
pub fn parse_list(s: &str) -> (r: Vec<String>)
    ensures
        views(r@) == listed(s@),
{
    let parts = split(s, ',');
    let ghost whole = pieces(s@, ',');
    let mut out: Vec<String> = Vec::new();
    let mut i: usize = 0;
    proof {
        assert(views(out@) =~= items(whole.take(0)));
    }
    while i < parts.len()
        invariant
            i <= parts@.len(),
            views(parts@) == whole,
            views(out@) == items(whole.take(i as int)),
        decreases parts@.len() - i,
    {
        let t = trim(parts[i].as_str());
        proof {
            assert(whole[i as int] == parts@[i as int]@);
            assert(whole.take(i + 1).drop_last() =~= whole.take(i as int));
        }
        if !t.is_empty() {
            let ghost before = out@;
            out.push(t.to_owned());
            proof {
                assert(views(out@) =~= views(before).push(t@));
            }
        }
        i = i + 1;
    }
    proof {
        assert(whole.take(whole.len() as int) =~= whole);
    }
    out
}

/// `s` ends in the unit whose first letter is `u`, in either case.
pub open spec fn has_unit(s: Seq<char>, u: char) -> bool {
    let l = lowered(s);
    s.len() >= 2 && l[s.len() - 2] == u && l[s.len() - 1] == 'b'
}

/// The factor of the unit at the end of a byte size.
pub open spec fn unit_factor(s: Seq<char>) -> int {
    if has_unit(s, 'g') {
        0x4000_0000
    } else if has_unit(s, 'm') {
        0x10_0000
    } else if has_unit(s, 'k') {
        1024
    } else {
        1
    }
}

/// The text before the unit at the end of a byte size.
pub open spec fn unit_prefix(s: Seq<char>) -> Seq<char> {
    if has_unit(s, 'g') || has_unit(s, 'm') || has_unit(s, 'k') {
        s.take(s.len() - 2)
    } else {
        s
    }
}

/// The number of bytes that `s` stands for: a numeral, with or without a unit
/// `KB`, `MB` or `GB`; or the words that say what is wrong with it.
pub open spec fn byte_size(s: Seq<char>) -> Result<int, Seq<char>> {
    let t = trimmed(s);
    match unsigned_value(trimmed(unit_prefix(t)), u64::MAX as int) {
        Ok(n) => if n * unit_factor(t) > u64::MAX {
            Err("byte size '"@ + t + "' overflows u64"@)
        } else {
            Ok(n * unit_factor(t))
        },
        Err(e) => Err("invalid byte size '"@ + t + "': "@ + numeral_error_text(e)),
    }
}

/// Reads a byte size such as `64MB`, `512 kb` or `4096`.
pub fn parse_byte_size(s: &str) -> (r: Result<u64, String>)
    ensures
        match r {
            Ok(n) => byte_size(s@) == Ok::<int, Seq<char>>(n as int),
            Err(e) => byte_size(s@) == Err::<int, Seq<char>>(e@),
        },
{
    let t = trim(s);
    let l = lower(t);
    let n: usize = l.as_str().unicode_len();
    let mut factor: u64 = 1;
    let mut end: usize = n;
    if n >= 2 && l.as_str().get_char(n - 1) == 'b' {
        let u: char = l.as_str().get_char(n - 2);
        if u == 'g' {
            factor = 1024 * 1024 * 1024;
            end = n - 2;
        } else if u == 'm' {
            factor = 1024 * 1024;
            end = n - 2;
        } else if u == 'k' {
            factor = 1024;
            end = n - 2;
        }
    }
    let number = t.substring_char(0, end);
    proof {
        assert(number@ =~= unit_prefix(t@));
        assert(factor == unit_factor(t@));
    }
    match parse_unsigned(trim(number), u64::MAX) {
        Err(e) => {
            let mut m = String::new();
            m.append("invalid byte size '");
            m.append(t);
            m.append("': ");
            m.append(describe_numeral_error(e));
            Err(m)
        },
        Ok(v) => match v.checked_mul(factor) {
            Some(p) => Ok(p),
            None => {
                let mut m = String::new();
                m.append("byte size '");
                m.append(t);
                m.append("' overflows u64");
                Err(m)
            },
        },
    }
}

/// The text, if there is one and it is not empty, else `d`.
pub open spec fn text_or(v: Option<Seq<char>>, d: Seq<char>) -> Seq<char> {
    match v {
        Some(s) if s.len() > 0 => s,
        _ => d,
    }
}

/// `field`, replaced by the text, if there is one and it is not empty.
pub fn overlay_text(field: String, m: &TextMap, key: &str) -> (r: String)
    ensures
        r@ == text_or(text_at(m@, key@), field@),
{
    if let Some(s) = m.get(key) {
        if !s.is_empty() {
            return s.to_owned();
        }
    }
    field
}

/// The text, if there is one and it is not empty, else what `d` holds.
pub open spec fn opt_text_or(v: Option<Seq<char>>, d: Option<String>) -> Option<Seq<char>> {
    match v {
        Some(s) if s.len() > 0 => Some(s),
        _ => owned_view(d),
    }
}

/// The characters of an optional string.
pub open spec fn owned_view(o: Option<String>) -> Option<Seq<char>> {
    match o {
        Some(s) => Some(s@),
        None => None,
    }
}

/// `field`, replaced by the text, if there is one and it is not empty.
pub fn overlay_opt_text(field: Option<String>, m: &TextMap, key: &str) -> (r: Option<String>)
    ensures
        owned_view(r) == opt_text_or(text_at(m@, key@), field),
{
    if let Some(s) = m.get(key) {
        if !s.is_empty() {
            return Some(s.to_owned());
        }
    }
    field
}

/// The truth value that the text spells, else `d`.
pub open spec fn flag_or(v: Option<Seq<char>>, d: bool) -> bool {
    match v {
        Some(s) => match bool_spelled(s) {
            Some(b) => b,
            None => d,
        },
        None => d,
    }
}

/// `field`, replaced by the truth value that the text spells.
pub fn overlay_flag(field: bool, m: &TextMap, key: &str) -> (r: bool)
    ensures
        r == flag_or(text_at(m@, key@), field),
{
    if let Some(s) = m.get(key) {
        if let Some(b) = parse_bool(s) {
            return b;
        }
    }
    field
}

/// The truth value that the text spells in any case of its letters, else `d`.
pub open spec fn any_case_flag_or(v: Option<Seq<char>>, d: bool) -> bool {
    match v {
        Some(s) => match bool_spelled(lowered(s)) {
            Some(b) => b,
            None => d,
        },
        None => d,
    }
}

/// `field`, replaced by the truth value that the text spells in any case.
pub fn overlay_any_case_flag(field: bool, m: &TextMap, key: &str) -> (r: bool)
    ensures
        r == any_case_flag_or(text_at(m@, key@), field),
{
    if let Some(s) = m.get(key) {
        if let Some(b) = parse_bool(lower(s).as_str()) {
            return b;
        }
    }
    field
}

/// The number in `min ..= max` that the text spells, else `d`.
pub open spec fn number_or(v: Option<Seq<char>>, min: int, max: int, d: int) -> int {
    match v {
        Some(s) => match unsigned_value(s, max) {
            Ok(n) => if n >= min {
                n
            } else {
                d
            },
            Err(_) => d,
        },
        None => d,
    }
}

/// The number in `min ..= max` that the text spells, else `d`.
pub fn overlay_number(m: &TextMap, key: &str, min: u64, max: u64, d: u64) -> (r: u64)
    ensures
        r == number_or(text_at(m@, key@), min as int, max as int, d as int),
        r == d || r <= max,
{
    if let Some(s) = m.get(key) {
        if let Ok(n) = parse_unsigned(s, max) {
            if n >= min {
                return n;
            }
        }
    }
    d
}

/// The byte size of at least `min` that the text spells, else `d`.
pub open spec fn size_or(v: Option<Seq<char>>, min: int, d: int) -> int {
    match v {
        Some(s) => match byte_size(s) {
            Ok(n) => if n >= min {
                n
            } else {
                d
            },
            Err(_) => d,
        },
        None => d,
    }
}

/// The byte size of at least `min` that the text spells, else `d`.
pub fn overlay_size(m: &TextMap, key: &str, min: u64, d: u64) -> (r: u64)
    ensures
        r == size_or(text_at(m@, key@), min as int, d as int),
{
    if let Some(s) = m.get(key) {
        if let Ok(n) = parse_byte_size(s) {
            if n >= min {
                return n;
            }
        }
    }
    d
}

/// The number of milliseconds, at least `min`, that the text spells, else `d`.
pub open spec fn millis_or(v: Option<Seq<char>>, min: int, d: Duration) -> Duration {
    match v {
        Some(s) => match unsigned_value(s, u64::MAX as int) {
            Ok(n) => if n >= min {
                Duration::millis(n)
            } else {
                d
            },
            Err(_) => d,
        },
        None => d,
    }
}

/// The number of milliseconds, at least `min`, that the text spells, else `d`.
pub fn overlay_millis(m: &TextMap, key: &str, min: u64, d: Duration) -> (r: Duration)
    ensures
        r == millis_or(text_at(m@, key@), min as int, d),
{
    if let Some(s) = m.get(key) {
        if let Ok(n) = parse_unsigned(s, u64::MAX) {
            if n >= min {
                return Duration::from_millis(n);
            }
        }
    }
    d
}

/// The items that the text lists, if it lists any, else `d`.
pub open spec fn list_or(v: Option<Seq<char>>, d: Seq<Seq<char>>) -> Seq<Seq<char>> {
    match v {
        Some(s) if listed(s).len() > 0 => listed(s),
        _ => d,
    }
}

/// `field`, replaced by the items that the text lists, if it lists any.
pub fn overlay_list(field: Vec<String>, m: &TextMap, key: &str) -> (r: Vec<String>)
    ensures
        views(r@) == list_or(text_at(m@, key@), views(field@)),
{
    if let Some(s) = m.get(key) {
        let l = parse_list(s);
        proof {
            assert(views(l@).len() == l@.len());
        }
        if l.len() > 0 {
            return l;
        }
    }
    field
}

/// The authentication type that the text names, else `d`.
pub open spec fn auth_type_or(v: Option<Seq<char>>, d: AuthType) -> AuthType {
    match v {
        Some(s) => match auth_type_named(s) {
            Some(t) => t,
            None => d,
        },
        None => d,
    }
}

/// `field`, replaced by the authentication type that the text names.
pub fn overlay_auth_type(field: AuthType, m: &TextMap, key: &str) -> (r: AuthType)
    ensures
        r == auth_type_or(text_at(m@, key@), field),
{
    if let Some(s) = m.get(key) {
        if let Ok(t) = AuthType::parse_name(s) {
            return t;
        }
    }
    field
}

/// The number of the write type that the text names, else `d`.
pub open spec fn write_type_or(v: Option<Seq<char>>, d: Option<i32>) -> Option<i32> {
    match v {
        Some(s) => match write_type_named(s) {
            Some(t) => Some(t.proto().number()),
            None => d,
        },
        None => d,
    }
}

/// `field`, replaced by the number of the write type that the text names.
pub fn overlay_write_type(field: Option<i32>, m: &TextMap, key: &str) -> (r: Option<i32>)
    ensures
        r == write_type_or(text_at(m@, key@), field),
{
    if let Some(s) = m.get(key) {
        if let Ok(t) = WriteType::parse_name(s) {
            return Some(t.as_i32());
        }
    }
    field
}

/// The eviction policy that the text names, else `d`.
pub open spec fn evictor_or(v: Option<Seq<char>>, d: CacheEvictorType) -> CacheEvictorType {
    match v {
        Some(s) => match evictor_named(s) {
            Some(t) => t,
            None => d,
        },
        None => d,
    }
}

/// `field`, replaced by the eviction policy that the text names.
pub fn overlay_evictor(field: CacheEvictorType, m: &TextMap, key: &str) -> (r: CacheEvictorType)
    ensures
        r == evictor_or(text_at(m@, key@), field),
{
    if let Some(s) = m.get(key) {
        if let Ok(t) = CacheEvictorType::parse_name(s) {
            return t;
        }
    }
    field
}

} // verus!
