//! Text helpers: whitespace trimming, searching, decimal numerals.
//!
//! Every function is specified on the character sequence of its argument.

use vstd::prelude::*;
use vstd::string::*;

verus! {

/// `String::push` appends the character at the end of the string.
pub assume_specification[ String::push ](s: &mut String, c: char)
    ensures
        final(s)@ == old(s)@.push(c),
;

/// The characters with the Unicode `White_Space` property.
pub open spec fn is_white(c: char) -> bool {
    let u = c as u32;
    ||| 0x09 <= u <= 0x0d
    ||| u == 0x20
    ||| u == 0x85
    ||| u == 0xa0
    ||| u == 0x1680
    ||| 0x2000 <= u <= 0x200a
    ||| u == 0x2028
    ||| u == 0x2029
    ||| u == 0x202f
    ||| u == 0x205f
    ||| u == 0x3000
}

/// Tells whether `c` is Unicode white space.
pub fn is_whitespace(c: char) -> (r: bool)
    ensures
        r == is_white(c),
{
    let u: u32 = c as u32;
    (0x09 <= u && u <= 0x0d) || u == 0x20 || u == 0x85 || u == 0xa0 || u == 0x1680 || (0x2000 <= u
        && u <= 0x200a) || u == 0x2028 || u == 0x2029 || u == 0x202f || u == 0x205f || u == 0x3000
}

/// `s` without its longest prefix of characters that satisfy `p`.
pub open spec fn drop_leading(s: Seq<char>, p: spec_fn(char) -> bool) -> Seq<char>
    decreases s.len(),
{
    if s.len() > 0 && p(s[0]) {
        drop_leading(s.drop_first(), p)
    } else {
        s
    }
}

/// `s` without its longest suffix of characters that satisfy `p`.
pub open spec fn drop_trailing(s: Seq<char>, p: spec_fn(char) -> bool) -> Seq<char>
    decreases s.len(),
{
    if s.len() > 0 && p(s.last()) {
        drop_trailing(s.drop_last(), p)
    } else {
        s
    }
}

/// The predicate of white space.
pub open spec fn white() -> spec_fn(char) -> bool {
    |c: char| is_white(c)
}

/// The predicate of one character.
pub open spec fn only(d: char) -> spec_fn(char) -> bool {
    |c: char| c == d
}

/// `s` without leading and trailing white space.
pub open spec fn trimmed(s: Seq<char>) -> Seq<char> {
    drop_trailing(drop_leading(s, white()), white())
}

/// The characters of `s`, in order.
pub fn chars_of(s: &str) -> (r: Vec<char>)
    ensures
        r@ == s@,
{
    let mut out: Vec<char> = Vec::new();
    for c in it: s.chars()
        invariant
            it.seq() == s@,
            out@ == s@.take(it.index()),
    {
        proof {
            assert(s@.take(it.index() + 1) =~= s@.take(it.index()).push(c));
        }
        out.push(c);
    }
    proof {
        assert(s@.take(s@.len() as int) =~= s@);
    }
    out
}

/// `s` without leading and trailing white space.
pub fn trim(s: &str) -> (r: &str)
    ensures
        r@ == trimmed(s@),
{
    let v = chars_of(s);
    let n: usize = v.len();
    let mut a: usize = 0;
    proof {
        assert(s@.subrange(0, n as int) =~= s@);
    }
    while a < n && is_whitespace(v[a])
        invariant
            a <= n,
            n == v.len(),
            v@ == s@,
            drop_leading(s@, white()) == drop_leading(s@.subrange(a as int, n as int), white()),
        decreases n - a,
    {
        proof {
            assert(s@.subrange(a as int, n as int).drop_first() =~= s@.subrange(
                a + 1,
                n as int,
            ));
        }
        a = a + 1;
    }
    let ghost mid = s@.subrange(a as int, n as int);
    let mut b: usize = n;
    while b > a && is_whitespace(v[b - 1])
        invariant
            a <= b <= n,
            n == v.len(),
            v@ == s@,
            mid == s@.subrange(a as int, n as int),
            drop_trailing(mid, white()) == drop_trailing(
                s@.subrange(a as int, b as int),
                white(),
            ),
        decreases b,
    {
        proof {
            assert(s@.subrange(a as int, b as int).drop_last() =~= s@.subrange(
                a as int,
                b - 1,
            ));
        }
        b = b - 1;
    }
    s.substring_char(a, b)
}

/// `s` without the copies of `d` at its start.
pub fn trim_start_char(s: &str, d: char) -> (r: &str)
    ensures
        r@ == drop_leading(s@, only(d)),
{
    let v = chars_of(s);
    let n: usize = v.len();
    let mut a: usize = 0;
    proof {
        assert(s@.subrange(0, n as int) =~= s@);
    }
    while a < n && v[a] == d
        invariant
            a <= n,
            n == v.len(),
            v@ == s@,
            drop_leading(s@, only(d)) == drop_leading(s@.subrange(a as int, n as int), only(d)),
        decreases n - a,
    {
        proof {
            assert(s@.subrange(a as int, n as int).drop_first() =~= s@.subrange(
                a + 1,
                n as int,
            ));
        }
        a = a + 1;
    }
    s.substring_char(a, n)
}

/// `s` without the copies of `d` at its end.
pub fn trim_end_char(s: &str, d: char) -> (r: &str)
    ensures
        r@ == drop_trailing(s@, only(d)),
{
    let v = chars_of(s);
    let n: usize = v.len();
    let mut b: usize = n;
    proof {
        assert(s@.subrange(0, n as int) =~= s@);
    }
    while b > 0 && v[b - 1] == d
        invariant
            b <= n,
            n == v.len(),
            v@ == s@,
            drop_trailing(s@, only(d)) == drop_trailing(s@.subrange(0, b as int), only(d)),
        decreases b,
    {
        proof {
            assert(s@.subrange(0, b as int).drop_last() =~= s@.subrange(0, b - 1));
        }
        b = b - 1;
    }
    s.substring_char(0, b)
}

/// Tells whether the two strings hold the same characters.
pub fn same(a: &str, b: &str) -> (r: bool)
    ensures
        r == (a@ == b@),
{
    let x = chars_of(a);
    let y = chars_of(b);
    if x.len() != y.len() {
        return false;
    }
    let mut i: usize = 0;
    while i < x.len()
        invariant
            i <= x.len(),
            x.len() == y.len(),
            x@ == a@,
            y@ == b@,
            forall|j: int| 0 <= j < i ==> x@[j] == y@[j],
        decreases x.len() - i,
    {
        if x[i] != y[i] {
            return false;
        }
        i = i + 1;
    }
    proof {
        assert(a@ =~= b@);
    }
    true
}

/// `needle` occurs in `s` at position `i`.
pub open spec fn occurs_at(s: Seq<char>, needle: Seq<char>, i: int) -> bool {
    0 <= i && i + needle.len() <= s.len() && s.subrange(i, i + needle.len()) == needle
}

/// `needle` occurs in `s`.
pub open spec fn occurs_in(s: Seq<char>, needle: Seq<char>) -> bool {
    exists|i: int| occurs_at(s, needle, i)
}

/// Tells whether `needle` occurs in `s`.
pub fn contains(s: &str, needle: &str) -> (r: bool)
    ensures
        r == occurs_in(s@, needle@),
{
    let v = chars_of(s);
    let w = chars_of(needle);
    if w.len() > v.len() {
        return false;
    }
    let last: usize = v.len() - w.len();
    let mut i: usize = 0;
    while i <= last
        invariant
            i <= last + 1,
            last + w.len() == v.len(),
            v@ == s@,
            w@ == needle@,
            forall|j: int| 0 <= j < i ==> !#[trigger] occurs_at(s@, needle@, j),
        decreases last + 1 - i,
    {
        let mut k: usize = 0;
        while k < w.len() && v[i + k] == w[k]
            invariant
                k <= w.len(),
                i <= last,
                last + w.len() == v.len(),
                forall|j: int| 0 <= j < k ==> v@[i + j] == w@[j],
            decreases w.len() - k,
        {
            k = k + 1;
        }
        if k == w.len() {
            proof {
                assert(s@.subrange(i as int, i + needle@.len()) =~= needle@);
                assert(occurs_at(s@, needle@, i as int));
            }
            return true;
        }
        proof {
            assert(s@.subrange(i as int, i + needle@.len())[k as int] != needle@[k as int]);
        }
        if i == last {
            return false;
        }
        i = i + 1;
    }
    false
}

/// The position of the first `d` at or after `from`, or the length of `s`.
pub open spec fn first_from(s: Seq<char>, d: char, from: int) -> int
    decreases s.len() - from,
{
    if from >= s.len() {
        s.len() as int
    } else if s[from] == d {
        from
    } else {
        first_from(s, d, from + 1)
    }
}

/// The position of the last `d` before `end`, or `-1`.
pub open spec fn last_before(s: Seq<char>, d: char, end: int) -> int
    decreases end,
{
    if end <= 0 {
        -1
    } else if s[end - 1] == d {
        end - 1
    } else {
        last_before(s, d, end - 1)
    }
}

/// `first_from` is where `d` first stands, or the length if it stands nowhere.
pub proof fn lemma_first_from(s: Seq<char>, d: char, from: int)
    requires
        0 <= from <= s.len(),
    ensures
        from <= first_from(s, d, from) <= s.len(),
        forall|i: int| from <= i < first_from(s, d, from) ==> s[i] != d,
        first_from(s, d, from) < s.len() ==> s[first_from(s, d, from)] == d,
    decreases s.len() - from,
{
    if from < s.len() && s[from] != d {
        lemma_first_from(s, d, from + 1);
    }
}

/// The position of the first `d` in `v` at or after `from`, or the length of `v`.
pub fn find_char_from(v: &Vec<char>, d: char, from: usize) -> (r: usize)
    requires
        from <= v.len(),
    ensures
        r == first_from(v@, d, from as int),
        from <= r <= v.len(),
{
    let mut i: usize = from;
    while i < v.len() && v[i] != d
        invariant
            from <= i <= v.len(),
            first_from(v@, d, from as int) == first_from(v@, d, i as int),
        decreases v.len() - i,
    {
        i = i + 1;
    }
    i
}

/// The ASCII lower case of `c`.
pub open spec fn ascii_lower(c: char) -> char {
    if 'A' <= c && c <= 'Z' {
        ((c as u32 + 32) as u32) as char
    } else {
        c
    }
}

/// `s` with its ASCII capitals in lower case.
pub open spec fn lowered(s: Seq<char>) -> Seq<char> {
    s.map_values(|c: char| ascii_lower(c))
}

/// The ASCII lower case of `c`.
pub fn to_lower(c: char) -> (r: char)
    ensures
        r == ascii_lower(c),
{
    if 'A' <= c && c <= 'Z' {
        ((c as u8) + 32) as char
    } else {
        c
    }
}

/// `s` with its ASCII capitals in lower case.
pub fn lower(s: &str) -> (r: String)
    ensures
        r@ == lowered(s@),
{
    let v = chars_of(s);
    let mut out = String::new();
    let mut i: usize = 0;
    while i < v.len()
        invariant
            i <= v.len(),
            v@ == s@,
            out@ == lowered(s@.take(i as int)),
        decreases v.len() - i,
    {
        proof {
            assert(lowered(s@.take(i + 1)) =~= lowered(s@.take(i as int)).push(
                ascii_lower(s@[i as int]),
            ));
        }
        out.push(to_lower(v[i]));
        i = i + 1;
    }
    proof {
        assert(s@.take(s@.len() as int) =~= s@);
    }
    out
}

/// The ASCII upper case of `c`.
pub open spec fn ascii_upper(c: char) -> char {
    if 'a' <= c && c <= 'z' {
        ((c as u32 - 32) as u32) as char
    } else {
        c
    }
}

/// `s` with its ASCII small letters in upper case.
pub open spec fn uppered(s: Seq<char>) -> Seq<char> {
    s.map_values(|c: char| ascii_upper(c))
}

/// `s` with its ASCII small letters in upper case.
pub fn upper(s: &str) -> (r: String)
    ensures
        r@ == uppered(s@),
{
    let v = chars_of(s);
    let mut out = String::new();
    let mut i: usize = 0;
    while i < v.len()
        invariant
            i <= v.len(),
            v@ == s@,
            out@ == uppered(s@.take(i as int)),
        decreases v.len() - i,
    {
        let c: char = v[i];
        proof {
            assert(uppered(s@.take(i + 1)) =~= uppered(s@.take(i as int)).push(
                ascii_upper(s@[i as int]),
            ));
        }
        if 'a' <= c && c <= 'z' {
            out.push(((c as u8) - 32) as char);
        } else {
            out.push(c);
        }
        i = i + 1;
    }
    proof {
        assert(s@.take(s@.len() as int) =~= s@);
    }
    out
}

/// The character of the decimal digit `d`.
pub open spec fn digit_char(d: nat) -> char {
    ((0x30 + d) as u32) as char
}

/// The decimal numeral of `n`, without leading zeros.
pub open spec fn decimal(n: nat) -> Seq<char>
    decreases n,
{
    if n < 10 {
        seq![digit_char(n)]
    } else {
        decimal(n / 10).push(digit_char(n % 10))
    }
}

/// The decimal numeral of `n`, with a leading `-` if it is negative.
pub open spec fn decimal_int(n: int) -> Seq<char> {
    if n < 0 {
        seq!['-'] + decimal((-n) as nat)
    } else {
        decimal(n as nat)
    }
}

/// Appends the decimal numeral of `n`.
pub fn push_decimal(out: &mut String, n: u128)
    ensures
        final(out)@ == old(out)@ + decimal(n as nat),
    decreases n,
{
    if n >= 10 {
        push_decimal(out, n / 10);
    }
    let d: u8 = (n % 10) as u8;
    out.push((48 + d) as char);
    proof {
        if n >= 10 {
            assert(out@ =~= old(out)@ + decimal(n as nat));
        } else {
            assert(out@ =~= old(out)@ + seq![digit_char(n as nat)]);
        }
    }
}

/// Appends the decimal numeral of `n`, with a leading `-` if it is negative.
pub fn push_decimal_i64(out: &mut String, n: i64)
    ensures
        final(out)@ == old(out)@ + decimal_int(n as int),
{
    if n < 0 {
        out.push('-');
        let m: i128 = -(n as i128);
        push_decimal(out, m as u128);
        proof {
            assert(out@ =~= old(out)@ + (seq!['-'] + decimal((-n) as nat)));
        }
    } else {
        push_decimal(out, n as u128);
    }
}

/// Why a numeral was refused.
#[derive(Debug, Clone, Copy, PartialEq, Eq, Structural)]
pub enum NumeralError {
    /// There is no character.
    Empty,
    /// A character is not a digit.
    InvalidDigit,
    /// The number is above the largest value of the type.
    PosOverflow,
    /// The number is below the smallest value of the type.
    NegOverflow,
}

/// The words that describe a refused numeral.
pub open spec fn numeral_error_text(e: NumeralError) -> Seq<char> {
    match e {
        NumeralError::Empty => "cannot parse integer from empty string"@,
        NumeralError::InvalidDigit => "invalid digit found in string"@,
        NumeralError::PosOverflow => "number too large to fit in target type"@,
        NumeralError::NegOverflow => "number too small to fit in target type"@,
    }
}

/// The words that describe a refused numeral.
pub fn describe_numeral_error(e: NumeralError) -> (r: &'static str)
    ensures
        r@ == numeral_error_text(e),
{
    match e {
        NumeralError::Empty => "cannot parse integer from empty string",
        NumeralError::InvalidDigit => "invalid digit found in string",
        NumeralError::PosOverflow => "number too large to fit in target type",
        NumeralError::NegOverflow => "number too small to fit in target type",
    }
}

/// `c` is a decimal digit.
pub open spec fn is_digit(c: char) -> bool {
    '0' <= c && c <= '9'
}

/// The number that the digits of `s` spell behind the number `acc`; the first
/// character that is no digit, or that takes the number above `max`, decides
/// the error.
pub open spec fn digits_value(s: Seq<char>, acc: int, max: int) -> Result<int, NumeralError>
    decreases s.len(),
{
    if s.len() == 0 {
        Ok(acc)
    } else if !is_digit(s[0]) {
        Err(NumeralError::InvalidDigit)
    } else if acc * 10 + (s[0] as u32 - 0x30) > max {
        Err(NumeralError::PosOverflow)
    } else {
        digits_value(s.drop_first(), acc * 10 + (s[0] as u32 - 0x30), max)
    }
}

/// The value of an unsigned numeral: digits behind an optional `+`.
pub open spec fn unsigned_value(s: Seq<char>, max: int) -> Result<int, NumeralError> {
    if s.len() == 0 {
        Err(NumeralError::Empty)
    } else if s.len() == 1 && (s[0] == '+' || s[0] == '-') {
        Err(NumeralError::InvalidDigit)
    } else if s[0] == '+' {
        digits_value(s.drop_first(), 0, max)
    } else {
        digits_value(s, 0, max)
    }
}

/// The value of a signed numeral in `-(max + 1) ..= max`: digits behind an
/// optional sign.
pub open spec fn signed_value(s: Seq<char>, max: int) -> Result<int, NumeralError> {
    if s.len() > 1 && s[0] == '-' {
        match digits_value(s.drop_first(), 0, max + 1) {
            Ok(v) => Ok(-v),
            Err(NumeralError::PosOverflow) => Err(NumeralError::NegOverflow),
            Err(e) => Err(e),
        }
    } else {
        unsigned_value(s, max)
    }
}

/// Reads the digits of `v` from position `from` on.
fn read_digits(v: &Vec<char>, from: usize, max: u64) -> (r: Result<u64, NumeralError>)
    requires
        from <= v.len(),
    ensures
        (match r {
            Ok(n) => Ok(n as int),
            Err(e) => Err::<int, NumeralError>(e),
        }) == digits_value(v@.skip(from as int), 0, max as int),
        r matches Ok(n) ==> n <= max,
{
    let mut acc: u64 = 0;
    let mut i: usize = from;
    while i < v.len()
        invariant
            from <= i <= v.len(),
            acc <= max,
            digits_value(v@.skip(from as int), 0, max as int) == digits_value(
                v@.skip(i as int),
                acc as int,
                max as int,
            ),
        decreases v.len() - i,
    {
        let c: char = v[i];
        proof {
            assert(v@.skip(i as int)[0] == c);
            assert(v@.skip(i as int).drop_first() =~= v@.skip(i + 1));
        }
        if !('0' <= c && c <= '9') {
            return Err(NumeralError::InvalidDigit);
        }
        let next: u128 = (acc as u128) * 10 + (c as u32 - 48) as u128;
        if next > max as u128 {
            return Err(NumeralError::PosOverflow);
        }
        acc = next as u64;
        i = i + 1;
    }
    Ok(acc)
}

/// Reads an unsigned numeral of at most `max`.
pub fn parse_unsigned(s: &str, max: u64) -> (r: Result<u64, NumeralError>)
    ensures
        (match r {
            Ok(n) => Ok(n as int),
            Err(e) => Err::<int, NumeralError>(e),
        }) == unsigned_value(s@, max as int),
        r matches Ok(n) ==> n <= max,
{
    let v = chars_of(s);
    if v.len() == 0 {
        return Err(NumeralError::Empty);
    }
    if v.len() == 1 && (v[0] == '+' || v[0] == '-') {
        return Err(NumeralError::InvalidDigit);
    }
    proof {
        assert(v@.skip(0) =~= v@);
        assert(v@.skip(1) =~= v@.drop_first());
    }
    if v[0] == '+' {
        read_digits(&v, 1, max)
    } else {
        read_digits(&v, 0, max)
    }
}

/// Reads a signed numeral in `-(max + 1) ..= max`.
pub fn parse_signed(s: &str, max: i64) -> (r: Result<i64, NumeralError>)
    requires
        max >= 0,
    ensures
        (match r {
            Ok(n) => Ok(n as int),
            Err(e) => Err::<int, NumeralError>(e),
        }) == signed_value(s@, max as int),
        r matches Ok(n) ==> -(max + 1) <= n <= max,
{
    let v = chars_of(s);
    if v.len() > 1 && v[0] == '-' {
        proof {
            assert(v@.skip(1) =~= v@.drop_first());
        }
        match read_digits(&v, 1, max as u64 + 1) {
            Ok(n) => Ok((-(n as i128)) as i64),
            Err(NumeralError::PosOverflow) => Err(NumeralError::NegOverflow),
            Err(e) => Err(e),
        }
    } else {
        match parse_unsigned(s, max as u64) {
            Ok(n) => Ok(n as i64),
            Err(e) => Err(e),
        }
    }
}

/// The character sequences of a list of strings.
pub open spec fn views(v: Seq<String>) -> Seq<Seq<char>> {
    v.map_values(|x: String| x@)
}

/// The pieces of `s` between the copies of `d`.
pub open spec fn pieces(s: Seq<char>, d: char) -> Seq<Seq<char>>
    decreases s.len(),
    via pieces_decreases
{
    let i = first_from(s, d, 0);
    if i >= s.len() {
        seq![s]
    } else {
        seq![s.take(i)] + pieces(s.skip(i + 1), d)
    }
}

#[via_fn]
proof fn pieces_decreases(s: Seq<char>, d: char) {
    lemma_first_from(s, d, 0);
}

/// The pieces of `s` between the copies of `d`, in order.
pub fn split(s: &str, d: char) -> (r: Vec<String>)
    ensures
        views(r@) == pieces(s@, d),
{
    let v = chars_of(s);
    let n: usize = v.len();
    let mut out: Vec<String> = Vec::new();
    let mut a: usize = 0;
    proof {
        assert(s@.skip(0) =~= s@);
        assert(views(out@) + pieces(s@, d) =~= pieces(s@, d));
    }
    loop
        invariant
            a <= n,
            n == v.len(),
            v@ == s@,
            views(out@) + pieces(s@.skip(a as int), d) == pieces(s@, d),
        decreases n - a,
    {
        let b: usize = find_char_from(&v, d, a);
        proof {
            lemma_first_skip(s@, d, a as int);
        }
        let piece: String = s.substring_char(a, b).to_owned();
        let ghost before = out@;
        out.push(piece);
        proof {
            assert(views(out@) =~= views(before).push(piece@));
            assert(s@.subrange(a as int, b as int) =~= s@.skip(a as int).take(b - a));
        }
        if b >= n {
            proof {
                assert(s@.skip(a as int).take(b - a) =~= s@.skip(a as int));
                assert(views(out@) =~= views(before) + pieces(s@.skip(a as int), d));
            }
            return out;
        }
        proof {
            assert(s@.skip(a as int).skip(b - a + 1) =~= s@.skip(b + 1));
            assert(views(out@) + pieces(s@.skip(b + 1), d) =~= views(before) + pieces(
                s@.skip(a as int),
                d,
            ));
        }
        a = b + 1;
    }
}

/// Searching a suffix is searching the whole from where the suffix starts.
proof fn lemma_first_skip(s: Seq<char>, d: char, a: int)
    requires
        0 <= a <= s.len(),
    ensures
        first_from(s.skip(a), d, 0) == first_from(s, d, a) - a,
{
    lemma_first_from(s, d, a);
    lemma_first_from(s.skip(a), d, 0);
    let x = first_from(s, d, a) - a;
    let y = first_from(s.skip(a), d, 0);
    if x < y {
        assert(s.skip(a)[x] == s[x + a]);
    }
    if y < x {
        assert(s.skip(a)[y] == s[y + a]);
    }
}

} // verus!
