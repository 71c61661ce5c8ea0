//! What the functions on text promise: laws on their arguments and results.
//!
//! `call_ensures(f, args, r)` says that `r` is a result of the call of `f` with `args`.

use vstd::prelude::*;

use crate::text::{
    contains, decimal, decimal_int, describe_numeral_error, digits_value, drop_leading,
    drop_trailing, find_char_from, first_from, is_digit, is_white, is_whitespace, lemma_first_from,
    lower, parse_signed, parse_unsigned, push_decimal, push_decimal_i64, same, split, trim,
    trim_end_char, trim_start_char, trimmed, unsigned_value, upper, views, white, NumeralError,
};

verus! {

proof fn lemma_one_more_digit(s: Seq<char>, c: char, acc: int, max: int, v: int)
    requires
        digits_value(s, acc, max) == Ok::<int, NumeralError>(v),
        is_digit(c),
        v * 10 + (c as u32 - 0x30) <= max,
    ensures
        digits_value(s.push(c), acc, max) == Ok::<int, NumeralError>(v * 10 + (c as u32 - 0x30)),
    decreases s.len(),
{
    reveal_with_fuel(digits_value, 2);
    if s.len() == 0 {
        assert(s.push(c).drop_first() =~= s);
    } else {
        assert(s.push(c)[0] == s[0]);
        assert(s.push(c).drop_first() =~= s.drop_first().push(c));
        lemma_one_more_digit(s.drop_first(), c, acc * 10 + (s[0] as u32 - 0x30), max, v);
    }
}

/// The decimal numeral of a number is digits only, and is read as that number.
pub proof fn law_decimal_numeral_has_its_value(n: nat, max: int)
    requires
        n <= max,
    ensures
        decimal(n).len() > 0,
        forall|i: int| 0 <= i < decimal(n).len() ==> is_digit(#[trigger] decimal(n)[i]),
        digits_value(decimal(n), 0, max) == Ok::<int, NumeralError>(n as int),
        unsigned_value(decimal(n), max) == Ok::<int, NumeralError>(n as int),
    decreases n,
{
    reveal_with_fuel(digits_value, 2);
    if n < 10 {
        let one = decimal(n);
        assert(one.drop_first() =~= Seq::<char>::empty());
        assert(is_digit(one[0]));
    } else {
        let d = n % 10;
        law_decimal_numeral_has_its_value(n / 10, max);
        let c = crate::text::digit_char(d);
        assert(is_digit(c));
        lemma_one_more_digit(decimal(n / 10), c, 0, max, (n / 10) as int);
        assert forall|i: int| 0 <= i < decimal(n).len() implies is_digit(
            #[trigger] decimal(n)[i],
        ) by {
            if i < decimal(n / 10).len() {
                assert(decimal(n)[i] == decimal(n / 10)[i]);
            }
        }
    }
    assert(is_digit(decimal(n)[0]));
}

/// A number that fits is read back from its decimal numeral, one that does not is
/// refused, and so is a text that starts with a letter.
pub proof fn law_numerals_are_read_back(
    s: &str,
    max: u64,
    n: nat,
    r: std::result::Result<u64, NumeralError>,
)
    requires
        call_ensures(parse_unsigned, (s, max), r),
    ensures
        s@ == decimal(n) && n <= max ==> r == Ok::<u64, NumeralError>(n as u64),
        r matches Ok(v) ==> v <= max,
        s@.len() == 0 ==> r is Err,
        s@.len() > 0 && !is_digit(s@[0]) && s@[0] != '+' ==> r is Err,
{
    if s@ == decimal(n) && n <= max {
        law_decimal_numeral_has_its_value(n, max as int);
    }
}

/// A signed number is read back from its numeral.
pub proof fn law_signed_numerals_are_read_back(
    s: &str,
    max: i64,
    n: int,
    r: std::result::Result<i64, NumeralError>,
)
    requires
        call_ensures(parse_signed, (s, max), r),
        s@ == decimal_int(n),
        -max - 1 <= n <= max,
        max >= 0,
    ensures
        r == Ok::<i64, NumeralError>(n as i64),
{
    if n < 0 {
        law_decimal_numeral_has_its_value((-n) as nat, max + 1);
        let d = decimal((-n) as nat);
        assert(s@.drop_first() =~= d);
        assert(s@[0] == '-');
    } else {
        law_decimal_numeral_has_its_value(n as nat, max as int);
        assert(is_digit(s@[0]));
    }
}

/// A text without white space at its ends is not trimmed.
pub proof fn lemma_untrimmed(s: Seq<char>)
    requires
        s.len() > 0 ==> !is_white(s[0]) && !is_white(s.last()),
    ensures
        trimmed(s) == s,
{
}

proof fn lemma_leading(a: Seq<char>, s: Seq<char>)
    requires
        forall|i: int| 0 <= i < a.len() ==> is_white(#[trigger] a[i]),
        s.len() == 0 || !is_white(s[0]),
    ensures
        drop_leading(a + s, white()) == s,
    decreases a.len(),
{
    if a.len() > 0 {
        assert((a + s).drop_first() =~= a.drop_first() + s);
        assert(is_white(a[0]));
        lemma_leading(a.drop_first(), s);
    } else {
        assert(a + s =~= s);
    }
}

proof fn lemma_trailing_white(s: Seq<char>, b: Seq<char>)
    requires
        forall|i: int| 0 <= i < b.len() ==> is_white(#[trigger] b[i]),
        s.len() == 0 || !is_white(s.last()),
    ensures
        drop_trailing(s + b, white()) == s,
    decreases b.len(),
{
    if b.len() > 0 {
        assert((s + b).drop_last() =~= s + b.drop_last());
        assert(is_white(b[b.len() - 1]));
        lemma_trailing_white(s, b.drop_last());
    } else {
        assert(s + b =~= s);
    }
}

/// Trimming takes away the white space at both ends and nothing else.
pub proof fn law_trimming_drops_the_white_space_around(
    text: &str,
    a: Seq<char>,
    s: Seq<char>,
    b: Seq<char>,
    r: &str,
)
    requires
        call_ensures(trim, (text,), r),
        text@ == a + s + b,
        forall|i: int| 0 <= i < a.len() ==> is_white(#[trigger] a[i]),
        forall|i: int| 0 <= i < b.len() ==> is_white(#[trigger] b[i]),
        s.len() > 0,
        !is_white(s[0]),
        !is_white(s.last()),
    ensures
        r@ == s,
{
    assert(a + s + b =~= a + (s + b));
    assert((s + b)[0] == s[0]);
    lemma_leading(a, s + b);
    lemma_trailing_white(s, b);
}

/// The first copy of `d` in `a + d + b`, where `a` has none, is behind `a`.
pub proof fn lemma_first_behind(a: Seq<char>, d: char, b: Seq<char>)
    requires
        forall|i: int| 0 <= i < a.len() ==> a[i] != d,
    ensures
        first_from(a.push(d) + b, d, 0) == a.len(),
        (a.push(d) + b).take(a.len() as int) == a,
        (a.push(d) + b).skip(a.len() as int + 1) == b,
{
    let s = a.push(d) + b;
    lemma_first_from(s, d, 0);
    assert(s[a.len() as int] == d);
    let f = first_from(s, d, 0);
    if f < a.len() {
        assert(s[f] == a[f]);
    }
    assert(s.take(a.len() as int) =~= a);
    assert(s.skip(a.len() as int + 1) =~= b);
}

/// The pieces of `a,b`, where `a` has no comma, are `a` and the pieces of `b`; the same
/// with any other separator.
pub proof fn law_splitting_cuts_at_every_separator(
    s: &str,
    t: &str,
    d: char,
    a: Seq<char>,
    whole: Vec<String>,
    rest: Vec<String>,
)
    requires
        call_ensures(split, (s, d), whole),
        call_ensures(split, (t, d), rest),
        forall|i: int| 0 <= i < a.len() ==> a[i] != d,
        s@ == a.push(d) + t@,
    ensures
        whole@.len() == rest@.len() + 1,
        whole@[0]@ == a,
        forall|i: int| 0 <= i < rest@.len() ==> whole@[i + 1]@ == (#[trigger] rest@[i])@,
{
    lemma_first_behind(a, d, t@);
    let w = views(whole@);
    let v = views(rest@);
    assert(w.len() == whole@.len() && v.len() == rest@.len());
    assert(w == seq![a] + v);
    assert(w[0] == whole@[0]@);
    assert forall|i: int| 0 <= i < rest@.len() implies whole@[i + 1]@ == (#[trigger] rest@[i])@ by {
        assert(w[i + 1] == whole@[i + 1]@);
        assert(v[i] == rest@[i]@);
    }
}

/// A text without the separator is one piece.
pub proof fn law_text_without_separator_is_one_piece(s: &str, d: char, r: Vec<String>)
    requires
        call_ensures(split, (s, d), r),
        forall|i: int| 0 <= i < s@.len() ==> s@[i] != d,
    ensures
        r@.len() == 1,
        r@[0]@ == s@,
{
    lemma_first_from(s@, d, 0);
    let w = views(r@);
    assert(w.len() == r@.len());
    assert(w =~= seq![s@]);
    assert(w[0] == r@[0]@);
}

/// A phrase is found exactly in the texts that have something before it, and something
/// behind it, if only nothing.
pub proof fn law_phrase_is_found_wherever_it_stands(
    s: &str,
    needle: &str,
    a: Seq<char>,
    b: Seq<char>,
    r: bool,
)
    requires
        call_ensures(contains, (s, needle), r),
    ensures
        s@ == a + needle@ + b ==> r,
        r ==> exists|i: int|
            0 <= i <= s@.len() - needle@.len() && #[trigger] s@.subrange(i, i + needle@.len())
                == needle@,
{
    if s@ == a + needle@ + b {
        assert(s@.subrange(a.len() as int, a.len() as int + needle@.len()) =~= needle@);
        assert(crate::text::occurs_at(s@, needle@, a.len() as int));
    }
    if r {
        let i = choose|i: int| crate::text::occurs_at(s@, needle@, i);
        assert(s@.subrange(i, i + needle@.len()) =~= needle@);
    }
}

/// Lower and upper case change the letters of the Latin alphabet and nothing else.
pub proof fn law_case_changes_letters_only(s: &str, low: String, up: String, i: int)
    requires
        call_ensures(lower, (s,), low),
        call_ensures(upper, (s,), up),
        0 <= i < s@.len(),
    ensures
        low@.len() == s@.len() && up@.len() == s@.len(),
        'A' <= s@[i] <= 'Z' ==> low@[i] as u32 == s@[i] as u32 + 32 && up@[i] == s@[i],
        'a' <= s@[i] <= 'z' ==> up@[i] as u32 == s@[i] as u32 - 32 && low@[i] == s@[i],
        !('A' <= s@[i] <= 'Z') && !('a' <= s@[i] <= 'z') ==> low@[i] == s@[i] && up@[i] == s@[i],
{
}

/// The numeral of a number is appended behind what is there.
pub proof fn law_numeral_is_appended(out: &mut String, n: i64)
    requires
        call_ensures(push_decimal_i64, (out, n), ()),
    ensures
        final(out)@.take(old(out)@.len() as int) == old(out)@,
        final(out)@.skip(old(out)@.len() as int) == decimal_int(n as int),
{
    assert(final(out)@.take(old(out)@.len() as int) =~= old(out)@);
    assert(final(out)@.skip(old(out)@.len() as int) =~= decimal_int(n as int));
}

/// Blanks, tabs and line ends are white space; letters, digits and punctuation are not.
pub proof fn law_white_space(c: char, r: bool)
    requires
        call_ensures(is_whitespace, (c,), r),
    ensures
        c == ' ' || c == '\t' || c == '\n' || c == '\r' ==> r,
        '!' <= c <= '~' ==> !r,
{
}

/// Only the given character is dropped at the start, or at the end, and all of it.
pub proof fn law_one_character_is_trimmed(
    s: &str,
    t: &str,
    d: char,
    x: Seq<char>,
    start: &str,
    end: &str,
    again: &str,
)
    requires
        call_ensures(trim_start_char, (s, d), start),
        call_ensures(trim_end_char, (s, d), end),
        t@ == seq![d] + s@,
        call_ensures(trim_start_char, (t, d), again),
    ensures
        s@.len() > 0 && s@[0] != d ==> start@ == s@,
        s@.len() > 0 && s@.last() != d ==> end@ == s@,
        again@ == start@,
{
    assert(t@.drop_first() =~= s@);
    assert(t@[0] == d);
}

/// Two texts are the same if they have the same characters, and a character is found
/// where it first stands.
pub proof fn law_texts_are_compared_and_searched(
    a: &str,
    b: &str,
    r: bool,
    v: Vec<char>,
    d: char,
    from: usize,
    i: usize,
)
    requires
        call_ensures(same, (a, b), r),
        call_ensures(find_char_from, (&v, d, from), i),
        from <= v@.len(),
    ensures
        r == (a@ == b@),
        from <= i <= v@.len(),
        i < v@.len() ==> v@[i as int] == d,
        forall|k: int| from <= k < i ==> v@[k] != d,
{
    lemma_first_from(v@, d, from as int);
}

/// A refused numeral is described by what is wrong with it.
pub proof fn law_refused_numerals_are_described(e: NumeralError, r: &'static str)
    requires
        call_ensures(describe_numeral_error, (e,), r),
    ensures
        e is Empty ==> r@ == "cannot parse integer from empty string"@,
        e is InvalidDigit ==> r@ == "invalid digit found in string"@,
        e is PosOverflow ==> r@ == "number too large to fit in target type"@,
        e is NegOverflow ==> r@ == "number too small to fit in target type"@,
{
}

/// A number that is written out and read again is the same.
pub proof fn law_written_numbers_are_read_back(
    out: &mut String,
    n: u64,
    s: &str,
    r: std::result::Result<u64, NumeralError>,
)
    requires
        old(out)@.len() == 0,
        call_ensures(push_decimal, (out, n as u128), ()),
        s@ == final(out)@,
        call_ensures(parse_unsigned, (s, u64::MAX), r),
    ensures
        r == Ok::<u64, NumeralError>(n),
        n < 10 ==> final(out)@.len() == 1 && final(out)@[0] as u32 == 48 + n,
{
    law_decimal_numeral_has_its_value(n as nat, u64::MAX as int);
    assert(final(out)@ =~= decimal(n as nat));
}

} // verus!
