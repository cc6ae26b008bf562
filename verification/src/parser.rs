//! The grammar of duration strings: `ss`, `mm:ss` or `hh:mm:ss`.
//!
//! A string is cut at each `:`. The last field holds the seconds, the one
//! before it the minutes and the one before that the hours. A field is a
//! decimal number, with or without a leading `+`, that fits 64 bits. Seconds
//! and minutes stay below 60, hours below 100. The fields are examined from
//! the seconds upwards and the first one that fails decides the error.

use vstd::prelude::*;
use vstd::string::StrSliceExecFns;
use crate::duration::Duration;

verus! {

/// One of the fields of a duration string.
#[derive(Clone, Copy, Debug, PartialEq, Eq, Structural)]
pub enum Field {
    Seconds,
    Minutes,
    Hours,
}

/// Why a duration string was turned down.
#[derive(Clone, Copy, Debug, PartialEq, Eq, Structural)]
pub enum ParseError {
    /// The field is not a number.
    Invalid(Field),
    /// The field is a number at or above its limit.
    TooLarge(Field),
    /// The string has more than three fields.
    Format,
}

impl Field {
    /// The bound that a field's number stays below.
    pub open spec fn spec_limit(self) -> nat {
        match self {
            Field::Seconds => 60,
            Field::Minutes => 60,
            Field::Hours => 100,
        }
    }

    /// The bound that a field's number stays below.
    pub fn limit(&self) -> (l: u64)
        ensures
            l == self.spec_limit(),
    {
        match self {
            Field::Seconds => 60,
            Field::Minutes => 60,
            Field::Hours => 100,
        }
    }
}

impl ParseError {
    /// The error in words.
    pub fn message(&self) -> (m: &'static str)
        ensures
            m@ == match *self {
                ParseError::Invalid(Field::Seconds) => "Invalid seconds"@,
                ParseError::Invalid(Field::Minutes) => "Invalid minutes"@,
                ParseError::Invalid(Field::Hours) => "Invalid hours"@,
                ParseError::TooLarge(Field::Seconds) => "Seconds must be less than 60."@,
                ParseError::TooLarge(Field::Minutes) => "Minutes must be less than 60."@,
                ParseError::TooLarge(Field::Hours) => "Hours must be less than 100."@,
                ParseError::Format => "Invalid time format. Use 'ss', mm:ss, or hh:mm:ss"@,
            },
    {
        match self {
            ParseError::Invalid(Field::Seconds) => "Invalid seconds",
            ParseError::Invalid(Field::Minutes) => "Invalid minutes",
            ParseError::Invalid(Field::Hours) => "Invalid hours",
            ParseError::TooLarge(Field::Seconds) => "Seconds must be less than 60.",
            ParseError::TooLarge(Field::Minutes) => "Minutes must be less than 60.",
            ParseError::TooLarge(Field::Hours) => "Hours must be less than 100.",
            ParseError::Format => "Invalid time format. Use 'ss', mm:ss, or hh:mm:ss",
        }
    }
}

/// Whether `c` is one of `0` to `9`.
pub open spec fn is_digit(c: char) -> bool {
    48 <= c as u32 <= 57
}

/// The number that the digit `c` stands for.
pub open spec fn digit_value(c: char) -> nat {
    (c as u32 - 48) as nat
}

/// Whether `d` holds digits only.
pub open spec fn all_digits(d: Seq<char>) -> bool {
    forall|i: int| 0 <= i < d.len() ==> is_digit(#[trigger] d[i])
}

/// The number that the digits `d` write in base ten.
pub open spec fn decimal(d: Seq<char>) -> nat
    decreases d.len(),
{
    if d.len() == 0 {
        0
    } else {
        decimal(d.drop_last()) * 10 + digit_value(d.last())
    }
}

/// The field without its leading `+`, if it has one.
pub open spec fn unsigned_part(f: Seq<char>) -> Seq<char> {
    if f.len() > 0 && f[0] == '+' {
        f.skip(1)
    } else {
        f
    }
}

/// The number that a field writes, if it writes one that fits 64 bits.
pub open spec fn field_value(f: Seq<char>) -> Option<nat> {
    let d = unsigned_part(f);
    if d.len() > 0 && all_digits(d) && decimal(d) <= u64::MAX {
        Some(decimal(d))
    } else {
        None
    }
}

/// The number of a field that is held to the field's limit.
pub open spec fn check_field(f: Seq<char>, field: Field) -> Result<nat, ParseError> {
    match field_value(f) {
        None => Err(ParseError::Invalid(field)),
        Some(v) => if v < field.spec_limit() {
            Ok(v)
        } else {
            Err(ParseError::TooLarge(field))
        },
    }
}

/// The places of the `:` in `s`, in ascending order.
pub open spec fn colons(s: Seq<char>) -> Seq<int>
    decreases s.len(),
{
    if s.len() == 0 {
        Seq::empty()
    } else if s.last() == ':' {
        colons(s.drop_last()).push(s.len() - 1)
    } else {
        colons(s.drop_last())
    }
}

/// The fields of `s`: what stands before, between and after its `:`.
pub open spec fn fields(s: Seq<char>) -> Seq<Seq<char>> {
    let c = colons(s);
    Seq::new(
        c.len() + 1,
        |k: int|
            s.subrange(
                if k == 0 {
                    0
                } else {
                    c[k - 1] + 1
                },
                if k == c.len() {
                    s.len() as int
                } else {
                    c[k]
                },
            ),
    )
}

/// The seconds that a duration string stands for, or the error it earns.
pub open spec fn parse_seconds(s: Seq<char>) -> Result<nat, ParseError> {
    let f = fields(s);
    let n = f.len() as int;
    if n > 3 {
        Err(ParseError::Format)
    } else {
        match check_field(f[n - 1], Field::Seconds) {
            Err(e) => Err(e),
            Ok(secs) => if n == 1 {
                Ok(secs)
            } else {
                match check_field(f[n - 2], Field::Minutes) {
                    Err(e) => Err(e),
                    Ok(mins) => if n == 2 {
                        Ok(mins * 60 + secs)
                    } else {
                        match check_field(f[n - 3], Field::Hours) {
                            Err(e) => Err(e),
                            Ok(hours) => Ok(hours * 3600 + mins * 60 + secs),
                        }
                    },
                }
            },
        }
    }
}

/// The duration that a duration string stands for, or the error it earns.
pub open spec fn parse_spec(s: Seq<char>) -> Result<Duration, ParseError> {
    match parse_seconds(s) {
        Ok(secs) => Ok(Duration { millis: (secs * 1000) as u128 }),
        Err(e) => Err(e),
    }
}

/// The number written by the first digits of `d` is at most the number
/// written by all of them.
proof fn lemma_decimal_prefix(d: Seq<char>, k: int)
    requires
        0 <= k <= d.len(),
    ensures
        decimal(d.take(k)) <= decimal(d),
    decreases d.len(),
{
    if k == d.len() {
        assert(d.take(k) =~= d);
    } else {
        lemma_decimal_prefix(d.drop_last(), k);
        assert(d.drop_last().take(k) =~= d.take(k));
    }
}

/// Every place in `colons(s)` holds a `:`, the places ascend, and no `:`
/// is left out.
proof fn lemma_colons(s: Seq<char>)
    ensures
        forall|k: int| 0 <= k < colons(s).len() ==> 0 <= #[trigger] colons(s)[k] < s.len(),
        forall|k: int| 0 <= k < colons(s).len() ==> s[#[trigger] colons(s)[k]] == ':',
        forall|j: int, k: int|
            0 <= j < k < colons(s).len() ==> #[trigger] colons(s)[j] < #[trigger] colons(s)[k],
        forall|i: int| 0 <= i < s.len() && s[i] == ':' ==> colons(s).contains(i),
    decreases s.len(),
{
    if s.len() > 0 {
        let t = s.drop_last();
        lemma_colons(t);
        let c = colons(s);
        let ct = colons(t);
        assert forall|i: int| 0 <= i < s.len() && s[i] == ':' implies c.contains(i) by {
            if i < s.len() - 1 {
                assert(t[i] == ':');
                assert(ct.contains(i));
                let k = choose|k: int| 0 <= k < ct.len() && ct[k] == i;
                assert(c[k] == i);
            } else {
                assert(c[c.len() - 1] == i);
            }
        }
        assert forall|k: int| 0 <= k < c.len() implies s[#[trigger] c[k]] == ':' by {
            if k < ct.len() {
                assert(t[ct[k]] == ':');
            }
        }
    }
}

/// A sequence of places that ascend, hold a `:` each and leave no `:` out is
/// the sequence of the places of the `:` in `s`.
pub proof fn lemma_colons_are(s: Seq<char>, c: Seq<int>)
    requires
        forall|k: int| 0 <= k < c.len() ==> 0 <= #[trigger] c[k] < s.len() && s[c[k]] == ':',
        forall|j: int, k: int| 0 <= j < k < c.len() ==> #[trigger] c[j] < #[trigger] c[k],
        forall|i: int| 0 <= i < s.len() && s[i] == ':' ==> c.contains(i),
    ensures
        colons(s) == c,
    decreases s.len(),
{
    if s.len() == 0 {
        if c.len() > 0 {
            assert(0 <= c[0] < s.len());
        }
        assert(c =~= Seq::empty());
    } else {
        let t = s.drop_last();
        let last = s.len() - 1;
        if s.last() == ':' {
            assert(c.contains(last));
            let k = choose|k: int| 0 <= k < c.len() && c[k] == last;
            if k < c.len() - 1 {
                assert(c[k] < c[c.len() - 1]);
            }
            let d = c.drop_last();
            assert forall|i: int| 0 <= i < t.len() && t[i] == ':' implies d.contains(i) by {
                assert(s[i] == ':');
                assert(c.contains(i));
                let j = choose|j: int| 0 <= j < c.len() && c[j] == i;
                assert(d[j] == i);
            }
            assert forall|j: int| 0 <= j < d.len() implies 0 <= #[trigger] d[j] < t.len() && t[d[j]]
                == ':' by {
                assert(c[j] < c[c.len() - 1]);
                assert(s[c[j]] == ':');
            }
            lemma_colons_are(t, d);
            assert(c =~= d.push(last));
        } else {
            assert forall|i: int| 0 <= i < t.len() && t[i] == ':' implies c.contains(i) by {
                assert(s[i] == ':');
            }
            assert forall|j: int| 0 <= j < c.len() implies 0 <= #[trigger] c[j] < t.len() && t[c[j]]
                == ':' by {
                assert(s[c[j]] == ':');
            }
            lemma_colons_are(t, c);
        }
    }
}

/// Reads the field that `chars` holds from `lo` up to `hi` and holds its
/// number to the field's limit.
fn parse_field(chars: &Vec<char>, lo: usize, hi: usize, field: Field) -> (r: Result<
    u64,
    ParseError,
>)
    requires
        lo <= hi <= chars.len(),
    ensures
        match check_field(chars@.subrange(lo as int, hi as int), field) {
            Ok(n) => r == Ok::<u64, ParseError>(n as u64) && n <= u64::MAX,
            Err(e) => r == Err::<u64, ParseError>(e),
        },
{
    let ghost f = chars@.subrange(lo as int, hi as int);
    let mut start: usize = lo;
    if lo < hi && chars[lo] == '+' {
        start = lo + 1;
    }
    let ghost d = unsigned_part(f);
    assert(d =~= chars@.subrange(start as int, hi as int));
    if start == hi {
        return Err(ParseError::Invalid(field));
    }
    let mut value: u64 = 0;
    let mut i: usize = start;
    assert(d.take(0) =~= Seq::<char>::empty());
    while i < hi
        invariant
            start <= i <= hi <= chars.len(),
            d == chars@.subrange(start as int, hi as int),
            d == unsigned_part(chars@.subrange(lo as int, hi as int)),
            all_digits(d.take(i - start)),
            value == decimal(d.take(i - start)),
        decreases hi - i,
    {
        let c: char = chars[i];
        let code: u32 = #[verifier::truncate] (c as u32);
        let ghost k = i - start;
        proof {
            assert(d[k] == c);
            assert(d.take(k + 1).drop_last() =~= d.take(k));
            assert(d.take(k + 1).last() == c);
            assert(decimal(d.take(k + 1)) == decimal(d.take(k)) * 10 + digit_value(c));
            lemma_decimal_prefix(d, k + 1);
            assert(is_digit(c) == (48 <= code <= 57));
        }
        if code < 48 || code > 57 {
            return Err(ParseError::Invalid(field));
        }
        let digit: u64 = (code - 48) as u64;
        match value.checked_mul(10) {
            None => {
                return Err(ParseError::Invalid(field));
            },
            Some(tens) => {
                match tens.checked_add(digit) {
                    None => {
                        return Err(ParseError::Invalid(field));
                    },
                    Some(next) => {
                        value = next;
                    },
                }
            },
        }
        proof {
            assert forall|j: int| 0 <= j < d.take(k + 1).len() implies is_digit(
                #[trigger] d.take(k + 1)[j],
            ) by {
                if j < k {
                    assert(d.take(k + 1)[j] == d.take(k)[j]);
                }
            }
        }
        i += 1;
    }
    assert(d.take(i - start) =~= d);
    if value < field.limit() {
        Ok(value)
    } else {
        Err(ParseError::TooLarge(field))
    }
}

/// Finds the places of the `:` in `chars`.
fn find_colons(chars: &Vec<char>) -> (cuts: Vec<usize>)
    ensures
        cuts@.len() == colons(chars@).len(),
        forall|k: int| 0 <= k < cuts@.len() ==> #[trigger] cuts@[k] as int == colons(chars@)[k],
{
    let mut cuts: Vec<usize> = Vec::new();
    let mut i: usize = 0;
    assert(chars@.take(0) =~= Seq::<char>::empty());
    while i < chars.len()
        invariant
            i <= chars.len(),
            cuts@.len() == colons(chars@.take(i as int)).len(),
            forall|k: int|
                0 <= k < cuts@.len() ==> #[trigger] cuts@[k] as int == colons(
                    chars@.take(i as int),
                )[k],
        decreases chars.len() - i,
    {
        assert(chars@.take(i + 1).drop_last() =~= chars@.take(i as int));
        assert(chars@.take(i + 1).last() == chars@[i as int]);
        if chars[i] == ':' {
            cuts.push(i);
        }
        i += 1;
    }
    assert(chars@.take(i as int) =~= chars@);
    cuts
}

/// Reads a duration from the characters of a duration string.
pub fn parse_duration_chars(chars: &Vec<char>) -> (r: Result<Duration, ParseError>)
    ensures
        r == parse_spec(chars@),
{
    let cuts = find_colons(chars);
    let n: usize = cuts.len();
    let len: usize = chars.len();
    proof {
        lemma_colons(chars@);
    }
    let ghost f = fields(chars@);
    if n > 2 {
        return Err(ParseError::Format);
    }
    let ss_lo: usize = if n == 0 {
        0
    } else {
        cuts[n - 1] + 1
    };
    assert(f[n as int] == chars@.subrange(ss_lo as int, len as int));
    let secs: u64 = match parse_field(chars, ss_lo, len, Field::Seconds) {
        Err(e) => {
            return Err(e);
        },
        Ok(v) => v,
    };
    if n == 0 {
        return Ok(Duration::from_secs(secs));
    }
    let mm_lo: usize = if n == 1 {
        0
    } else {
        cuts[0] + 1
    };
    let mm_hi: usize = cuts[n - 1];
    assert(f[n - 1] == chars@.subrange(mm_lo as int, mm_hi as int));
    let mins: u64 = match parse_field(chars, mm_lo, mm_hi, Field::Minutes) {
        Err(e) => {
            return Err(e);
        },
        Ok(v) => v,
    };
    if n == 1 {
        return Ok(Duration::from_secs(mins * 60 + secs));
    }
    let hh_hi: usize = cuts[0];
    assert(f[0] == chars@.subrange(0, hh_hi as int));
    let hours: u64 = match parse_field(chars, 0, hh_hi, Field::Hours) {
        Err(e) => {
            return Err(e);
        },
        Ok(v) => v,
    };
    Ok(Duration::from_secs(hours * 3600 + mins * 60 + secs))
}

/// Reads a duration from a string of the form `ss`, `mm:ss` or `hh:mm:ss`.
///
/// Seconds and minutes must stay below 60 and hours below 100. The fields
/// are examined from the seconds upwards; the first that is no number, or too
/// large, decides the error. More than three fields are a format error.
pub fn parse_duration(arg: &str) -> (r: Result<Duration, ParseError>)
    ensures
        r == parse_spec(arg@),
{
    let len: usize = arg.unicode_len();
    let mut chars: Vec<char> = Vec::new();
    let mut i: usize = 0;
    while i < len
        invariant
            len == arg@.len(),
            i <= len,
            chars@ == arg@.take(i as int),
        decreases len - i,
    {
        let c: char = arg.get_char(i);
        chars.push(c);
        assert(chars@ =~= arg@.take(i + 1));
        i += 1;
    }
    assert(chars@ =~= arg@);
    parse_duration_chars(&chars)
}

/// The character that writes the digit `v`.
pub open spec fn digit_char(v: nat) -> char
    recommends
        v < 10,
{
    ((48 + v) as u8) as char
}

/// A number below one hundred, written with two digits.
pub open spec fn two_digits(v: nat) -> Seq<char>
    recommends
        v < 100,
{
    seq![digit_char(v / 10), digit_char(v % 10)]
}

/// Hours, minutes and seconds written as `hh:mm:ss`.
pub open spec fn format_hms(hours: nat, mins: nat, secs: nat) -> Seq<char> {
    two_digits(hours) + seq![':'] + two_digits(mins) + seq![':'] + two_digits(secs)
}

/// Minutes and seconds written as `mm:ss`.
pub open spec fn format_ms(mins: nat, secs: nat) -> Seq<char> {
    two_digits(mins) + seq![':'] + two_digits(secs)
}

/// Two digits are read back as the number that they write.
proof fn lemma_two_digits(v: nat)
    requires
        v < 100,
    ensures
        two_digits(v).len() == 2,
        is_digit(two_digits(v)[0]),
        is_digit(two_digits(v)[1]),
        field_value(two_digits(v)) == Some(v),
{
    let t = two_digits(v);
    let a = digit_char(v / 10);
    let b = digit_char(v % 10);
    assert(a as u32 == 48 + v / 10);
    assert(b as u32 == 48 + v % 10);
    assert(t[0] == a && t[1] == b);
    assert(unsigned_part(t) == t);
    assert(t.drop_last() =~= seq![a]);
    assert(t.drop_last().drop_last() =~= Seq::<char>::empty());
    assert(decimal(t.drop_last().drop_last()) == 0);
    assert(decimal(t.drop_last()) == v / 10);
    assert(decimal(t) == (v / 10) * 10 + v % 10);
}

/// A string written as `hh:mm:ss`, with hours below 100 and minutes and
/// seconds below 60, is read back as the duration that it writes.
pub proof fn lemma_parse_formatted_hms(hours: nat, mins: nat, secs: nat)
    requires
        hours < 100,
        mins < 60,
        secs < 60,
    ensures
        parse_seconds(format_hms(hours, mins, secs)) == Ok::<nat, ParseError>(
            hours * 3600 + mins * 60 + secs,
        ),
        parse_spec(format_hms(hours, mins, secs)) matches Ok(d) && d@ == (hours * 3600 + mins * 60
            + secs) * 1000,
{
    let text = format_hms(hours, mins, secs);
    lemma_two_digits(hours);
    lemma_two_digits(mins);
    lemma_two_digits(secs);
    let c = seq![2int, 5int];
    assert(text.len() == 8);
    assert(text[0] == two_digits(hours)[0] && text[1] == two_digits(hours)[1]);
    assert(text[3] == two_digits(mins)[0] && text[4] == two_digits(mins)[1]);
    assert(text[6] == two_digits(secs)[0] && text[7] == two_digits(secs)[1]);
    assert(text[2] == ':' && text[5] == ':');
    assert(c[0] == 2 && c[1] == 5);
    lemma_colons_are(text, c);
    let f = fields(text);
    assert(f[0] =~= two_digits(hours));
    assert(f[1] =~= two_digits(mins));
    assert(f[2] =~= two_digits(secs));
}

/// A string written as `mm:ss`, with minutes and seconds below 60, is read
/// back as the duration that it writes.
pub proof fn lemma_parse_formatted_ms(mins: nat, secs: nat)
    requires
        mins < 60,
        secs < 60,
    ensures
        parse_seconds(format_ms(mins, secs)) == Ok::<nat, ParseError>(mins * 60 + secs),
{
    let text = format_ms(mins, secs);
    lemma_two_digits(mins);
    lemma_two_digits(secs);
    let c = seq![2int];
    assert(text.len() == 5);
    assert(text[0] == two_digits(mins)[0] && text[1] == two_digits(mins)[1]);
    assert(text[3] == two_digits(secs)[0] && text[4] == two_digits(secs)[1]);
    assert(text[2] == ':');
    assert(c[0] == 2);
    lemma_colons_are(text, c);
    let f = fields(text);
    assert(f[0] =~= two_digits(mins));
    assert(f[1] =~= two_digits(secs));
}

/// A number below 60 written with two digits is read back as that many
/// seconds.
pub proof fn lemma_parse_formatted_s(secs: nat)
    requires
        secs < 60,
    ensures
        parse_seconds(two_digits(secs)) == Ok::<nat, ParseError>(secs),
{
    let text = two_digits(secs);
    lemma_two_digits(secs);
    lemma_colons_are(text, Seq::<int>::empty());
    let f = fields(text);
    assert(f[0] =~= text);
}

} // verus!
