//! Wall-clock times of day, read from and written as `HH:MM` text.

use vstd::prelude::*;
use vstd::string::StrSliceExecFns;

verus! {

/// Minutes in one day.
pub const MINUTES_PER_DAY: u32 = 1440;

/// Whether `c` is an ASCII decimal digit.
pub open spec fn is_digit(c: char) -> bool {
    '0' <= c && c <= '9'
}

/// The value of one decimal digit.
pub open spec fn digit_value(c: char) -> nat {
    (c as u32 - '0' as u32) as nat
}

/// The character that writes the decimal digit `d`.
pub open spec fn digit_char(d: nat) -> char {
    seq!['0', '1', '2', '3', '4', '5', '6', '7', '8', '9'][d as int]
}

/// The decimal value of a run of digits, most significant first.
pub open spec fn digits_value(s: Seq<char>) -> nat
    decreases s.len(),
{
    if s.len() == 0 {
        0
    } else {
        digits_value(s.drop_last()) * 10 + digit_value(s.last())
    }
}

/// A non-empty run of decimal digits.
pub open spec fn is_numeric(s: Seq<char>) -> bool {
    s.len() > 0 && forall|i: int| 0 <= i < s.len() ==> #[trigger] is_digit(s[i])
}

/// The text before position `k`.
pub open spec fn hour_field(s: Seq<char>, k: int) -> Seq<char> {
    s.subrange(0, k)
}

/// The text after position `k`.
pub open spec fn minute_field(s: Seq<char>, k: int) -> Seq<char> {
    s.subrange(k + 1, s.len() as int)
}

/// `s` is a time of day whose one `:` stands at `k`: two numeric fields,
/// an hour below 24 and a minute below 60.
pub open spec fn is_time_split(s: Seq<char>, k: int) -> bool {
    &&& 0 <= k < s.len()
    &&& s[k] == ':'
    &&& is_numeric(hour_field(s, k))
    &&& is_numeric(minute_field(s, k))
    &&& digits_value(hour_field(s, k)) < 24
    &&& digits_value(minute_field(s, k)) < 60
}

/// Text that reads as a time of day.
pub open spec fn is_time_text(s: Seq<char>) -> bool {
    exists|k: int| is_time_split(s, k)
}

/// The minutes since midnight that time text stands for.
pub open spec fn time_text_minutes(s: Seq<char>) -> nat {
    let k = choose|k: int| is_time_split(s, k);
    digits_value(hour_field(s, k)) * 60 + digits_value(minute_field(s, k))
}

/// The canonical `HH:MM` text of a minute of the day.
pub open spec fn time_text(minutes: nat) -> Seq<char> {
    let h = minutes / 60;
    let m = minutes % 60;
    seq![digit_char(h / 10), digit_char(h % 10), ':', digit_char(m / 10), digit_char(m % 10)]
}

/// Text in the canonical form: two digits, a colon and two digits, giving an
/// hour below 24 and a minute below 60.
pub open spec fn is_canonical_time_text(s: Seq<char>) -> bool {
    &&& s.len() == 5
    &&& s[2] == ':'
    &&& is_digit(s[0]) && is_digit(s[1]) && is_digit(s[3]) && is_digit(s[4])
    &&& digit_value(s[0]) * 10 + digit_value(s[1]) < 24
    &&& digit_value(s[3]) * 10 + digit_value(s[4]) < 60
}

/// A wall-clock time of day, held as minutes since midnight.
#[derive(Clone, Copy, Debug, PartialEq, Eq, Structural)]
pub struct TimeOfDay {
    minutes: u32,
}

/// Text that is not a time of day.
#[derive(Clone, Copy, Debug, PartialEq, Eq, Structural)]
pub struct FormatError;

impl View for TimeOfDay {
    type V = nat;

    closed spec fn view(&self) -> nat {
        self.minutes as nat
    }
}

impl TimeOfDay {
    #[verifier::type_invariant]
    spec fn inv(self) -> bool {
        self.minutes < MINUTES_PER_DAY
    }

    /// The time `minutes` after midnight.
    pub fn from_minutes(minutes: u32) -> (r: TimeOfDay)
        requires
            minutes < MINUTES_PER_DAY,
        ensures
            r@ == minutes,
    {
        TimeOfDay { minutes }
    }

    /// The time at `hour`:`minute`, or `None` where either is out of range.
    pub fn from_hm(hour: u32, minute: u32) -> (r: Option<TimeOfDay>)
        ensures
            r is Some <==> hour < 24 && minute < 60,
            r matches Some(t) ==> t@ == hour * 60 + minute,
    {
        if hour < 24 && minute < 60 {
            Some(TimeOfDay { minutes: hour * 60 + minute })
        } else {
            None
        }
    }

    /// Minutes since midnight.
    pub fn minutes(&self) -> (m: u32)
        ensures
            m == self@,
            m < MINUTES_PER_DAY,
    {
        proof {
            use_type_invariant(self);
        }
        self.minutes
    }

    /// The hour, 0 to 23.
    pub fn hour(&self) -> (h: u32)
        ensures
            h == self@ / 60,
            h < 24,
    {
        proof {
            use_type_invariant(self);
        }
        self.minutes / 60
    }

    /// The minute within the hour, 0 to 59.
    pub fn minute(&self) -> (m: u32)
        ensures
            m == self@ % 60,
    {
        self.minutes % 60
    }

    /// The time as canonical `HH:MM` text.
    pub fn to_text(&self) -> (s: String)
        ensures
            s@ == time_text(self@),
            is_canonical_time_text(s@),
    {
        proof {
            use_type_invariant(self);
        }
        let h = self.minutes / 60;
        let m = self.minutes % 60;
        let mut s = String::new();
        push_char(&mut s, digit(h / 10));
        push_char(&mut s, digit(h % 10));
        push_char(&mut s, ':');
        push_char(&mut s, digit(m / 10));
        push_char(&mut s, digit(m % 10));
        proof {
            lemma_digit_char_round_trip(h as nat / 10);
            lemma_digit_char_round_trip(h as nat % 10);
            lemma_digit_char_round_trip(m as nat / 10);
            lemma_digit_char_round_trip(m as nat % 10);
        }
        s
    }
}

/// Relies on String::push: the character is appended at the end.
#[verifier::external_body]
pub(crate) fn push_char(s: &mut String, c: char)
    ensures
        final(s)@ == old(s)@.push(c),
{
    s.push(c)
}

/// The character of the decimal digit `d`.
pub(crate) fn digit(d: u32) -> (c: char)
    requires
        d < 10,
    ensures
        c == digit_char(d as nat),
{
    match d {
        0 => '0',
        1 => '1',
        2 => '2',
        3 => '3',
        4 => '4',
        5 => '5',
        6 => '6',
        7 => '7',
        8 => '8',
        _ => '9',
    }
}

/// A digit's character reads back as the digit.
pub(crate) proof fn lemma_digit_char_round_trip(d: nat)
    requires
        d < 10,
    ensures
        is_digit(digit_char(d)),
        digit_value(digit_char(d)) == d,
{
}

/// Writing a digit character's value gives the character back.
proof fn lemma_digit_value_round_trip(c: char)
    requires
        is_digit(c),
    ensures
        digit_value(c) < 10,
        digit_char(digit_value(c)) == c,
{
}

/// Adding one digit at the end of a run of digits.
proof fn lemma_digits_value_step(s: Seq<char>, i: int)
    requires
        0 <= i < s.len(),
    ensures
        digits_value(s.subrange(0, i + 1)) == digits_value(s.subrange(0, i)) * 10 + digit_value(
            s[i],
        ),
{
    assert(s.subrange(0, i + 1).drop_last() =~= s.subrange(0, i));
}

/// The value of the digits of `s` between `from` and `to`, or `None` where they
/// are not a non-empty run of digits whose value is below `bound`.
pub(crate) fn parse_field(s: &str, from: usize, to: usize, bound: u128) -> (r: Option<u128>)
    requires
        from <= to <= s@.len(),
        0 < bound <= 0x1_0000_0000_0000_0000,
    ensures
        r is Some <==> is_numeric(s@.subrange(from as int, to as int)) && digits_value(
            s@.subrange(from as int, to as int),
        ) < bound,
        r matches Some(v) ==> v == digits_value(s@.subrange(from as int, to as int)),
{
    if from == to {
        return None;
    }
    let ghost field = s@.subrange(from as int, to as int);
    let mut value: u128 = 0;
    let mut i: usize = from;
    while i < to
        invariant
            from <= i <= to <= s@.len(),
            0 < bound <= 0x1_0000_0000_0000_0000,
            field == s@.subrange(from as int, to as int),
            forall|j: int| 0 <= j < i - from ==> #[trigger] is_digit(field[j]),
            value == if digits_value(field.subrange(0, i - from)) < bound {
                digits_value(field.subrange(0, i - from))
            } else {
                bound as nat
            },
        decreases to - i,
    {
        let c = s.get_char(i);
        if !('0' <= c && c <= '9') {
            assert(!is_digit(field[i - from]));
            return None;
        }
        proof {
            lemma_digits_value_step(field, i - from);
        }
        let d = (c as u32 - '0' as u32) as u128;
        if value < bound {
            let next = value * 10 + d;
            value = if next < bound {
                next
            } else {
                bound
            };
        }
        i = i + 1;
    }
    assert(field.subrange(0, to - from) =~= field);
    if value < bound {
        Some(value)
    } else {
        None
    }
}

/// Reads a time of day from text: an hour field and a minute field, each a
/// non-empty run of decimal digits, with exactly one `:` between them; the
/// hour below 24 and the minute below 60. Anything else is a `FormatError`.
pub fn parse_time(time: &str) -> (r: Result<TimeOfDay, FormatError>)
    ensures
        r is Ok <==> is_time_text(time@),
        r matches Ok(t) ==> t@ == time_text_minutes(time@),
{
    let n = time.unicode_len();
    let mut colon: usize = 0;
    while colon < n && time.get_char(colon) != ':'
        invariant
            colon <= n == time@.len(),
            forall|j: int| 0 <= j < colon ==> time@[j] != ':',
        decreases n - colon,
    {
        colon = colon + 1;
    }
    if colon == n {
        proof {
            if is_time_text(time@) {
                let k = choose|k: int| is_time_split(time@, k);
                assert(time@[k] == ':');
            }
        }
        return Err(FormatError);
    }
    let hour = parse_field(time, 0, colon, 24);
    let minute = parse_field(time, colon + 1, n, 60);
    proof {
        lemma_time_split_unique(time@, colon as int);
    }
    match (hour, minute) {
        (Some(h), Some(m)) => {
            assert(is_time_split(time@, colon as int));
            Ok(TimeOfDay { minutes: h as u32 * 60 + m as u32 })
        },
        _ => Err(FormatError),
    }
}

/// Where the first `:` of `s` stands at `c`, any split of `s` as a time stands
/// there too.
proof fn lemma_time_split_unique(s: Seq<char>, c: int)
    requires
        0 <= c < s.len(),
        s[c] == ':',
        forall|j: int| 0 <= j < c ==> s[j] != ':',
    ensures
        is_time_text(s) <==> is_time_split(s, c),
        is_time_text(s) ==> time_text_minutes(s) == digits_value(hour_field(s, c)) * 60
            + digits_value(minute_field(s, c)),
{
    if is_time_text(s) {
        let k = choose|k: int| is_time_split(s, k);
        if k > c {
            assert(hour_field(s, k)[c] == s[c]);
            assert(!is_digit(hour_field(s, k)[c]));
        }
        assert(k == c);
    }
}

/// Minutes from `start` to `end`; negative where `end` comes before `start`.
pub fn duration_minutes(start: TimeOfDay, end: TimeOfDay) -> (d: i32)
    ensures
        d == end@ - start@,
{
    let s = start.minutes();
    let e = end.minutes();
    e as i32 - s as i32
}

/// The end of a day that starts at `start` and lasts `extra_hours` and
/// `extra_minutes`, as an hour and a minute below 60. The hour is not wrapped
/// at midnight: a day that runs past it ends at an hour of 24 or more.
pub fn project_end_time(start: TimeOfDay, extra_hours: u32, extra_minutes: u32) -> (r: (u32, u32))
    requires
        MINUTES_PER_DAY + extra_hours * 60 + extra_minutes <= u32::MAX,
    ensures
        r.0 * 60 + r.1 == start@ + extra_hours * 60 + extra_minutes,
        r.1 < 60,
{
    let total = start.minutes() + extra_hours * 60 + extra_minutes;
    (total / 60, total % 60)
}

/// The projected end of a workday that starts at `hour`:`minutes`: eight hours
/// and twenty minutes later, given as seven hours and eighty minutes with the
/// minutes carried into the hour.
pub fn calc_endtime(hour: i32, minutes: i32) -> (r: (i32, i32))
    requires
        0 <= hour < 24,
        0 <= minutes < 60,
    ensures
        r.0 * 60 + r.1 == hour * 60 + minutes + 7 * 60 + 80,
        0 <= r.1 < 60,
{
    let start = TimeOfDay::from_minutes(hour as u32 * 60 + minutes as u32);
    let (h, m) = project_end_time(start, 7, 80);
    (h as i32, m as i32)
}

/// Canonical text reads back as the same time, and writing that time gives the
/// same text.
pub proof fn lemma_canonical_text_round_trip(s: Seq<char>)
    requires
        is_canonical_time_text(s),
    ensures
        is_time_text(s),
        time_text(time_text_minutes(s)) == s,
{
    let h = digit_value(s[0]) * 10 + digit_value(s[1]);
    let m = digit_value(s[3]) * 10 + digit_value(s[4]);
    let hf = hour_field(s, 2);
    let mf = minute_field(s, 2);
    assert(hf.drop_last().drop_last() =~= Seq::<char>::empty());
    assert(hf.drop_last() =~= seq![s[0]]);
    assert(digits_value(hf.drop_last().drop_last()) == 0);
    assert(digits_value(hf.drop_last()) == digit_value(s[0]));
    assert(digits_value(hf) == h);
    assert(mf.drop_last().drop_last() =~= Seq::<char>::empty());
    assert(mf.drop_last() =~= seq![s[3]]);
    assert(digits_value(mf.drop_last().drop_last()) == 0);
    assert(digits_value(mf.drop_last()) == digit_value(s[3]));
    assert(digits_value(mf) == m);
    assert(is_time_split(s, 2));
    lemma_time_split_unique(s, 2);
    lemma_digit_value_round_trip(s[0]);
    lemma_digit_value_round_trip(s[1]);
    lemma_digit_value_round_trip(s[3]);
    lemma_digit_value_round_trip(s[4]);
    assert((h * 60 + m) / 60 == h && (h * 60 + m) % 60 == m) by (nonlinear_arith)
        requires
            m < 60,
    ;
    assert(h / 10 == digit_value(s[0]) && h % 10 == digit_value(s[1])) by (nonlinear_arith)
        requires
            h == digit_value(s[0]) * 10 + digit_value(s[1]),
            digit_value(s[1]) < 10,
    ;
    assert(m / 10 == digit_value(s[3]) && m % 10 == digit_value(s[4])) by (nonlinear_arith)
        requires
            m == digit_value(s[3]) * 10 + digit_value(s[4]),
            digit_value(s[4]) < 10,
    ;
    assert(time_text(time_text_minutes(s)) =~= s);
}

/// The text of a time reads back as that time.
pub proof fn lemma_time_text_round_trip(minutes: nat)
    requires
        minutes < MINUTES_PER_DAY,
    ensures
        is_canonical_time_text(time_text(minutes)),
        is_time_text(time_text(minutes)),
        time_text_minutes(time_text(minutes)) == minutes,
{
    let h = minutes / 60;
    let m = minutes % 60;
    lemma_digit_char_round_trip(h / 10);
    lemma_digit_char_round_trip(h % 10);
    lemma_digit_char_round_trip(m / 10);
    lemma_digit_char_round_trip(m % 10);
    let s = time_text(minutes);
    assert(digit_value(s[0]) * 10 + digit_value(s[1]) == h);
    assert(digit_value(s[3]) * 10 + digit_value(s[4]) == m);
    lemma_canonical_text_round_trip(s);
    assert(h * 60 + m == minutes);
}

} // verus!

verus! {

/// Minutes that pass on the clock from `start` to `end`. An end that comes
/// before its start is taken to lie on the next day, so the result is always
/// below one day.
pub open spec fn elapsed(start: nat, end: nat) -> nat {
    if start <= end {
        (end - start) as nat
    } else {
        (end + MINUTES_PER_DAY - start) as nat
    }
}

/// Minutes that pass on the clock from `start` to `end`, across midnight where
/// `end` comes before `start`.
pub fn elapsed_minutes(start: TimeOfDay, end: TimeOfDay) -> (d: u32)
    ensures
        d == elapsed(start@, end@),
        d < MINUTES_PER_DAY,
{
    let s = start.minutes();
    let e = end.minutes();
    if s <= e {
        e - s
    } else {
        e + MINUTES_PER_DAY - s
    }
}

} // verus!
