//! The small side file that tells whether focus time is running and for how
//! many minutes: `<true|false>,<minutes>`.

use crate::calc_time::{
    digit, digit_char, digits_value, is_numeric, lemma_digit_char_round_trip, parse_field,
    push_char,
};
use vstd::prelude::*;
use vstd::string::StrSliceExecFns;

verus! {

/// The decimal digits of `n`, with no leading zero.
pub open spec fn decimal_text(n: nat) -> Seq<char>
    decreases n,
{
    if n < 10 {
        seq![digit_char(n)]
    } else {
        decimal_text(n / 10).push(digit_char(n % 10))
    }
}

/// The word for a flag.
pub open spec fn bool_text(b: bool) -> Seq<char> {
    if b {
        seq!['t', 'r', 'u', 'e']
    } else {
        seq!['f', 'a', 'l', 's', 'e']
    }
}

/// The text of the cache for a running flag and a count of minutes.
pub open spec fn cache_text(focus: bool, minutes: nat) -> Seq<char> {
    bool_text(focus) + seq![','] + decimal_text(minutes)
}

/// The cache text `s`, split at the comma at `k`, gives `focus` and `minutes`.
pub open spec fn reads_as_cache(s: Seq<char>, k: int, focus: bool, minutes: nat) -> bool {
    &&& 0 <= k < s.len()
    &&& s[k] == ','
    &&& s.subrange(0, k) == bool_text(focus)
    &&& is_numeric(s.subrange(k + 1, s.len() as int))
    &&& digits_value(s.subrange(k + 1, s.len() as int)) == minutes
}

/// What the cache says: whether focus time runs, and its minutes so far.
#[derive(Clone, Copy, Debug, PartialEq, Eq, Structural)]
pub struct FocusCache {
    pub focus: bool,
    pub minutes: u64,
}

/// Writes the decimal digits of `n` at the end of `s`.
fn push_decimal(s: &mut String, n: u64)
    ensures
        final(s)@ == old(s)@ + decimal_text(n as nat),
    decreases n,
{
    if n >= 10 {
        push_decimal(s, n / 10);
    }
    push_char(s, digit((n % 10) as u32));
    proof {
        if n < 10 {
            assert(n as nat % 10 == n);
        }
    }
}

/// The decimal text of a number reads back as that number.
pub proof fn lemma_decimal_text_round_trip(n: nat)
    ensures
        is_numeric(decimal_text(n)),
        digits_value(decimal_text(n)) == n,
        forall|i: int| 0 <= i < decimal_text(n).len() ==> #[trigger] decimal_text(n)[i] != ',',
    decreases n,
{
    lemma_digit_char_round_trip(n % 10);
    if n >= 10 {
        lemma_decimal_text_round_trip(n / 10);
        let t = decimal_text(n);
        assert(t.drop_last() =~= decimal_text(n / 10));
        assert(digits_value(t) == (n / 10) * 10 + n % 10);
    } else {
        let t = decimal_text(n);
        assert(t.drop_last() =~= Seq::<char>::empty());
        assert(digits_value(t.drop_last()) == 0);
    }
}

/// The cache text for focus state `focus` and `minutes` minutes of it.
pub fn focus_cache_text(focus: bool, minutes: u64) -> (s: String)
    ensures
        s@ == cache_text(focus, minutes as nat),
{
    let mut s = String::new();
    if focus {
        push_char(&mut s, 't');
        push_char(&mut s, 'r');
        push_char(&mut s, 'u');
        push_char(&mut s, 'e');
    } else {
        push_char(&mut s, 'f');
        push_char(&mut s, 'a');
        push_char(&mut s, 'l');
        push_char(&mut s, 's');
        push_char(&mut s, 'e');
    }
    push_char(&mut s, ',');
    push_decimal(&mut s, minutes);
    assert(s@ =~= cache_text(focus, minutes as nat));
    s
}

/// Whether `s` is exactly `word`.
fn matches_word(s: &str, word: &str) -> (r: bool)
    ensures
        r == (s@ == word@),
{
    let n = s.unicode_len();
    let m = word.unicode_len();
    if n != m {
        return false;
    }
    let mut i: usize = 0;
    while i < n
        invariant
            i <= n == s@.len() == word@.len(),
            forall|j: int| 0 <= j < i ==> s@[j] == word@[j],
        decreases n - i,
    {
        if s.get_char(i) != word.get_char(i) {
            return false;
        }
        i = i + 1;
    }
    assert(s@ =~= word@);
    true
}

/// Reads the cache text: a flag word, one comma, and the minutes in decimal.
/// Anything else gives `None`.
pub fn parse_focus_cache(text: &str) -> (r: Option<FocusCache>)
    ensures
        r matches Some(c) ==> reads_as_cache(
            text@,
            bool_text(c.focus).len() as int,
            c.focus,
            c.minutes as nat,
        ),
        r is None ==> forall|k: int, focus: bool, minutes: nat|
            minutes <= u64::MAX ==> !reads_as_cache(text@, k, focus, minutes),
{
    let n = text.unicode_len();
    let mut comma: usize = 0;
    while comma < n && text.get_char(comma) != ','
        invariant
            comma <= n == text@.len(),
            forall|j: int| 0 <= j < comma ==> text@[j] != ',',
        decreases n - comma,
    {
        comma = comma + 1;
    }
    if comma == n {
        assert forall|k: int, focus: bool, minutes: nat|
            minutes <= u64::MAX implies !reads_as_cache(text@, k, focus, minutes) by {
            if reads_as_cache(text@, k, focus, minutes) {
                assert(text@[k] == ',');
            }
        }
        return None;
    }
    let ghost head = text@.subrange(0, comma as int);
    let ghost tail = text@.subrange(comma + 1, n as int);
    let head_text = text.substring_char(0, comma);
    let focus = if matches_word(head_text, "true") {
        true
    } else if matches_word(head_text, "false") {
        false
    } else {
        proof {
            lemma_words();
            lemma_cache_split_unique(text@, comma as int);
        }
        return None;
    };
    proof {
        lemma_words();
        assert(head == bool_text(focus));
        lemma_cache_split_unique(text@, comma as int);
    }
    let parsed = parse_field(text, comma + 1, n, 0x1_0000_0000_0000_0000);
    if parsed.is_none() {
        return None;
    }
    let minutes = parsed.unwrap() as u64;
    assert(reads_as_cache(text@, comma as int, focus, minutes as nat));
    Some(FocusCache { focus, minutes })
}

/// Where the first comma of `s` stands at `c`, a reading of `s` as cache text
/// splits there too.
proof fn lemma_cache_split_unique(s: Seq<char>, c: int)
    requires
        0 <= c < s.len(),
        s[c] == ',',
        forall|j: int| 0 <= j < c ==> s[j] != ',',
    ensures
        forall|k: int, focus: bool, minutes: nat|
            #[trigger] reads_as_cache(s, k, focus, minutes) ==> k == c && s.subrange(0, c)
                == bool_text(focus),
{
    assert forall|k: int, focus: bool, minutes: nat|
        #[trigger] reads_as_cache(s, k, focus, minutes) implies k == c && s.subrange(0, c)
        == bool_text(focus) by {
        if k > c {
            assert(s.subrange(0, k)[c] == ',');
            lemma_bool_text_no_comma(focus, c);
        }
        if k < c {
            assert(s[k] == ',');
        }
    }
}

/// The flag words are the literals the reader compares with.
proof fn lemma_words()
    ensures
        "true"@ == bool_text(true),
        "false"@ == bool_text(false),
{
    reveal_strlit("true");
    reveal_strlit("false");
    assert("true"@ =~= bool_text(true));
    assert("false"@ =~= bool_text(false));
}

/// No flag word holds a comma.
proof fn lemma_bool_text_no_comma(b: bool, i: int)
    requires
        0 <= i < bool_text(b).len(),
    ensures
        bool_text(b)[i] != ',',
{
    if b {
        assert(i == 0 || i == 1 || i == 2 || i == 3);
    } else {
        assert(i == 0 || i == 1 || i == 2 || i == 3 || i == 4);
    }
}

/// The cache text of a state reads back as that state, and as no other.
pub proof fn lemma_cache_round_trip(focus: bool, minutes: nat)
    ensures
        reads_as_cache(cache_text(focus, minutes), bool_text(focus).len() as int, focus, minutes),
        forall|k: int, f: bool, m: nat|
            #[trigger] reads_as_cache(cache_text(focus, minutes), k, f, m) ==> f == focus && m
                == minutes,
{
    lemma_decimal_text_round_trip(minutes);
    let s = cache_text(focus, minutes);
    let c = bool_text(focus).len() as int;
    assert(s.subrange(0, c) =~= bool_text(focus));
    assert(s.subrange(c + 1, s.len() as int) =~= decimal_text(minutes));
    assert forall|j: int| 0 <= j < c implies s[j] != ',' by {
        assert(s[j] == bool_text(focus)[j]);
        lemma_bool_text_no_comma(focus, j);
    }
    lemma_cache_split_unique(s, c);
    assert forall|k: int, f: bool, m: nat| #[trigger] reads_as_cache(s, k, f, m) implies f == focus
        && m == minutes by {
        assert(bool_text(f).len() == bool_text(focus).len());
    }
}

} // verus!
