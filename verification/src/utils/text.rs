//! Text primitives: what the search engine, the template renderer and the
//! path builders rest on, each with a statement of what it returns over
//! sequences of characters.

use vstd::prelude::*;
use vstd::string::{StrSliceExecFns, StringExecFns};
use vstd::utf8::encode_utf8;

verus! {

/// Whether `c` has the Unicode `White_Space` property, as `char::is_whitespace` decides it.
pub uninterp spec fn is_whitespace(c: char) -> bool;

/// The lowercase form of a text, as `str::to_lowercase` computes it.
pub uninterp spec fn lowercase(s: Seq<char>) -> Seq<char>;

/// `s` without its leading whitespace.
pub open spec fn trim_start(s: Seq<char>) -> Seq<char>
    decreases s.len(),
{
    if s.len() > 0 && is_whitespace(s.first()) {
        trim_start(s.drop_first())
    } else {
        s
    }
}

/// `s` without its trailing whitespace.
pub open spec fn trim_end(s: Seq<char>) -> Seq<char>
    decreases s.len(),
{
    if s.len() > 0 && is_whitespace(s.last()) {
        trim_end(s.drop_last())
    } else {
        s
    }
}

/// `s` without leading and trailing whitespace.
pub open spec fn trimmed(s: Seq<char>) -> Seq<char> {
    trim_end(trim_start(s))
}

/// `pat` occurs in `text` starting at character `i`.
pub open spec fn matches_at(text: Seq<char>, pat: Seq<char>, i: int) -> bool {
    0 <= i && i + pat.len() <= text.len() && text.subrange(i, i + pat.len()) == pat
}

/// `pat` occurs somewhere in `text`.
pub open spec fn contains(text: Seq<char>, pat: Seq<char>) -> bool {
    exists|i: int| matches_at(text, pat, i)
}

/// `i` is the position of the leftmost occurrence of `pat` in `text`.
pub open spec fn is_first_match(text: Seq<char>, pat: Seq<char>, i: int) -> bool {
    matches_at(text, pat, i) && forall|j: int| 0 <= j < i ==> !matches_at(text, pat, j)
}

/// The character position of the leftmost occurrence of `pat` in `text`.
pub open spec fn first_match(text: Seq<char>, pat: Seq<char>) -> Option<int> {
    if contains(text, pat) {
        Some(choose|i: int| is_first_match(text, pat, i))
    } else {
        None
    }
}

/// The number of bytes that the first `i` characters of `text` take in UTF-8.
pub open spec fn byte_offset(text: Seq<char>, i: int) -> nat {
    encode_utf8(text.subrange(0, i)).len()
}

/// The byte position of the leftmost occurrence of `pat` in `text`.
pub open spec fn first_match_offset(text: Seq<char>, pat: Seq<char>) -> Option<nat> {
    match first_match(text, pat) {
        Some(i) => Some(byte_offset(text, i)),
        None => None,
    }
}

/// `s` with every occurrence of `from` replaced by `to`, scanning from the
/// left and never looking again at what a replacement put in. An empty
/// `from` counts as occurring nowhere.
pub open spec fn replaced(s: Seq<char>, from: Seq<char>, to: Seq<char>) -> Seq<char>
    decreases s.len(),
{
    if from.len() == 0 || s.len() < from.len() {
        s
    } else if s.subrange(0, from.len() as int) == from {
        to + replaced(s.subrange(from.len() as int, s.len() as int), from, to)
    } else {
        seq![s.first()] + replaced(s.drop_first(), from, to)
    }
}

/// The decimal digit that stands for `d`.
pub open spec fn digit(d: nat) -> char {
    if d == 0 {
        '0'
    } else if d == 1 {
        '1'
    } else if d == 2 {
        '2'
    } else if d == 3 {
        '3'
    } else if d == 4 {
        '4'
    } else if d == 5 {
        '5'
    } else if d == 6 {
        '6'
    } else if d == 7 {
        '7'
    } else if d == 8 {
        '8'
    } else {
        '9'
    }
}

/// The decimal digits of `n`, without leading zeros.
pub open spec fn digits(n: nat) -> Seq<char>
    decreases n,
{
    if n < 10 {
        seq![digit(n)]
    } else {
        digits(n / 10).push(digit(n % 10))
    }
}

/// `n` written in decimal, with a minus sign where it is negative.
pub open spec fn decimal(n: int) -> Seq<char> {
    if n < 0 {
        seq!['-'] + digits((-n) as nat)
    } else {
        digits(n as nat)
    }
}

/// A text in which `pat` does not occur is left as it is.
pub proof fn lemma_replaced_without_match(s: Seq<char>, from: Seq<char>, to: Seq<char>)
    requires
        !contains(s, from),
    ensures
        replaced(s, from, to) == s,
    decreases s.len(),
{
    if from.len() == 0 || s.len() < from.len() {
    } else {
        assert(!matches_at(s, from, 0));
        let rest = s.drop_first();
        assert(!contains(rest, from)) by {
            if contains(rest, from) {
                let i = choose|i: int| matches_at(rest, from, i);
                assert(rest.subrange(i, i + from.len()) =~= s.subrange(i + 1, i + 1 + from.len()));
                assert(matches_at(s, from, i + 1));
            }
        }
        lemma_replaced_without_match(rest, from, to);
        assert(seq![s.first()] + rest =~= s);
    }
}

/// Where the first `i` characters are whitespace and the next one is not,
/// taking off the leading whitespace leaves what follows them.
pub proof fn lemma_trim_start_found(s: Seq<char>, i: int)
    requires
        0 <= i <= s.len(),
        forall|k: int| 0 <= k < i ==> is_whitespace(s[k]),
        i < s.len() ==> !is_whitespace(s[i]),
    ensures
        trim_start(s) == s.subrange(i, s.len() as int),
    decreases s.len(),
{
    if i == 0 {
        assert(s.subrange(0, s.len() as int) =~= s);
    } else {
        let rest = s.drop_first();
        assert forall|k: int| 0 <= k < i - 1 implies is_whitespace(rest[k]) by {
            assert(rest[k] == s[k + 1]);
        }
        lemma_trim_start_found(rest, i - 1);
        assert(rest.subrange(i - 1, rest.len() as int) =~= s.subrange(i, s.len() as int));
    }
}

/// Where everything from position `j` on is whitespace and the character
/// before it is not, taking off the trailing whitespace leaves the first
/// `j` characters.
pub proof fn lemma_trim_end_found(s: Seq<char>, j: int)
    requires
        0 <= j <= s.len(),
        forall|k: int| j <= k < s.len() ==> is_whitespace(s[k]),
        j > 0 ==> !is_whitespace(s[j - 1]),
    ensures
        trim_end(s) == s.subrange(0, j),
    decreases s.len(),
{
    if j == s.len() {
        assert(s.subrange(0, s.len() as int) =~= s);
    } else {
        let rest = s.drop_last();
        lemma_trim_end_found(rest, j);
        assert(rest.subrange(0, j) =~= s.subrange(0, j));
    }
}

/// Removing leading whitespace leaves a suffix of the text.
pub proof fn lemma_trim_start_is_suffix(s: Seq<char>)
    ensures
        trim_start(s).len() <= s.len(),
        trim_start(s) == s.subrange(s.len() - trim_start(s).len(), s.len() as int),
    decreases s.len(),
{
    if s.len() > 0 && is_whitespace(s.first()) {
        lemma_trim_start_is_suffix(s.drop_first());
        let t = trim_start(s);
        assert(t =~= s.subrange(s.len() - t.len(), s.len() as int));
    } else {
        assert(s =~= s.subrange(0, s.len() as int));
    }
}

/// Removing trailing whitespace leaves a prefix of the text.
pub proof fn lemma_trim_end_is_prefix(s: Seq<char>)
    ensures
        trim_end(s).len() <= s.len(),
        trim_end(s) == s.subrange(0, trim_end(s).len() as int),
    decreases s.len(),
{
    if s.len() > 0 && is_whitespace(s.last()) {
        lemma_trim_end_is_prefix(s.drop_last());
        let t = trim_end(s);
        assert(t =~= s.subrange(0, t.len() as int));
    } else {
        assert(s =~= s.subrange(0, s.len() as int));
    }
}

/// Trimming never makes a text longer, and an empty text stays empty.
pub proof fn lemma_trimmed_len(s: Seq<char>)
    ensures
        trimmed(s).len() <= s.len(),
{
    lemma_trim_start_is_suffix(s);
    lemma_trim_end_is_prefix(trim_start(s));
}

/// Above every occurrence there is a leftmost one.
proof fn lemma_least_match(text: Seq<char>, pat: Seq<char>, k: int)
    requires
        matches_at(text, pat, k),
    ensures
        exists|i: int| 0 <= i <= k && is_first_match(text, pat, i),
    decreases k,
{
    if exists|j: int| 0 <= j < k && matches_at(text, pat, j) {
        let j = choose|j: int| 0 <= j < k && matches_at(text, pat, j);
        lemma_least_match(text, pat, j);
        let i = choose|i: int| 0 <= i <= j && is_first_match(text, pat, i);
        assert(0 <= i <= k && is_first_match(text, pat, i));
    } else {
        assert(is_first_match(text, pat, k));
    }
}

/// Where `pat` occurs in `text`, `first_match` gives its leftmost
/// occurrence, and there is no other leftmost one.
pub proof fn lemma_first_match(text: Seq<char>, pat: Seq<char>)
    requires
        contains(text, pat),
    ensures
        first_match(text, pat) is Some,
        is_first_match(text, pat, first_match(text, pat)->0),
        forall|i: int| is_first_match(text, pat, i) ==> i == first_match(text, pat)->0,
{
    let k = choose|k: int| matches_at(text, pat, k);
    lemma_least_match(text, pat, k);
    let i = choose|i: int| 0 <= i <= k && is_first_match(text, pat, i);
    assert(is_first_match(text, pat, i));
}

/// `char::is_whitespace`: whether `c` has the Unicode `White_Space` property.
#[verifier::external_body]
pub(crate) fn char_is_whitespace(c: char) -> (r: bool)
    ensures
        r == is_whitespace(c),
{
    c.is_whitespace()
}

/// The characters of `s`.
pub fn chars_of(s: &str) -> (chars: Vec<char>)
    ensures
        chars@ == s@,
{
    let mut chars: Vec<char> = Vec::new();
    for c in it: s.chars()
        invariant
            chars@ == it.seq().take(it.index() as int),
            it.seq() == s@,
    {
        chars.push(c);
        proof {
            assert(chars@ =~= it.seq().take(it.index() + 1));
        }
    }
    proof {
        assert(chars@ =~= s@);
    }
    chars
}

/// The slice of `s` that is left when the whitespace at both ends is taken off.
pub fn trim<'a>(s: &'a str) -> (r: &'a str)
    ensures
        r@ == trimmed(s@),
{
    let chars = chars_of(s);
    let n = chars.len();
    let mut start: usize = 0;
    while start < n && char_is_whitespace(chars[start])
        invariant
            start <= n,
            n == s@.len(),
            chars@ == s@,
            forall|k: int| 0 <= k < start ==> is_whitespace(s@[k]),
        decreases n - start,
    {
        start += 1;
    }
    let mut end: usize = n;
    while end > start && char_is_whitespace(chars[end - 1])
        invariant
            start <= end <= n,
            n == s@.len(),
            chars@ == s@,
            forall|k: int| end <= k < n ==> is_whitespace(s@[k]),
        decreases end,
    {
        end -= 1;
    }
    proof {
        lemma_trim_start_found(s@, start as int);
        let rest = s@.subrange(start as int, n as int);
        assert forall|k: int| end - start <= k < rest.len() implies is_whitespace(rest[k]) by {
            assert(rest[k] == s@[start + k]);
        }
        if end > start {
            assert(rest[end - start - 1] == s@[end - 1]);
        }
        lemma_trim_end_found(rest, end - start);
        assert(rest.subrange(0, end - start) =~= s@.subrange(start as int, end as int));
    }
    s.substring_char(start, end)
}

/// `str::to_lowercase`: a new string holding the lowercase form of `s`.
#[verifier::external_body]
pub(crate) fn to_lowercase(s: &str) -> (r: String)
    ensures
        r@ == lowercase(s@),
{
    s.to_lowercase()
}

/// Whether `pat` occurs in `text` starting at position `i`.
fn matches_here(text: &Vec<char>, pat: &Vec<char>, i: usize) -> (r: bool)
    requires
        i + pat@.len() <= text@.len(),
    ensures
        r == matches_at(text@, pat@, i as int),
{
    let mut k: usize = 0;
    while k < pat.len()
        invariant
            k <= pat.len(),
            i + pat.len() <= text.len(),
            forall|j: int| 0 <= j < k ==> text@[i + j] == pat@[j],
        decreases pat.len() - k,
    {
        if text[i + k] != pat[k] {
            proof {
                assert(text@.subrange(i as int, i + pat@.len())[k as int] == text@[i + k]);
            }
            return false;
        }
        k += 1;
    }
    proof {
        assert(text@.subrange(i as int, i + pat@.len()) =~= pat@);
    }
    true
}

/// The leftmost position at which `pat` occurs in `text`, in characters.
pub fn find_chars(text: &Vec<char>, pat: &Vec<char>) -> (r: Option<usize>)
    ensures
        match r {
            Some(i) => is_first_match(text@, pat@, i as int),
            None => !contains(text@, pat@),
        },
{
    if pat.len() == 0 {
        proof {
            assert(text@.subrange(0, 0) =~= pat@);
        }
        return Some(0);
    }
    if pat.len() > text.len() {
        return None;
    }
    let last: usize = text.len() - pat.len();
    let mut i: usize = 0;
    while i <= last
        invariant
            i <= last + 1,
            last == text.len() - pat.len(),
            pat.len() > 0,
            forall|j: int| 0 <= j < i ==> !matches_at(text@, pat@, j),
        decreases last + 1 - i,
    {
        if matches_here(text, pat, i) {
            return Some(i);
        }
        i += 1;
    }
    None
}

/// Whether `pat` is a substring of `text`.
pub fn str_contains(text: &str, pat: &str) -> (r: bool)
    ensures
        r == contains(text@, pat@),
{
    let text = chars_of(text);
    let pat = chars_of(pat);
    find_chars(&text, &pat).is_some()
}

/// The number of bytes that the first `i` characters of `text` take.
pub fn byte_offset_of(text: &str, i: usize) -> (offset: usize)
    requires
        i <= text@.len(),
    ensures
        offset == byte_offset(text@, i as int),
{
    let before = text.substring_char(0, i);
    before.as_bytes().len()
}

/// The byte index at which the leftmost occurrence of `pat` in `text`
/// starts, if there is one.
pub fn str_find(text: &str, pat: &str) -> (r: Option<usize>)
    ensures
        match r {
            Some(offset) => first_match_offset(text@, pat@) == Some(offset as nat),
            None => first_match_offset(text@, pat@) is None,
        },
{
    let chars = chars_of(text);
    let wanted = chars_of(pat);
    match find_chars(&chars, &wanted) {
        Some(i) => {
            proof {
                lemma_first_match(text@, pat@);
            }
            Some(byte_offset_of(text, i))
        },
        None => None,
    }
}

/// `s` with every occurrence of `from` replaced by `to`: the occurrences
/// are found from the left and do not overlap. An empty `from` counts as
/// occurring nowhere.
pub fn str_replace(s: &str, from: &str, to: &str) -> (r: String)
    ensures
        r@ == replaced(s@, from@, to@),
{
    let text = chars_of(s);
    let pat = chars_of(from);
    let n = text.len();
    let m = pat.len();
    if m == 0 {
        return s.to_owned();
    }
    let mut out = String::new();
    // What stands between `start` and `pos` is to be copied as it is.
    let mut start: usize = 0;
    let mut pos: usize = 0;
    proof {
        assert(s@.subrange(0, n as int) =~= s@);
        assert(out@ + s@.subrange(0, 0) =~= Seq::<char>::empty());
        assert(Seq::<char>::empty() + replaced(s@, from@, to@) =~= replaced(s@, from@, to@));
    }
    while m <= n - pos
        invariant
            start <= pos <= n,
            n == s@.len(),
            m == from@.len(),
            m > 0,
            text@ == s@,
            pat@ == from@,
            out@ + s@.subrange(start as int, pos as int) + replaced(
                s@.subrange(pos as int, n as int),
                from@,
                to@,
            ) == replaced(s@, from@, to@),
        decreases n - pos,
    {
        let ghost rest = s@.subrange(pos as int, n as int);
        proof {
            assert(rest.subrange(0, m as int) =~= s@.subrange(pos as int, pos + m));
        }
        if matches_here(&text, &pat, pos) {
            proof {
                assert(rest.subrange(m as int, rest.len() as int) =~= s@.subrange(pos + m, n as int));
                assert(s@.subrange(pos + m, pos + m) =~= Seq::<char>::empty());
            }
            out.append(s.substring_char(start, pos));
            out.append(to);
            pos = pos + m;
            start = pos;
        } else {
            proof {
                assert(rest.drop_first() =~= s@.subrange(pos + 1, n as int));
                assert(s@.subrange(start as int, pos as int) + seq![rest.first()] =~= s@.subrange(
                    start as int,
                    pos + 1,
                ));
            }
            pos += 1;
        }
    }
    proof {
        assert(s@.subrange(start as int, pos as int) + s@.subrange(pos as int, n as int)
            =~= s@.subrange(start as int, n as int));
    }
    out.append(s.substring_char(start, n));
    out
}

/// The text of one decimal digit.
fn digit_str(d: u64) -> (text: &'static str)
    requires
        d < 10,
    ensures
        text@ == seq![digit(d as nat)],
{
    proof {
        reveal_strlit("0");
        reveal_strlit("1");
        reveal_strlit("2");
        reveal_strlit("3");
        reveal_strlit("4");
        reveal_strlit("5");
        reveal_strlit("6");
        reveal_strlit("7");
        reveal_strlit("8");
        reveal_strlit("9");
    }
    let text = if d == 0 {
        "0"
    } else if d == 1 {
        "1"
    } else if d == 2 {
        "2"
    } else if d == 3 {
        "3"
    } else if d == 4 {
        "4"
    } else if d == 5 {
        "5"
    } else if d == 6 {
        "6"
    } else if d == 7 {
        "7"
    } else if d == 8 {
        "8"
    } else {
        "9"
    };
    proof {
        assert(text@ =~= seq![digit(d as nat)]);
    }
    text
}

/// Appends the decimal digits of `n` to `text`.
fn push_digits(text: &mut String, n: u64)
    ensures
        final(text)@ == old(text)@ + digits(n as nat),
    decreases n,
{
    if n >= 10 {
        push_digits(text, n / 10);
    }
    text.append(digit_str(n % 10));
    proof {
        if n >= 10 {
            assert(old(text)@ + digits(n as nat / 10) + seq![digit(n as nat % 10)] =~= old(text)@
                + digits(n as nat));
        }
    }
}

/// Writes `n` in decimal, with a minus sign where it is negative.
pub fn int_to_string(n: i64) -> (text: String)
    ensures
        text@ == decimal(n as int),
{
    let mut text = String::new();
    if n < 0 {
        proof {
            reveal_strlit("-");
            assert("-"@ =~= seq!['-']);
        }
        text.append("-");
        let magnitude: u64 = if n == i64::MIN {
            9223372036854775808u64
        } else {
            (-n) as u64
        };
        push_digits(&mut text, magnitude);
        proof {
            assert(text@ =~= seq!['-'] + digits((-n) as nat));
        }
    } else {
        push_digits(&mut text, n as u64);
        proof {
            assert(text@ =~= digits(n as nat));
        }
    }
    text
}

} // verus!
