//! Text helpers shared by the sessions and the coordinator.
//!
//! Every function here is stated over the character sequence of its
//! arguments (`s@`), so that callers can reason about text without caring
//! how it is encoded.

use vstd::prelude::*;
use vstd::string::*;
use vstd::utf8::*;

verus! {

/// `needle` stands in `hay` at character position `at`.
pub open spec fn occurs_at(hay: Seq<char>, needle: Seq<char>, at: int) -> bool {
    &&& 0 <= at
    &&& at + needle.len() <= hay.len()
    &&& hay.subrange(at, at + needle.len()) == needle
}

/// `at` is the leftmost position, not before `from`, where `needle` stands in `hay`.
pub open spec fn is_first_occurrence(
    hay: Seq<char>,
    needle: Seq<char>,
    from: int,
    at: int,
) -> bool {
    &&& from <= at
    &&& occurs_at(hay, needle, at)
    &&& forall|k: int| from <= k < at ==> !occurs_at(hay, needle, k)
}

/// The leftmost position, not before `from`, where `needle` stands in `hay`, if there is one.
pub open spec fn first_occurrence(hay: Seq<char>, needle: Seq<char>, from: int) -> Option<int> {
    if exists|at: int| is_first_occurrence(hay, needle, from, at) {
        Some(choose|at: int| is_first_occurrence(hay, needle, from, at))
    } else {
        None
    }
}

/// The text that lies between the first two non-overlapping occurrences of
/// `delimiter` in `s`. There is none when the delimiter is empty or occurs
/// fewer than two times.
pub open spec fn spec_substring_between(s: Seq<char>, delimiter: Seq<char>) -> Option<Seq<char>> {
    if delimiter.len() == 0 {
        None
    } else {
        match first_occurrence(s, delimiter, 0) {
            None => None,
            Some(open) => match first_occurrence(s, delimiter, open + delimiter.len()) {
                None => None,
                Some(close) => Some(s.subrange(open + delimiter.len(), close)),
            },
        }
    }
}

/// The length of a text in bytes, as `str::len` counts it.
pub open spec fn byte_len(s: Seq<char>) -> nat {
    encode_utf8(s).len()
}

/// The parts written one after another with `sep` between neighbours.
pub open spec fn spec_join(parts: Seq<Seq<char>>, sep: Seq<char>) -> Seq<char>
    decreases parts.len(),
{
    if parts.len() == 0 {
        Seq::empty()
    } else if parts.len() == 1 {
        parts[0]
    } else {
        spec_join(parts.drop_last(), sep) + sep + parts.last()
    }
}

/// The character sequences of a list of strings.
pub open spec fn texts(parts: Seq<String>) -> Seq<Seq<char>> {
    parts.map_values(|s: String| s@)
}

/// The code of `c` with the ASCII capitals `A` to `Z` folded onto `a` to `z`.
pub open spec fn ascii_fold(c: char) -> u32 {
    if 'A' <= c <= 'Z' {
        (c as u32 + 32) as u32
    } else {
        c as u32
    }
}

/// Two texts are the same up to the case of their ASCII letters.
pub open spec fn same_ignoring_ascii_case(a: Seq<char>, b: Seq<char>) -> bool {
    &&& a.len() == b.len()
    &&& forall|i: int| 0 <= i < a.len() ==> ascii_fold(#[trigger] a[i]) == ascii_fold(b[i])
}

/// `at` is the first place of `names` where `wanted` stands.
pub open spec fn is_position(names: Seq<Seq<char>>, wanted: Seq<char>, at: int) -> bool {
    &&& 0 <= at < names.len()
    &&& names[at] == wanted
    &&& forall|k: int| 0 <= k < at ==> #[trigger] names[k] != wanted
}

/// The first place of `names` where `wanted` stands, if there is one.
pub open spec fn spec_position(names: Seq<Seq<char>>, wanted: Seq<char>) -> Option<int> {
    if exists|at: int| is_position(names, wanted, at) {
        Some(choose|at: int| is_position(names, wanted, at))
    } else {
        None
    }
}

/// `at` is the first place of `names` where `wanted` stands up to the case of ASCII letters.
pub open spec fn is_position_ignoring_ascii_case(
    names: Seq<Seq<char>>,
    wanted: Seq<char>,
    at: int,
) -> bool {
    &&& 0 <= at < names.len()
    &&& same_ignoring_ascii_case(wanted, names[at])
    &&& forall|k: int| 0 <= k < at ==> !same_ignoring_ascii_case(wanted, #[trigger] names[k])
}

/// The first place of `names` where `wanted` stands up to the case of
/// ASCII letters, if there is one.
pub open spec fn spec_position_ignoring_ascii_case(
    names: Seq<Seq<char>>,
    wanted: Seq<char>,
) -> Option<int> {
    if exists|at: int| is_position_ignoring_ascii_case(names, wanted, at) {
        Some(choose|at: int| is_position_ignoring_ascii_case(names, wanted, at))
    } else {
        None
    }
}

/// `at` is the last place of `names` where `wanted` stands up to the case of ASCII letters.
pub open spec fn is_last_position_ignoring_ascii_case(
    names: Seq<Seq<char>>,
    wanted: Seq<char>,
    at: int,
) -> bool {
    &&& 0 <= at < names.len()
    &&& same_ignoring_ascii_case(wanted, names[at])
    &&& forall|k: int|
        at < k < names.len() ==> !same_ignoring_ascii_case(wanted, #[trigger] names[k])
}

/// The last place of `names` where `wanted` stands up to the case of
/// ASCII letters, if there is one.
pub open spec fn spec_last_position_ignoring_ascii_case(
    names: Seq<Seq<char>>,
    wanted: Seq<char>,
) -> Option<int> {
    if exists|at: int| is_last_position_ignoring_ascii_case(names, wanted, at) {
        Some(choose|at: int| is_last_position_ignoring_ascii_case(names, wanted, at))
    } else {
        None
    }
}

/// The decimal digit `d` as a character.
pub open spec fn digit(d: int) -> char {
    if d == 0 {
        '0'
    } else if d == 1 {
        '1'
    } else if d == 2 {
        '2'
    } else if d == 3 {
        '3'
    } else if d == 4 {
        '4'
    } else if d == 5 {
        '5'
    } else if d == 6 {
        '6'
    } else if d == 7 {
        '7'
    } else if d == 8 {
        '8'
    } else {
        '9'
    }
}

/// The decimal numeral of `n`, without leading zeros.
pub open spec fn spec_decimal(n: nat) -> Seq<char>
    decreases n,
{
    if n < 10 {
        seq![digit(n as int)]
    } else {
        spec_decimal(n / 10).push(digit((n % 10) as int))
    }
}

/// The view of an optional string.
pub open spec fn opt_text(s: Option<String>) -> Option<Seq<char>> {
    match s {
        Some(t) => Some(t@),
        None => None,
    }
}

/// The view of the outcome of an operation that yields nothing when it
/// succeeds and a message when it fails.
pub open spec fn done_text(outcome: Result<(), String>) -> Result<(), Seq<char>> {
    match outcome {
        Ok(_) => Ok(()),
        Err(e) => Err(e@),
    }
}

/// A position that was found, as a mathematical integer.
pub open spec fn found(r: Option<usize>) -> Option<int> {
    match r {
        Some(i) => Some(i as int),
        None => None,
    }
}

/// A first occurrence is unique, so `first_occurrence` names it.
pub proof fn lemma_first_occurrence_is(hay: Seq<char>, needle: Seq<char>, from: int, at: int)
    requires
        is_first_occurrence(hay, needle, from, at),
    ensures
        first_occurrence(hay, needle, from) == Some(at),
{
    let other = choose|k: int| is_first_occurrence(hay, needle, from, k);
    if other < at {
    } else if at < other {
    }
}

/// Collects the characters of `s` into a vector, in order.
pub fn chars_of(s: &str) -> (out: Vec<char>)
    ensures
        out@ == s@,
{
    let mut out: Vec<char> = Vec::new();
    for c in it: s.chars()
        invariant
            out@ == it.seq().take(it.index() as int),
            it.seq() == s@,
    {
        out.push(c);
    }
    out
}

/// Tells whether `needle` stands in `hay` at position `at`.
pub fn stands_at(hay: &Vec<char>, needle: &Vec<char>, at: usize) -> (r: bool)
    ensures
        r == occurs_at(hay@, needle@, at as int),
{
    let n = needle.len();
    if n > hay.len() || at > hay.len() - n {
        return false;
    }
    let mut k: usize = 0;
    while k < n
        invariant
            n == needle.len(),
            k <= n,
            at + n <= hay.len(),
            forall|j: int| 0 <= j < k ==> hay@[at + j] == needle@[j],
        decreases n - k,
    {
        if hay[at + k] != needle[k] {
            assert(hay@.subrange(at as int, at + n)[k as int] == hay@[at + k]);
            return false;
        }
        k += 1;
    }
    assert(hay@.subrange(at as int, at + n) =~= needle@);
    true
}

/// Finds the leftmost position, not before `from`, where `needle` stands in `hay`.
pub fn find_from(hay: &Vec<char>, needle: &Vec<char>, from: usize) -> (r: Option<usize>)
    ensures
        found(r) == first_occurrence(hay@, needle@, from as int),
{
    let n = needle.len();
    if n > hay.len() || from > hay.len() - n {
        return None;
    }
    let last = hay.len() - n;
    let mut at: usize = from;
    while at < last
        invariant
            n == needle.len(),
            last == hay.len() - n,
            from <= at <= last,
            forall|k: int| from <= k < at ==> !occurs_at(hay@, needle@, k),
        decreases last - at,
    {
        if stands_at(hay, needle, at) {
            proof {
                lemma_first_occurrence_is(hay@, needle@, from as int, at as int);
            }
            return Some(at);
        }
        at += 1;
    }
    if stands_at(hay, needle, last) {
        proof {
            lemma_first_occurrence_is(hay@, needle@, from as int, last as int);
        }
        Some(last)
    } else {
        None
    }
}

/// Returns the text between the first two non-overlapping occurrences of
/// `delimiter` in `s`, or `None` when the delimiter is empty or does not
/// occur twice.
pub fn substring_between<'a>(s: &'a str, delimiter: &str) -> (r: Option<&'a str>)
    ensures
        match r {
            Some(t) => spec_substring_between(s@, delimiter@) == Some(t@),
            None => spec_substring_between(s@, delimiter@) is None,
        },
{
    if delimiter.is_empty() {
        return None;
    }
    let hay = chars_of(s);
    let needle = chars_of(delimiter);
    match find_from(&hay, &needle, 0) {
        None => None,
        Some(open) => {
            proof {
                assert(open + needle.len() <= hay.len());
            }
            let after = open + needle.len();
            match find_from(&hay, &needle, after) {
                None => None,
                Some(close) => {
                    Some(s.substring_char(after, close))
                },
            }
        },
    }
}

/// The length of `s` in bytes.
pub fn byte_length(s: &str) -> (n: usize)
    ensures
        n == byte_len(s@),
{
    s.as_bytes().len()
}

/// Tells whether two texts hold the same characters.
pub fn text_eq(a: &str, b: &str) -> (r: bool)
    ensures
        r == (a@ == b@),
{
    let x = a.as_bytes();
    let y = b.as_bytes();
    proof {
        // the encoding loses nothing, so equal bytes come from equal texts
        encode_utf8_decode_utf8(a@);
        encode_utf8_decode_utf8(b@);
    }
    if x.len() != y.len() {
        return false;
    }
    let n = x.len();
    let mut i: usize = 0;
    while i < n
        invariant
            n == x@.len(),
            n == y@.len(),
            i <= n,
            x@ == a.spec_bytes(),
            y@ == b.spec_bytes(),
            forall|j: int| 0 <= j < i ==> x@[j] == y@[j],
        decreases n - i,
    {
        if x[i] != y[i] {
            return false;
        }
        i += 1;
    }
    assert(x@ =~= y@);
    true
}

/// Folds an ASCII capital onto its small letter and leaves every other character alone.
pub fn fold_ascii(c: char) -> (r: u32)
    ensures
        r == ascii_fold(c),
{
    let code = c as u32;
    if 'A' <= c && c <= 'Z' {
        code + 32
    } else {
        code
    }
}

/// Tells whether two texts are the same up to the case of their ASCII letters.
pub fn eq_ignore_ascii_case(a: &str, b: &str) -> (r: bool)
    ensures
        r == same_ignoring_ascii_case(a@, b@),
{
    let x = chars_of(a);
    let y = chars_of(b);
    if x.len() != y.len() {
        return false;
    }
    let n = x.len();
    let mut i: usize = 0;
    while i < n
        invariant
            n == x@.len(),
            n == y@.len(),
            i <= n,
            x@ == a@,
            y@ == b@,
            forall|j: int| 0 <= j < i ==> ascii_fold(#[trigger] x@[j]) == ascii_fold(y@[j]),
        decreases n - i,
    {
        if fold_ascii(x[i]) != fold_ascii(y[i]) {
            return false;
        }
        i += 1;
    }
    true
}

/// Writes the parts one after another, with `sep` between neighbours.
pub fn join(parts: &Vec<String>, sep: &str) -> (out: String)
    ensures
        out@ == spec_join(texts(parts@), sep@),
{
    let mut out = String::new();
    let n = parts.len();
    let mut i: usize = 0;
    while i < n
        invariant
            n == parts@.len(),
            i <= n,
            out@ == spec_join(texts(parts@).take(i as int), sep@),
        decreases n - i,
    {
        if i > 0 {
            out.append(sep);
        }
        out.append(parts[i].as_str());
        proof {
            let upto = texts(parts@).take(i + 1);
            assert(upto.drop_last() =~= texts(parts@).take(i as int));
            if i == 0 {
            }
        }
        i += 1;
    }
    assert(texts(parts@).take(n as int) =~= texts(parts@));
    out
}

/// Finds the first entry of `names` that equals `wanted`.
pub fn position(names: &Vec<String>, wanted: &str) -> (r: Option<usize>)
    ensures
        found(r) == spec_position(texts(names@), wanted@),
{
    let n = names.len();
    let mut i: usize = 0;
    while i < n
        invariant
            n == names@.len(),
            i <= n,
            forall|k: int| 0 <= k < i ==> #[trigger] texts(names@)[k] != wanted@,
        decreases n - i,
    {
        if text_eq(names[i].as_str(), wanted) {
            assert(is_position(texts(names@), wanted@, i as int));
            return Some(i);
        }
        i += 1;
    }
    None
}

/// Finds the first entry of `names` that equals `wanted` up to the case of ASCII letters.
pub fn position_ignore_ascii_case(names: &Vec<String>, wanted: &str) -> (r: Option<usize>)
    ensures
        found(r) == spec_position_ignoring_ascii_case(texts(names@), wanted@),
{
    let n = names.len();
    let mut i: usize = 0;
    while i < n
        invariant
            n == names@.len(),
            i <= n,
            forall|k: int|
                0 <= k < i ==> !same_ignoring_ascii_case(wanted@, #[trigger] texts(names@)[k]),
        decreases n - i,
    {
        if eq_ignore_ascii_case(wanted, names[i].as_str()) {
            assert(is_position_ignoring_ascii_case(texts(names@), wanted@, i as int));
            return Some(i);
        }
        i += 1;
    }
    None
}

/// Finds the last entry of `names` that equals `wanted` up to the case of ASCII letters.
pub fn last_position_ignore_ascii_case(names: &Vec<String>, wanted: &str) -> (r: Option<usize>)
    ensures
        found(r) == spec_last_position_ignoring_ascii_case(texts(names@), wanted@),
{
    let n = names.len();
    let mut i: usize = n;
    while i > 0
        invariant
            n == names@.len(),
            i <= n,
            forall|k: int|
                i <= k < n ==> !same_ignoring_ascii_case(wanted@, #[trigger] texts(names@)[k]),
        decreases i,
    {
        i -= 1;
        if eq_ignore_ascii_case(wanted, names[i].as_str()) {
            assert(is_last_position_ignoring_ascii_case(texts(names@), wanted@, i as int));
            return Some(i);
        }
    }
    None
}

/// The decimal digit `d` as a one-character string.
fn digit_text(d: u32) -> (r: &'static str)
    requires
        d < 10,
    ensures
        r@ == seq![digit(d as int)],
{
    proof {
        reveal_strlit("0");
        reveal_strlit("1");
        reveal_strlit("2");
        reveal_strlit("3");
        reveal_strlit("4");
        reveal_strlit("5");
        reveal_strlit("6");
        reveal_strlit("7");
        reveal_strlit("8");
        reveal_strlit("9");
    }
    let r = if d == 0 {
        "0"
    } else if d == 1 {
        "1"
    } else if d == 2 {
        "2"
    } else if d == 3 {
        "3"
    } else if d == 4 {
        "4"
    } else if d == 5 {
        "5"
    } else if d == 6 {
        "6"
    } else if d == 7 {
        "7"
    } else if d == 8 {
        "8"
    } else {
        "9"
    };
    r
}

/// Writes `n` as a decimal numeral, without leading zeros.
pub fn decimal(n: u32) -> (r: String)
    ensures
        r@ == spec_decimal(n as nat),
    decreases n,
{
    if n < 10 {
        String::from_str(digit_text(n))
    } else {
        let mut r = decimal(n / 10);
        r.append(digit_text(n % 10));
        r
    }
}

} // verus!
