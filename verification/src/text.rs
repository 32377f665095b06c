//! Text primitives shared by the agents and tools.
//!
//! All contracts speak of strings through their view, a `Seq<char>`.

use vstd::prelude::*;
use vstd::string::{StrSliceExecFns, StringExecFns};

verus! {

/// The lowercase form of a text, as `str::to_lowercase` computes it.
pub uninterp spec fn lowered(s: Seq<char>) -> Seq<char>;

/// The uppercase form of a text, as `str::to_uppercase` computes it.
pub uninterp spec fn uppered(s: Seq<char>) -> Seq<char>;

/// The whitespace-separated words of a text, in order, as
/// `str::split_whitespace` yields them.
pub uninterp spec fn words_of(s: Seq<char>) -> Seq<Seq<char>>;

/// `pat` occurs in `s` as a contiguous run of characters.
pub open spec fn is_infix(pat: Seq<char>, s: Seq<char>) -> bool {
    exists|i: int| 0 <= i && i + pat.len() <= s.len() && #[trigger] s.subrange(i, i + pat.len()) == pat
}

/// The views of a vector of strings.
pub open spec fn texts(v: Seq<String>) -> Seq<Seq<char>> {
    v.map_values(|s: String| s@)
}

/// Calls `str::to_lowercase`. The result is taken to be a function of the
/// input alone, named [`lowered`]; nothing more is claimed of it.
#[verifier::external_body]
pub(crate) fn to_lowercase(s: &str) -> (r: String)
    ensures
        r@ == lowered(s@),
{
    s.to_lowercase()
}

/// Calls `str::to_uppercase`. The result is taken to be a function of the
/// input alone, named [`uppered`]; nothing more is claimed of it.
#[verifier::external_body]
pub(crate) fn to_uppercase(s: &str) -> (r: String)
    ensures
        r@ == uppered(s@),
{
    s.to_uppercase()
}

/// Calls `str::contains` with a string pattern: true exactly when the
/// pattern occurs in the text as a contiguous run of characters.
#[verifier::external_body]
pub(crate) fn contains(s: &str, pat: &str) -> (r: bool)
    ensures
        r == is_infix(pat@, s@),
{
    s.contains(pat)
}

/// Calls `str::split_whitespace` and collects the words as owned strings.
/// The words are taken to be a function of the input alone, named
/// [`words_of`].
#[verifier::external_body]
pub(crate) fn split_whitespace(s: &str) -> (r: Vec<String>)
    ensures
        texts(r@) == words_of(s@),
{
    s.split_whitespace().map(|w| w.to_string()).collect()
}

/// Calls `str::eq`: two string slices are equal exactly when they hold the
/// same characters.
#[verifier::external_body]
pub(crate) fn same_text(a: &str, b: &str) -> (r: bool)
    ensures
        r == (a@ == b@),
{
    a == b
}

/// The text of one decimal digit.
pub open spec fn digit_text(d: nat) -> Seq<char> {
    if d == 0 {
        "0"@
    } else if d == 1 {
        "1"@
    } else if d == 2 {
        "2"@
    } else if d == 3 {
        "3"@
    } else if d == 4 {
        "4"@
    } else if d == 5 {
        "5"@
    } else if d == 6 {
        "6"@
    } else if d == 7 {
        "7"@
    } else if d == 8 {
        "8"@
    } else {
        "9"@
    }
}

/// The decimal numeral of a natural number, without leading zeros.
pub open spec fn decimal(n: nat) -> Seq<char>
    decreases n,
{
    if n < 10 {
        digit_text(n)
    } else {
        decimal(n / 10) + digit_text(n % 10)
    }
}

fn digit_str(d: u64) -> (r: &'static str)
    requires
        d < 10,
    ensures
        r@ == digit_text(d as nat),
{
    if d == 0 {
        "0"
    } else if d == 1 {
        "1"
    } else if d == 2 {
        "2"
    } else if d == 3 {
        "3"
    } else if d == 4 {
        "4"
    } else if d == 5 {
        "5"
    } else if d == 6 {
        "6"
    } else if d == 7 {
        "7"
    } else if d == 8 {
        "8"
    } else {
        "9"
    }
}

/// Writes a number as its decimal numeral.
pub fn decimal_string(n: u64) -> (r: String)
    ensures
        r@ == decimal(n as nat),
    decreases n,
{
    if n < 10 {
        digit_str(n).to_string()
    } else {
        let mut r = decimal_string(n / 10);
        r.append(digit_str(n % 10));
        r
    }
}

/// Joins two texts.
pub fn join2(a: &str, b: &str) -> (r: String)
    ensures
        r@ == a@ + b@,
{
    let mut r = a.to_string();
    r.append(b);
    r
}

/// The first position at or after `from` at which `keys` holds `key`, or
/// the length of `keys` where there is none.
pub open spec fn position_from(keys: Seq<Seq<char>>, key: Seq<char>, from: int) -> int
    decreases keys.len() - from,
{
    if from < 0 || from >= keys.len() {
        keys.len() as int
    } else if keys[from] == key {
        from
    } else {
        position_from(keys, key, from + 1)
    }
}

/// The first position at which `keys` holds `key`, or the length of `keys`.
pub open spec fn position(keys: Seq<Seq<char>>, key: Seq<char>) -> int {
    position_from(keys, key, 0)
}

/// `keys` holds `key`.
pub open spec fn knows(keys: Seq<Seq<char>>, key: Seq<char>) -> bool {
    position(keys, key) < keys.len()
}

/// [`position_from`] gives the first match: it lies in range, it matches
/// where it is a position, and nothing before it matches.
pub proof fn lemma_position_from(keys: Seq<Seq<char>>, key: Seq<char>, from: int)
    requires
        0 <= from <= keys.len(),
    ensures
        from <= position_from(keys, key, from) <= keys.len(),
        position_from(keys, key, from) < keys.len() ==> keys[position_from(keys, key, from)] == key,
        forall|j: int| from <= j < position_from(keys, key, from) ==> keys[j] != key,
    decreases keys.len() - from,
{
    if from < keys.len() && keys[from] != key {
        lemma_position_from(keys, key, from + 1);
    }
}

/// The names after `id` has been registered: unchanged where the name was
/// known, else with `id` at the end.
pub open spec fn register(ids: Seq<Seq<char>>, id: Seq<char>) -> Seq<Seq<char>> {
    if knows(ids, id) {
        ids
    } else {
        ids.push(id)
    }
}

/// The number of bytes that a text takes in UTF-8, which is what
/// `str::len` counts.
pub open spec fn byte_len(s: Seq<char>) -> nat {
    vstd::utf8::encode_utf8(s).len()
}

/// A copy of a vector of strings.
pub fn clone_texts(v: &Vec<String>) -> (r: Vec<String>)
    ensures
        texts(r@) == texts(v@),
{
    let mut out: Vec<String> = Vec::new();
    let mut i: usize = 0;
    while i < v.len()
        invariant
            i <= v.len(),
            out@.len() == i,
            forall|k: int| 0 <= k < i ==> (#[trigger] out@[k])@ == v@[k]@,
        decreases v.len() - i,
    {
        out.push(v[i].clone());
        i += 1;
    }
    assert(texts(out@) =~= texts(v@));
    out
}

/// The lowercase forms of a run of texts.
pub open spec fn lowered_all(v: Seq<Seq<char>>) -> Seq<Seq<char>> {
    v.map_values(|s: Seq<char>| lowered(s))
}

/// The lowercase forms of a vector of strings.
pub fn lowercase_all(v: &Vec<String>) -> (r: Vec<String>)
    ensures
        texts(r@) == lowered_all(texts(v@)),
{
    let mut out: Vec<String> = Vec::new();
    let mut i: usize = 0;
    while i < v.len()
        invariant
            i <= v.len(),
            out@.len() == i,
            forall|k: int| 0 <= k < i ==> (#[trigger] out@[k])@ == lowered(v@[k]@),
        decreases v.len() - i,
    {
        out.push(to_lowercase(v[i].as_str()));
        i += 1;
    }
    assert(texts(out@) =~= lowered_all(texts(v@)));
    out
}

/// One of the texts in `haystacks` holds `needle`.
pub open spec fn any_holds(haystacks: Seq<Seq<char>>, needle: Seq<char>) -> bool {
    exists|i: int| 0 <= i < haystacks.len() && is_infix(needle, #[trigger] haystacks[i])
}

/// Whether one of the strings holds `needle`.
pub fn contains_any(haystacks: &Vec<String>, needle: &str) -> (r: bool)
    ensures
        r == any_holds(texts(haystacks@), needle@),
{
    let mut i: usize = 0;
    while i < haystacks.len()
        invariant
            i <= haystacks.len(),
            forall|k: int| 0 <= k < i ==> !is_infix(needle@, #[trigger] texts(haystacks@)[k]),
        decreases haystacks.len() - i,
    {
        if contains(haystacks[i].as_str(), needle) {
            assert(is_infix(needle@, texts(haystacks@)[i as int]));
            return true;
        }
        i += 1;
    }
    false
}

/// The last character boundary of `bytes` at or before position `n`.
pub open spec fn floor_boundary(bytes: Seq<u8>, n: int) -> int
    decreases n,
{
    if n <= 0 {
        0
    } else if vstd::utf8::is_char_boundary(bytes, n) {
        n
    } else {
        floor_boundary(bytes, n - 1)
    }
}

/// The longest prefix of whole characters of `s` that takes no more than
/// `n` bytes in UTF-8.
pub open spec fn clipped(s: Seq<char>, n: nat) -> Seq<char> {
    let bytes = vstd::utf8::encode_utf8(s);
    vstd::utf8::decode_utf8(bytes.subrange(0, floor_boundary(bytes, n as int)))
}

/// Cuts a text down to its longest prefix of whole characters that takes
/// no more than `n` bytes.
pub fn clip(s: &str, n: usize) -> (r: &str)
    ensures
        r@ == clipped(s@, n as nat),
{
    broadcast use vstd::utf8::group_utf8_lib;

    let ghost bytes = vstd::utf8::encode_utf8(s@);
    let mut k: usize = n;
    while k > 0 && !s.is_char_boundary(k)
        invariant
            k <= n,
            bytes == vstd::utf8::encode_utf8(s@),
            floor_boundary(bytes, n as int) == floor_boundary(bytes, k as int),
        decreases k,
    {
        k -= 1;
    }
    assert(vstd::utf8::is_char_boundary(bytes, k as int));
    let parts = s.split_at(k);
    assert(parts.0@ == vstd::utf8::decode_utf8(vstd::utf8::encode_utf8(parts.0@)));
    parts.0
}

/// A text as it is where it takes no more than `n` bytes, else cut down to
/// whole characters within `n` bytes and followed by three dots.
pub open spec fn excerpt(s: Seq<char>, n: nat) -> Seq<char> {
    if byte_len(s) > n {
        clipped(s, n) + "..."@
    } else {
        s
    }
}

/// Shortens a text to an excerpt of at most `n` bytes and three dots.
pub fn excerpt_of(s: &str, n: usize) -> (r: String)
    ensures
        r@ == excerpt(s@, n as nat),
{
    if s.as_bytes().len() > n {
        join2(clip(s, n), "...")
    } else {
        s.to_string()
    }
}

/// A text with a space in place of each underscore.
pub open spec fn spaced(s: Seq<char>) -> Seq<char> {
    s.map_values(|c: char| if c == '_' {
        ' '
    } else {
        c
    })
}

/// Calls `str::replace` with the pattern `'_'` and the replacement `" "`:
/// each underscore becomes a space, and every other character stays.
#[verifier::external_body]
pub(crate) fn underscores_to_spaces(s: &str) -> (r: String)
    ensures
        r@ == spaced(s@),
{
    s.replace('_', " ")
}

/// Joins three texts.
pub fn join3(a: &str, b: &str, c: &str) -> (r: String)
    ensures
        r@ == a@ + b@ + c@,
{
    let mut r = a.to_string();
    r.append(b);
    r.append(c);
    r
}

/// The value of a decimal digit; nothing for any other character.
pub open spec fn digit_value(c: char) -> Option<nat> {
    if '0' <= c && c <= '9' {
        Some((c as u32 - '0' as u32) as nat)
    } else {
        None
    }
}

/// The number that the first `n` characters write in decimal digits;
/// nothing where one of them is no digit.
pub open spec fn digits_value(s: Seq<char>, n: nat) -> Option<nat>
    decreases n,
{
    if n == 0 {
        Some(0)
    } else if n > s.len() {
        None
    } else {
        match (digits_value(s, (n - 1) as nat), digit_value(s[n - 1])) {
            (Some(v), Some(d)) => Some(v * 10 + d),
            _ => None,
        }
    }
}

/// The port that a text names: one decimal digit or more, after a plus
/// sign or none, that write a number up to 65535.
pub open spec fn port_of(s: Seq<char>) -> Option<u16> {
    let digits = if s.len() > 0 && s[0] == '+' {
        s.subrange(1, s.len() as int)
    } else {
        s
    };
    match digits_value(digits, digits.len()) {
        Some(v) => if digits.len() > 0 && v <= 65535 {
            Some(v as u16)
        } else {
            None
        },
        None => None,
    }
}

proof fn lemma_digits_grow(s: Seq<char>, k: nat, n: nat)
    requires
        k <= n <= s.len(),
    ensures
        digits_value(s, k) is None ==> digits_value(s, n) is None,
        digits_value(s, k) is Some && digits_value(s, n) is Some ==> digits_value(s, n)->0
            >= digits_value(s, k)->0,
    decreases n - k,
{
    if k < n {
        lemma_digits_grow(s, k, (n - 1) as nat);
    }
}

/// Reads a port number as `str::parse::<u16>` reads it.
pub fn parse_port(s: &str) -> (r: Option<u16>)
    ensures
        r == port_of(s@),
{
    let n = s.unicode_len();
    let start: usize = if n > 0 && s.get_char(0) == '+' {
        1
    } else {
        0
    };
    let ghost digits = if start == 1 {
        s@.subrange(1, n as int)
    } else {
        s@
    };
    if start == n {
        return None;
    }
    let mut value: u32 = 0;
    let mut i: usize = start;
    while i < n
        invariant
            start <= i <= n,
            n == s@.len(),
            start <= 1,
            digits.len() == n - start,
            digits == if s@.len() > 0 && s@[0] == '+' {
                s@.subrange(1, s@.len() as int)
            } else {
                s@
            },
            forall|k: int| 0 <= k < digits.len() ==> digits[k] == s@[k + start],
            digits_value(digits, (i - start) as nat) == Some(value as nat),
            value <= 65535,
        decreases n - i,
    {
        let c = s.get_char(i);
        assert(digits[i - start] == c);
        if c < '0' || c > '9' {
            proof {
                assert(digits_value(digits, (i - start + 1) as nat) is None);
                lemma_digits_grow(digits, (i - start + 1) as nat, digits.len());
            }
            return None;
        }
        let d: u32 = c as u32 - '0' as u32;
        let next: u32 = value * 10 + d;
        if next > 65535 {
            proof {
                assert(digits_value(digits, (i - start + 1) as nat) == Some(next as nat));
                lemma_digits_grow(digits, (i - start + 1) as nat, digits.len());
            }
            return None;
        }
        value = next;
        i += 1;
    }
    Some(value as u16)
}

/// The text where there is one, else the default.
pub fn text_or(value: Option<String>, default: &str) -> (r: String)
    ensures
        r@ == match value {
            Some(v) => v@,
            None => default@,
        },
{
    match value {
        Some(v) => v,
        None => default.to_string(),
    }
}

/// The port that a setting names, or the default where there is no
/// setting or it names no port.
pub open spec fn port_or(value: Option<String>, default: u16) -> u16 {
    match value {
        Some(v) => match port_of(v@) {
            Some(p) => p,
            None => default,
        },
        None => default,
    }
}

/// Reads a port from a setting.
pub fn read_port_or(value: &Option<String>, default: u16) -> (r: u16)
    ensures
        r == port_or(*value, default),
{
    match value {
        Some(v) => match parse_port(v.as_str()) {
            Some(p) => p,
            None => default,
        },
        None => default,
    }
}

} // verus!
