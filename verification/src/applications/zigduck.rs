//! APPLICATIONS/ZIGDUCK: talks to the home-automation API.

use vstd::prelude::*;
use vstd::utf8::*;
use vstd::string::{StrSliceExecFns, StringSliceAdditionalSpecFns};
use super::Page;
use crate::url::hex_digit;
use crate::text::{concat, lemma_encode_utf8_concat, lemma_encode_ascii_char, lemma_encode_ascii_len};
use vstd::string::StringExecFns;

verus! {

#[verifier::external_type_specification]
#[verifier::external_body]
pub struct ExHeaplessString<const N: usize>(heapless::String<N>);

/// The characters held by a `heapless::String<256>`.
pub uninterp spec fn chars256(s: heapless::String<256>) -> Seq<char>;

/// `heapless::String::<256>::new`: an empty string.
#[verifier::external_body]
fn new256() -> (r: heapless::String<256>)
    ensures
        chars256(r) == Seq::<char>::empty(),
{
    heapless::String::new()
}

/// Number of UTF-8 bytes of a character sequence.
pub open spec fn byte_len(s: Seq<char>) -> int {
    encode_utf8(s).len() as int
}

/// `heapless::String::<256>::push`: appends `c` when its UTF-8 bytes fit
/// in the remaining capacity, else leaves the string as it is and fails.
#[verifier::external_body]
fn push256(s: &mut heapless::String<256>, c: char) -> (r: Result<(), ()>)
    ensures
        r is Ok <==> byte_len(chars256(*old(s))) + byte_len(seq![c]) <= 256,
        r is Ok ==> chars256(*final(s)) == chars256(*old(s)).push(c),
        r is Err ==> chars256(*final(s)) == chars256(*old(s)),
{
    s.push(c)
}

/// `heapless::String::<256>::len`: its length in bytes, which never exceeds
/// the capacity.
#[verifier::external_body]
fn len256(s: &heapless::String<256>) -> (r: usize)
    ensures
        r == byte_len(chars256(*s)),
        r <= 256,
{
    s.len()
}

/// `heapless::String::<256>::capacity`: 256.
#[verifier::external_body]
fn capacity256(s: &heapless::String<256>) -> (r: usize)
    ensures
        r == 256,
{
    s.capacity()
}

/// Appends `c` to a string with room for its byte.
fn push_ascii256(s: &mut heapless::String<256>, c: char)
    requires
        '\0' <= c <= '\u{7f}',
        byte_len(chars256(*old(s))) + 1 <= 256,
    ensures
        chars256(*final(s)) == chars256(*old(s)).push(c),
        byte_len(chars256(*final(s))) == byte_len(chars256(*old(s))) + 1,
{
    proof {
        lemma_encode_ascii_char(c);
        lemma_encode_utf8_concat(chars256(*s), seq![c]);
        assert(chars256(*s) + seq![c] =~= chars256(*s).push(c));
    }
    let pushed = push256(s, c);
    assert(pushed is Ok);
}

/// Appends `%` and the byte's two upper-case hex digits to a string with
/// room for their three bytes.
fn push_percent_hex(s: &mut heapless::String<256>, byte: u8)
    requires
        byte_len(chars256(*old(s))) + 3 <= 256,
    ensures
        chars256(*final(s)) == chars256(*old(s)) + seq![
            '%',
            hex_digit(byte / 16) as char,
            hex_digit(byte % 16) as char,
        ],
{
    let hi = crate::url::char_to_hex(byte / 16);
    let lo = crate::url::char_to_hex(byte % 16);
    push_ascii256(s, '%');
    push_ascii256(s, hi as char);
    push_ascii256(s, lo as char);
    assert(chars256(*s) =~= chars256(*old(s)) + seq!['%', hex_digit(byte / 16) as char, hex_digit(byte % 16) as char]);
}

/// Bytes that form-encoding keeps: ASCII letters, digits, `-`, `_`, `.`,
/// `~`.
pub open spec fn is_form_safe(b: u8) -> bool {
    (48 <= b <= 57) || (65 <= b <= 90) || (97 <= b <= 122) || b == 0x2d || b == 0x5f || b
        == 0x2e || b == 0x7e
}

/// Form-encoding of one byte: kept when safe, `+` for a space, else `%XX`
/// with upper-case hex digits.
pub open spec fn form_encode_byte(b: u8) -> Seq<char> {
    if is_form_safe(b) {
        seq![b as char]
    } else if b == 0x20 {
        seq!['+']
    } else {
        seq!['%', hex_digit(b / 16) as char, hex_digit(b % 16) as char]
    }
}

pub open spec fn form_encode(s: Seq<u8>) -> Seq<char>
    decreases s.len(),
{
    if s.len() == 0 {
        seq![]
    } else {
        form_encode(s.drop_last()) + form_encode_byte(s.last())
    }
}

proof fn lemma_form_encode_ascii(s: Seq<u8>)
    ensures
        byte_len(form_encode(s)) == form_encode(s).len(),
        form_encode(s).len() <= 3 * s.len(),
        is_ascii_chars(form_encode(s)),
    decreases s.len(),
{
    if s.len() > 0 {
        lemma_form_encode_ascii(s.drop_last());
        let p = form_encode(s.drop_last());
        let e = form_encode_byte(s.last());
        assert forall|i: int| 0 <= i < form_encode(s).len() implies '\0' <= #[trigger] form_encode(s)[i] <= '\u{7f}' by {
            if i < p.len() {
                assert(form_encode(s)[i] == p[i]);
            } else {
                assert(form_encode(s)[i] == e[i - p.len()]);
            }
        }
    }
    crate::text::lemma_encode_ascii_len(form_encode(s));
}

/// Form-encodes `input` (query-string style: space as `+`) onto the end of
/// `buf`. Fails, leaving `buf` as it is, unless three bytes per input byte
/// fit in what is left of its capacity.
pub fn url_encode(input: &str, buf: &mut heapless::String<256>) -> (r: Result<(), ()>)
    requires
        input.spec_bytes().len() * 3 <= usize::MAX,
    ensures
        input.spec_bytes().len() * 3 > 256 - byte_len(chars256(*old(buf))) ==> r is Err
            && chars256(*final(buf)) == chars256(*old(buf)),
        input.spec_bytes().len() * 3 <= 256 - byte_len(chars256(*old(buf))) ==> r is Ok
            && chars256(*final(buf)) == chars256(*old(buf)) + form_encode(input.spec_bytes()),
{
    let bytes = input.as_bytes();
    // ROUGH CAPACITY CHECK (WORST CASE SCENARIO 3x EXPANSION)
    if bytes.len() * 3 > capacity256(buf) - len256(buf) {
        return Err(());
    }
    let ghost start = chars256(*buf);
    let mut i: usize = 0;
    while i < bytes.len()
        invariant
            bytes@ == input.spec_bytes(),
            i <= bytes.len(),
            byte_len(start) + 3 * bytes.len() <= 256,
            chars256(*buf) == start + form_encode(bytes@.take(i as int)),
        decreases bytes.len() - i,
    {
        let byte = bytes[i];
        proof {
            assert(bytes@.take(i + 1).drop_last() =~= bytes@.take(i as int));
            lemma_form_encode_ascii(bytes@.take(i as int));
            lemma_encode_utf8_concat(start, form_encode(bytes@.take(i as int)));
            assert(bytes@.take(i as int).len() == i);
        }
        let ghost before = chars256(*buf);
        if (byte >= 65 && byte <= 90) || (byte >= 97 && byte <= 122) || (byte >= 48 && byte <= 57)
            || byte == 0x2d || byte == 0x5f || byte == 0x2e || byte == 0x7e {
            // KEEP THEM AS IS
            let c = byte as char;
            proof {
                lemma_encode_ascii_char(c);
            }
            let pushed = push256(buf, c);
            assert(pushed is Ok);
        } else if byte == 0x20 {
            // SPACE = `+`
            proof {
                lemma_encode_ascii_char('+');
            }
            let pushed = push256(buf, '+');
            assert(pushed is Ok);
        } else {
            // EVERYTHING ELSE = `%XX`
            push_percent_hex(buf, byte);
        }
        proof {
            assert(chars256(*buf) =~= start + form_encode(bytes@.take(i + 1)));
        }
        i = i + 1;
    }
    proof {
        assert(bytes@.take(bytes@.len() as int) =~= bytes@);
    }
    Ok(())
}

#[verifier::external_type_specification]
#[verifier::external_body]
#[verifier::reject_recursive_types(T)]
pub struct ExHeaplessVec<T, const N: usize>(heapless::Vec<T, N>);

/// The characters held by a `heapless::String<128>`.
pub uninterp spec fn chars128(s: heapless::String<128>) -> Seq<char>;

/// The entries of a directory list, each as its characters.
pub uninterp spec fn dir_entries(v: heapless::Vec<heapless::String<128>, 96>) -> Seq<Seq<char>>;

/// The Unicode White_Space property: tab to carriage return, space,
/// next line, no-break space, Ogham space mark, the spaces from en quad to
/// hair space, the line and paragraph separators, narrow no-break space,
/// medium mathematical space and ideographic space.
pub open spec fn char_is_whitespace(c: char) -> bool {
    ||| '\u{9}' <= c <= '\u{d}'
    ||| c == ' '
    ||| c == '\u{85}'
    ||| c == '\u{a0}'
    ||| c == '\u{1680}'
    ||| '\u{2000}' <= c <= '\u{200a}'
    ||| c == '\u{2028}'
    ||| c == '\u{2029}'
    ||| c == '\u{202f}'
    ||| c == '\u{205f}'
    ||| c == '\u{3000}'
}

/// `char::is_whitespace`: whether `c` has the Unicode White_Space
/// property, as `char_is_whitespace` lists it.
#[verifier::external_body]
fn is_whitespace(c: char) -> (r: bool)
    ensures
        r == char_is_whitespace(c),
{
    c.is_whitespace()
}

/// `heapless::String::<128>::try_from(&str)`: succeeds exactly when the
/// string's bytes fit in the capacity, and then holds its characters.
#[verifier::external_body]
fn string128_from(s: &str) -> (r: Result<heapless::String<128>, ()>)
    ensures
        r is Ok <==> byte_len(s@) <= 128,
        r matches Ok(h) ==> chars128(h) == s@,
{
    heapless::String::try_from(s)
}

/// `heapless::String::<128>::push_str`: appends `s` when its bytes fit in
/// the remaining capacity, else leaves the string as it is and fails.
#[verifier::external_body]
fn push_str128(h: &mut heapless::String<128>, s: &str) -> (r: Result<(), ()>)
    ensures
        r is Ok <==> byte_len(chars128(*old(h))) + byte_len(s@) <= 128,
        r is Ok ==> chars128(*final(h)) == chars128(*old(h)) + s@,
        r is Err ==> chars128(*final(h)) == chars128(*old(h)),
{
    h.push_str(s)
}

/// `heapless::String::<128>::as_str`.
#[verifier::external_body]
fn as_str128(h: &heapless::String<128>) -> (r: &str)
    ensures
        r@ == chars128(*h),
{
    h.as_str()
}

/// `heapless::Vec::<heapless::String<128>, 96>::new`: an empty list.
#[verifier::external_body]
fn new_dir_list() -> (r: heapless::Vec<heapless::String<128>, 96>)
    ensures
        dir_entries(r) == Seq::<Seq<char>>::empty(),
{
    heapless::Vec::new()
}

/// `heapless::Vec::<heapless::String<128>, 96>::push`: appends the entry
/// unless the list already holds 96, in which case it is left as it is.
#[verifier::external_body]
fn push_dir(v: &mut heapless::Vec<heapless::String<128>, 96>, item: heapless::String<128>) -> (r:
    Result<(), heapless::String<128>>)
    ensures
        r is Ok <==> dir_entries(*old(v)).len() < 96,
        r is Ok ==> dir_entries(*final(v)) == dir_entries(*old(v)).push(chars128(item)),
        r is Err ==> dir_entries(*final(v)) == dir_entries(*old(v)),
{
    v.push(item)
}

/// `heapless::Vec::get(index).cloned()` on a directory list: a copy of
/// the entry at `index`, or `None` past the end.
#[verifier::external_body]
pub(crate) fn dir_get(v: &heapless::Vec<heapless::String<128>, 96>, index: usize) -> (r: Option<heapless::String<128>>)
    ensures
        r is Some <==> index < dir_entries(*v).len(),
        r matches Some(s) ==> chars128(s) == dir_entries(*v)[index as int],
{
    v.get(index).cloned()
}

/// First index from `from` on where `pat` occurs in `s`.
pub open spec fn find_from(s: Seq<char>, pat: Seq<char>, from: int) -> Option<int>
    decreases s.len() - from,
{
    if from < 0 || from >= s.len() || from + pat.len() > s.len() {
        None
    } else if s.subrange(from, from + pat.len()) == pat {
        Some(from)
    } else {
        find_from(s, pat, from + 1)
    }
}

/// First index from `from` on that holds `c`.
pub open spec fn find_char(s: Seq<char>, c: char, from: int) -> Option<int>
    decreases s.len() - from,
{
    if from < 0 || from >= s.len() {
        None
    } else if s[from] == c {
        Some(from)
    } else {
        find_char(s, c, from + 1)
    }
}

/// The pieces of `s` between commas (`str::split(',')`).
pub open spec fn split_commas(s: Seq<char>) -> Seq<Seq<char>>
    decreases s.len(),
{
    match find_char(s, ',', 0) {
        Some(i) => if 0 <= i < s.len() {
            seq![s.take(i)] + split_commas(s.skip(i + 1))
        } else {
            seq![s]
        },
        None => seq![s],
    }
}

/// Characters that a trim removes: `"` when `quotes`, else whitespace.
pub open spec fn is_trim_char(c: char, quotes: bool) -> bool {
    if quotes {
        c == '"'
    } else {
        char_is_whitespace(c)
    }
}

pub open spec fn trim_front(s: Seq<char>, quotes: bool) -> Seq<char>
    decreases s.len(),
{
    if s.len() > 0 && is_trim_char(s[0], quotes) {
        trim_front(s.drop_first(), quotes)
    } else {
        s
    }
}

pub open spec fn trim_back(s: Seq<char>, quotes: bool) -> Seq<char>
    decreases s.len(),
{
    if s.len() > 0 && is_trim_char(s.last(), quotes) {
        trim_back(s.drop_last(), quotes)
    } else {
        s
    }
}

/// `str::trim` (whitespace) or `str::trim_matches('"')` (quotes).
pub open spec fn trim_both(s: Seq<char>, quotes: bool) -> Seq<char> {
    trim_back(trim_front(s, quotes), quotes)
}

/// A list entry as written in the JSON array: trimmed of whitespace, then
/// of quotes, then of whitespace again.
pub open spec fn clean_entry(part: Seq<char>) -> Seq<char> {
    trim_both(trim_both(trim_both(part, false), true), false)
}

/// The list after one more piece: its cleaned text is appended when it is
/// not empty, fits in 128 bytes, and the list holds fewer than 96 entries.
pub open spec fn add_entry(acc: Seq<Seq<char>>, part: Seq<char>) -> Seq<Seq<char>> {
    let c = clean_entry(part);
    if c.len() > 0 && byte_len(c) <= 128 && acc.len() < 96 {
        acc.push(c)
    } else {
        acc
    }
}

pub open spec fn collect_entries(parts: Seq<Seq<char>>, acc: Seq<Seq<char>>) -> Seq<Seq<char>>
    decreases parts.len(),
{
    if parts.len() == 0 {
        acc
    } else {
        collect_entries(parts.drop_first(), add_entry(acc, parts[0]))
    }
}

/// `"directories":[`
pub open spec fn directories_key() -> Seq<char> {
    seq!['"', 'd', 'i', 'r', 'e', 'c', 't', 'o', 'r', 'i', 'e', 's', '"', ':', '[']
}

/// The text between `"directories":[` and the next `]`.
pub open spec fn directories_section(json: Seq<char>) -> Option<(int, int)> {
    match find_from(json, directories_key(), 0) {
        Some(start) => match find_char(json, ']', start + 15) {
            Some(end) => Some((start + 15, end)),
            None => None,
        },
        None => None,
    }
}

/// The directory names of a browse answer: the comma-separated entries
/// of its `"directories"` array, cleaned of whitespace and quotes, without
/// empty ones and ones over 128 bytes, at most 96 of them.
pub open spec fn directory_names(json: Seq<char>) -> Seq<Seq<char>> {
    match directories_section(json) {
        Some((a, b)) => collect_entries(split_commas(json.subrange(a, b)), seq![]),
        None => seq![],
    }
}

proof fn lemma_find_char_at(s: Seq<char>, c: char, from: int, k: int)
    requires
        0 <= from <= k < s.len(),
        s[k] == c,
        forall|j: int| from <= j < k ==> s[j] != c,
    ensures
        find_char(s, c, from) == Some(k),
    decreases k - from,
{
    if from < k {
        lemma_find_char_at(s, c, from + 1, k);
    }
}

proof fn lemma_find_char_none(s: Seq<char>, c: char, from: int)
    requires
        0 <= from <= s.len(),
        forall|j: int| from <= j < s.len() ==> s[j] != c,
    ensures
        find_char(s, c, from) is None,
    decreases s.len() - from,
{
    if from < s.len() {
        lemma_find_char_none(s, c, from + 1);
    }
}

/// Whether `pat` occurs in `s` at `i`.
fn matches_at(s: &str, n: usize, i: usize, pat: &str, m: usize) -> (r: bool)
    requires
        n == s@.len(),
        m == pat@.len(),
        i + m <= n,
    ensures
        r == (s@.subrange(i as int, i + m) == pat@),
{
    let mut k: usize = 0;
    while k < m
        invariant
            n == s@.len(),
            m == pat@.len(),
            i + m <= n,
            k <= m,
            forall|j: int| 0 <= j < k ==> s@[i + j] == pat@[j],
        decreases m - k,
    {
        if s.get_char(i + k) != pat.get_char(k) {
            assert(s@.subrange(i as int, i + m)[k as int] != pat@[k as int]);
            return false;
        }
        k = k + 1;
    }
    assert(s@.subrange(i as int, i + m) =~= pat@);
    true
}

fn is_trim(c: char, quotes: bool) -> (r: bool)
    ensures
        r == is_trim_char(c, quotes),
{
    if quotes {
        c == '"'
    } else {
        is_whitespace(c)
    }
}

/// Bounds of `s[a..b]` trimmed of whitespace (or of quotes, when
/// `quotes`).
fn trim_range(s: &str, a: usize, b: usize, quotes: bool) -> (r: (usize, usize))
    requires
        a <= b <= s@.len(),
    ensures
        a <= r.0 <= r.1 <= b,
        s@.subrange(r.0 as int, r.1 as int) == trim_both(s@.subrange(a as int, b as int), quotes),
{
    let mut k = a;
    while k < b && is_trim(s.get_char(k), quotes)
        invariant
            a <= k <= b <= s@.len(),
            trim_front(s@.subrange(a as int, b as int), quotes) == trim_front(
                s@.subrange(k as int, b as int),
                quotes,
            ),
        decreases b - k,
    {
        assert(s@.subrange(k as int, b as int).drop_first() =~= s@.subrange(k + 1, b as int));
        k = k + 1;
    }
    assert(trim_front(s@.subrange(k as int, b as int), quotes) == s@.subrange(k as int, b as int));
    let mut m = b;
    while m > k && is_trim(s.get_char(m - 1), quotes)
        invariant
            a <= k <= m <= b <= s@.len(),
            trim_back(s@.subrange(k as int, b as int), quotes) == trim_back(
                s@.subrange(k as int, m as int),
                quotes,
            ),
        decreases m - k,
    {
        assert(s@.subrange(k as int, m as int).drop_last() =~= s@.subrange(k as int, m - 1));
        m = m - 1;
    }
    (k, m)
}

/// Adds the entry `s[a..b]` to the list as `add_entry` says.
fn add_part(s: &str, a: usize, b: usize, dirs: &mut heapless::Vec<heapless::String<128>, 96>)
    requires
        a <= b <= s@.len(),
    ensures
        dir_entries(*final(dirs)) == add_entry(dir_entries(*old(dirs)), s@.subrange(a as int, b as int)),
{
    let (a1, b1) = trim_range(s, a, b, false);
    let (a2, b2) = trim_range(s, a1, b1, true);
    let (a3, b3) = trim_range(s, a2, b2, false);
    if a3 < b3 {
        let cleaned = s.substring_char(a3, b3);
        match string128_from(cleaned) {
            Ok(entry) => {
                let _ = push_dir(dirs, entry);
            },
            Err(_) => {},
        }
    }
}

/// The directory names of a media server's browse answer: finds the
/// `"directories":[...]` array and splits it at its commas, without a full
/// JSON parse.
pub fn parse_directories(json: &str) -> (r: heapless::Vec<heapless::String<128>, 96>)
    ensures
        dir_entries(r) == directory_names(json@),
{
    let mut dirs = new_dir_list();
    let n = json.unicode_len();
    let key = "\"directories\":[";
    proof {
        reveal_strlit("\"directories\":[");
        assert(key@ =~= directories_key());
    }
    let mut i: usize = 0;
    let mut found = false;
    loop
        invariant_except_break
            n == json@.len(),
            i <= n,
            !found,
            key@ == directories_key(),
            find_from(json@, directories_key(), i as int) == find_from(
                json@,
                directories_key(),
                0,
            ),
        ensures
            i <= n,
            found ==> i + 15 <= n && find_from(json@, directories_key(), 0) == Some(i as int),
            !found ==> find_from(json@, directories_key(), 0) is None,
        decreases n - i,
    {
        if n - i < 15 {
            break ;
        }
        if matches_at(json, n, i, key, 15) {
            assert(json@.subrange(i as int, i + 15) == directories_key());
            assert(directories_key().len() == 15);
            assert(find_from(json@, directories_key(), i as int) == Some(i as int));
            found = true;
            break ;
        }
        i = i + 1;
    }
    if !found {
        return dirs;
    }
    let start = i + 15;
    let mut end = start;
    while end < n && json.get_char(end) != ']'
        invariant
            n == json@.len(),
            start <= end <= n,
            forall|j: int| start <= j < end ==> json@[j] != ']',
        decreases n - end,
    {
        end = end + 1;
    }
    if end == n {
        proof {
            lemma_find_char_none(json@, ']', start as int);
        }
        return dirs;
    }
    proof {
        lemma_find_char_at(json@, ']', start as int, end as int);
    }
    let ghost inner = json@.subrange(start as int, end as int);
    let mut part_start = start;
    let mut j = start;
    while j < end
        invariant
            n == json@.len(),
            start <= part_start <= j <= end < n,
            inner == json@.subrange(start as int, end as int),
            directory_names(json@) == collect_entries(split_commas(json@.subrange(part_start as int, end as int)), dir_entries(dirs)),
            forall|k: int| part_start <= k < j ==> json@[k] != ',',
        decreases end - j,
    {
        if json.get_char(j) == ',' {
            proof {
                let x = json@.subrange(part_start as int, end as int);
                lemma_find_char_at(x, ',', 0, j - part_start);
                assert(x.take(j - part_start) =~= json@.subrange(part_start as int, j as int));
                assert(x.skip(j - part_start + 1) =~= json@.subrange(j + 1, end as int));
                let parts = split_commas(x);
                assert(parts[0] == json@.subrange(part_start as int, j as int));
                assert(parts.drop_first() =~= split_commas(json@.subrange(j + 1, end as int)));
            }
            add_part(json, part_start, j, &mut dirs);
            part_start = j + 1;
        }
        j = j + 1;
    }
    proof {
        let x = json@.subrange(part_start as int, end as int);
        lemma_find_char_none(x, ',', 0);
        assert(split_commas(x) == seq![x]);
        assert(seq![x].drop_first() =~= Seq::<Seq<char>>::empty());
        let acc = dir_entries(dirs);
        assert(collect_entries(seq![x], acc) == collect_entries(
            Seq::<Seq<char>>::empty(),
            add_entry(acc, x),
        ));
    }
    add_part(json, part_start, end, &mut dirs);
    dirs
}

pub fn open_app() -> (r: Page)
    ensures
        r == Page::Zigduck,
{
    Page::Zigduck
}

pub enum HomeCommand {
    ToggleLights,
    Scene(String),
    DeviceState(String, bool),
    Nlp(String),
    MediaPowerOn(Option<String>),
    MediaPowerOff(Option<String>),
    MediaNext(Option<String>),
    MediaPrev(Option<String>),
    MediaPlay(Option<String>),
    MediaPause(Option<String>),
    MediaVolumeUp(Option<String>),
    MediaVolumeDown(Option<String>),
    BrowseTv(String),
    BrowseMovies(String),
    BrowseMusic(String),
}

impl HomeCommand {
    /// The device named by a media command.
    pub open spec fn device(self) -> Option<Seq<char>> {
        match self {
            HomeCommand::MediaPowerOn(d) | HomeCommand::MediaPowerOff(d) | HomeCommand::MediaNext(d)
            | HomeCommand::MediaPrev(d) | HomeCommand::MediaPlay(d) | HomeCommand::MediaPause(d)
            | HomeCommand::MediaVolumeUp(d) | HomeCommand::MediaVolumeDown(d) => match d {
                Some(s) => Some(s@),
                None => None,
            },
            _ => None,
        }
    }
}


/// `heapless::String::<256>::as_str`.
#[verifier::external_body]
fn as_str256(h: &heapless::String<256>) -> (r: &str)
    ensures
        r@ == chars256(*h),
{
    h.as_str()
}

/// `core::str::from_utf8`: the text of valid UTF-8 bytes, else `None`.
#[verifier::external_body]
fn str_from_utf8(bytes: &[u8]) -> (r: Option<&str>)
    ensures
        r is Some <==> valid_utf8(bytes@),
        r matches Some(s) ==> s@ == decode_utf8(bytes@),
{
    core::str::from_utf8(bytes).ok()
}

/// The path browsed for a category: the category alone when `path` is
/// empty, else `category/path`, or just `category/` when that would not fit
/// in 128 bytes.
pub open spec fn browse_path(category: Seq<char>, path: Seq<char>) -> Seq<char> {
    if path.len() == 0 {
        category
    } else if byte_len(category.push('/')) + byte_len(path) <= 128 {
        category.push('/') + path
    } else {
        category.push('/')
    }
}

/// The form-encoded query value of a browse path; empty when the
/// encoding might not fit in 256 bytes.
pub open spec fn encoded_path(full: Seq<char>) -> Seq<char> {
    if encode_utf8(full).len() * 3 <= 256 {
        form_encode(encode_utf8(full))
    } else {
        seq![]
    }
}

/// The URL that a home command requests from the API at `base`; `None`
/// for a natural-language command whose encoding might not fit in 256
/// bytes. Media commands always address the TV at `tv_ip`.
pub open spec fn home_url(base: Seq<char>, cmd: HomeCommand, lights_on: bool, tv_ip: Seq<char>) -> Option<Seq<char>> {
    match cmd {
        HomeCommand::Nlp(command) => if encode_utf8(command@).len() * 3 <= 256 {
            Some(base + "/do?cmd="@ + form_encode(encode_utf8(command@)))
        } else {
            None
        },
        HomeCommand::DeviceState(device, on) => Some(base + "/device/"@ + device@ + "/state/"@ + (if on { "on"@ } else { "off"@ })),
        HomeCommand::ToggleLights => Some(base + "/scene/"@ + (if lights_on { "max"@ } else { "dark"@ })),
        HomeCommand::Scene(name) => Some(base + "/scene/"@ + name@),
        HomeCommand::MediaPowerOn(_) => Some(base + "/media/power/on?device="@ + tv_ip),
        HomeCommand::MediaPowerOff(_) => Some(base + "/media/power/off?device="@ + tv_ip),
        HomeCommand::MediaNext(_) => Some(base + "/media/next?device="@ + tv_ip),
        HomeCommand::MediaPrev(_) => Some(base + "/media/previous?device="@ + tv_ip),
        HomeCommand::MediaPause(_) => Some(base + "/media/play?device="@ + tv_ip),
        HomeCommand::MediaPlay(_) => Some(base + "/media/play?device="@ + tv_ip),
        HomeCommand::MediaVolumeUp(_) => Some(base + "/media/volume/up?device="@ + tv_ip),
        HomeCommand::MediaVolumeDown(_) => Some(base + "/media/volume/down?device="@ + tv_ip),
        HomeCommand::BrowseTv(path) => Some(base + "/browse?path="@ + encoded_path(browse_path("TV"@, path@))),
        HomeCommand::BrowseMovies(path) => Some(base + "/browse?path="@ + encoded_path(browse_path("Movies"@, path@))),
        HomeCommand::BrowseMusic(path) => Some(base + "/browse?path="@ + encoded_path(browse_path("Music"@, path@))),
    }
}

/// Each TV media command asks for its own route of the home API, at the TV
/// whatever device the command names: power on `/media/power/on`, power
/// off `/media/power/off`, next `/media/next`, previous `/media/previous`,
/// volume `/media/volume/up` and `/media/volume/down`, each followed by
/// `?device=` and the TV's address. Powering on and powering off never ask
/// for the same URL.
pub proof fn lemma_media_routes(base: Seq<char>, d: Option<String>, lights_on: bool, tv_ip: Seq<char>)
    ensures
        home_url(base, HomeCommand::MediaPowerOn(d), lights_on, tv_ip) == Some(base + "/media/power/on?device="@ + tv_ip),
        home_url(base, HomeCommand::MediaPowerOff(d), lights_on, tv_ip) == Some(base + "/media/power/off?device="@ + tv_ip),
        home_url(base, HomeCommand::MediaNext(d), lights_on, tv_ip) == Some(base + "/media/next?device="@ + tv_ip),
        home_url(base, HomeCommand::MediaPrev(d), lights_on, tv_ip) == Some(base + "/media/previous?device="@ + tv_ip),
        home_url(base, HomeCommand::MediaVolumeUp(d), lights_on, tv_ip) == Some(base + "/media/volume/up?device="@ + tv_ip),
        home_url(base, HomeCommand::MediaVolumeDown(d), lights_on, tv_ip) == Some(base + "/media/volume/down?device="@ + tv_ip),
        home_url(base, HomeCommand::MediaPowerOn(d), lights_on, tv_ip) != home_url(base, HomeCommand::MediaPowerOff(d), lights_on, tv_ip),
{
    reveal_strlit("/media/power/on?device=");
    reveal_strlit("/media/power/off?device=");
    let on = base + "/media/power/on?device="@ + tv_ip;
    let off = base + "/media/power/off?device="@ + tv_ip;
    assert(on[base.len() as int + 14] == 'n');
    assert(off[base.len() as int + 14] == 'f');
}

/// The category and path of a browse command.
pub open spec fn browse_of(cmd: HomeCommand) -> Option<(Seq<char>, Seq<char>)> {
    match cmd {
        HomeCommand::BrowseTv(path) => Some(("TV"@, browse_path("TV"@, path@))),
        HomeCommand::BrowseMovies(path) => Some(("Movies"@, browse_path("Movies"@, path@))),
        HomeCommand::BrowseMusic(path) => Some(("Music"@, browse_path("Music"@, path@))),
        _ => None,
    }
}

/// A request to the home-automation API. A browse request also carries
/// the category and path that the list it returns belongs to.
pub struct HomeRequest {
    pub url: String,
    pub browse: Option<(&'static str, heapless::String<128>)>,
}

/// `base` followed by the given parts.
fn url_of(base: &str, path: &str, arg: &str) -> (r: String)
    ensures
        r@ == base@ + path@ + arg@,
{
    let mut u = concat(base, path);
    u.append(arg);
    u
}

/// The full path browsed for `category` and `path`.
fn browse_full_path(category: &str, path: &str) -> (r: heapless::String<128>)
    requires
        byte_len(category@) + 1 <= 128,
        category@.len() > 0,
        '\0' <= category@.last() <= '\u{7f}',
    ensures
        chars128(r) == browse_path(category@, path@),
{
    let first = string128_from(category);
    let mut full = first.unwrap();
    if path.unicode_len() == 0 {
        return full;
    }
    let slash = "/";
    proof {
        reveal_strlit("/");
        lemma_encode_utf8_concat(category@, seq!['/']);
        lemma_encode_ascii_char('/');
        assert(slash@ =~= seq!['/']);
    }
    let _ = push_str128(&mut full, slash);
    assert(chars128(full) =~= category@.push('/'));
    let _ = push_str128(&mut full, path);
    full
}

/// The encoded form of a browse path; empty when it does not fit.
fn encode_browse_path(full: &heapless::String<128>) -> (r: heapless::String<256>)
    ensures
        chars256(r) == encoded_path(chars128(*full)),
{
    let mut encoded = new256();
    let text = as_str128(full);
    if text.as_bytes().len() <= 256 {
        let _ = url_encode(text, &mut encoded);
    } else {
        assert(encode_utf8(text@).len() * 3 > 256);
    }
    proof {
        if encode_utf8(chars128(*full)).len() * 3 <= 256 {
            assert(Seq::<char>::empty() + form_encode(encode_utf8(chars128(*full))) =~= form_encode(encode_utf8(chars128(*full))));
        }
    }
    encoded
}

/// The request that a home command makes (the decisions of the smart
/// home task); `None` when a natural-language command is too long to
/// encode.
pub fn home_request(base_url: &str, cmd: &HomeCommand, lights_on: bool, tv_ip: &str) -> (r: Option<HomeRequest>)
    ensures
        match home_url(base_url@, *cmd, lights_on, tv_ip@) {
            Some(u) => r matches Some(req) && req.url@ == u && match browse_of(*cmd) {
                Some((category, path)) => req.browse matches Some((c, p)) && c@ == category && chars128(p) == path,
                None => req.browse is None,
            },
            None => r is None,
        },
{
    proof {
        reveal_strlit("TV");
        reveal_strlit("Movies");
        reveal_strlit("Music");
        lemma_encode_ascii_len("TV"@);
        lemma_encode_ascii_len("Movies"@);
        lemma_encode_ascii_len("Music"@);
    }
    match cmd {
        HomeCommand::Nlp(command) => {
            let mut encoded = new256();
            if command.as_str().as_bytes().len() > 256 {
                return None;
            }
            match url_encode(command.as_str(), &mut encoded) {
                Ok(()) => {},
                Err(()) => {
                    return None;
                },
            }
            assert(Seq::<char>::empty() + form_encode(encode_utf8(command@)) =~= form_encode(encode_utf8(command@)));
            Some(HomeRequest { url: url_of(base_url, "/do?cmd=", as_str256(&encoded)), browse: None })
        },
        HomeCommand::DeviceState(device, state_on) => {
            let action = if *state_on {
                "on"
            } else {
                "off"
            };
            let mut u = url_of(base_url, "/device/", device.as_str());
            u.append("/state/");
            u.append(action);
            Some(HomeRequest { url: u, browse: None })
        },
        HomeCommand::ToggleLights => {
            let scene = if lights_on {
                "max"
            } else {
                "dark"
            };
            Some(HomeRequest { url: url_of(base_url, "/scene/", scene), browse: None })
        },
        HomeCommand::Scene(name) => Some(HomeRequest { url: url_of(base_url, "/scene/", name.as_str()), browse: None }),
        HomeCommand::MediaPowerOn(_) => Some(HomeRequest { url: url_of(base_url, "/media/power/on?device=", tv_ip), browse: None }),
        HomeCommand::MediaPowerOff(_) => Some(HomeRequest { url: url_of(base_url, "/media/power/off?device=", tv_ip), browse: None }),
        HomeCommand::MediaNext(_) => Some(HomeRequest { url: url_of(base_url, "/media/next?device=", tv_ip), browse: None }),
        HomeCommand::MediaPrev(_) => Some(HomeRequest { url: url_of(base_url, "/media/previous?device=", tv_ip), browse: None }),
        HomeCommand::MediaPause(_) => Some(HomeRequest { url: url_of(base_url, "/media/play?device=", tv_ip), browse: None }),
        HomeCommand::MediaPlay(_) => Some(HomeRequest { url: url_of(base_url, "/media/play?device=", tv_ip), browse: None }),
        HomeCommand::MediaVolumeUp(_) => Some(HomeRequest { url: url_of(base_url, "/media/volume/up?device=", tv_ip), browse: None }),
        HomeCommand::MediaVolumeDown(_) => Some(HomeRequest { url: url_of(base_url, "/media/volume/down?device=", tv_ip), browse: None }),
        HomeCommand::BrowseTv(path) => {
            let full = browse_full_path("TV", path.as_str());
            let encoded = encode_browse_path(&full);
            Some(HomeRequest { url: url_of(base_url, "/browse?path=", as_str256(&encoded)), browse: Some(("TV", full)) })
        },
        HomeCommand::BrowseMovies(path) => {
            let full = browse_full_path("Movies", path.as_str());
            let encoded = encode_browse_path(&full);
            Some(HomeRequest { url: url_of(base_url, "/browse?path=", as_str256(&encoded)), browse: Some(("Movies", full)) })
        },
        HomeCommand::BrowseMusic(path) => {
            let full = browse_full_path("Music", path.as_str());
            let encoded = encode_browse_path(&full);
            Some(HomeRequest { url: url_of(base_url, "/browse?path=", as_str256(&encoded)), browse: Some(("Music", full)) })
        },
    }
}

/// The directory list of a browse answer's body: its entries when the
/// body is UTF-8, else none.
pub fn browse_entries(body: &[u8]) -> (r: heapless::Vec<heapless::String<128>, 96>)
    ensures
        valid_utf8(body@) ==> dir_entries(r) == directory_names(decode_utf8(body@)),
        !valid_utf8(body@) ==> dir_entries(r) == directory_names(seq![]),
{
    let text = match str_from_utf8(body) {
        Some(t) => t,
        None => "",
    };
    proof {
        reveal_strlit("");
    }
    parse_directories(text)
}

} // verus!
