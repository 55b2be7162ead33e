//! Byte-level text handling of AT responses: searching for a marker,
//! reading a decimal field as `str::trim` followed by `str::parse` reads it,
//! and writing decimal numbers.

use vstd::prelude::*;

verus! {

/// `needle` occurs in `hay` at `i`.
pub open spec fn occurs_at(hay: Seq<u8>, needle: Seq<u8>, i: int) -> bool {
    0 <= i && i + needle.len() <= hay.len() && hay.subrange(i, i + needle.len()) == needle
}

/// The first position at or after `i` where `needle` occurs in `hay`.
pub open spec fn first_occurrence_from(hay: Seq<u8>, needle: Seq<u8>, i: int) -> Option<int>
    decreases hay.len() + 1 - i,
{
    if i < 0 || i + needle.len() > hay.len() {
        None
    } else if hay.subrange(i, i + needle.len()) == needle {
        Some(i)
    } else {
        first_occurrence_from(hay, needle, i + 1)
    }
}

/// The first position where `needle` occurs in `hay`.
pub open spec fn first_occurrence(hay: Seq<u8>, needle: Seq<u8>) -> Option<int> {
    first_occurrence_from(hay, needle, 0)
}

/// The first occurrence found is an occurrence, and none comes earlier.
pub proof fn lemma_first_occurrence(hay: Seq<u8>, needle: Seq<u8>, i: int)
    requires
        0 <= i,
    ensures
        first_occurrence_from(hay, needle, i) matches Some(k) ==> i <= k && occurs_at(hay, needle, k)
            && forall|j: int| i <= j < k ==> !occurs_at(hay, needle, j),
        first_occurrence_from(hay, needle, i) is None ==> forall|j: int|
            i <= j ==> !occurs_at(hay, needle, j),
    decreases hay.len() + 1 - i,
{
    if i + needle.len() > hay.len() {
    } else if hay.subrange(i, i + needle.len()) == needle {
    } else {
        lemma_first_occurrence(hay, needle, i + 1);
    }
}

/// An occurrence with none before it is the first occurrence.
pub proof fn lemma_first_occurrence_at(hay: Seq<u8>, needle: Seq<u8>, i: int, k: int)
    requires
        0 <= i <= k,
        occurs_at(hay, needle, k),
        forall|j: int| i <= j < k ==> !occurs_at(hay, needle, j),
    ensures
        first_occurrence_from(hay, needle, i) == Some(k),
    decreases k - i,
{
    if i < k {
        assert(!occurs_at(hay, needle, i));
        lemma_first_occurrence_at(hay, needle, i + 1, k);
    }
}

/// The first occurrence in `hay` is also the first one in any prefix of
/// `hay` that contains it.
pub proof fn lemma_first_occurrence_prefix(hay: Seq<u8>, prefix: Seq<u8>, needle: Seq<u8>, k: int)
    requires
        prefix.len() <= hay.len(),
        prefix == hay.subrange(0, prefix.len() as int),
        first_occurrence(hay, needle) == Some(k),
        k + needle.len() <= prefix.len(),
    ensures
        first_occurrence(prefix, needle) == Some(k),
{
    lemma_first_occurrence(hay, needle, 0);
    assert(prefix.subrange(k, k + needle.len()) =~= hay.subrange(k, k + needle.len()));
    assert forall|j: int| 0 <= j < k implies !occurs_at(prefix, needle, j) by {
        assert(!occurs_at(hay, needle, j));
        assert(prefix.subrange(j, j + needle.len()) =~= hay.subrange(j, j + needle.len()));
    }
    lemma_first_occurrence_at(prefix, needle, 0, k);
}

/// A prefix too short to hold the first occurrence of `needle` in `hay`
/// (or any, when there is none) holds no occurrence.
pub proof fn lemma_no_occurrence_in_short_prefix(hay: Seq<u8>, prefix: Seq<u8>, needle: Seq<u8>)
    requires
        prefix.len() <= hay.len(),
        prefix == hay.subrange(0, prefix.len() as int),
        match first_occurrence(hay, needle) {
            Some(k) => prefix.len() < k + needle.len(),
            None => true,
        },
    ensures
        first_occurrence(prefix, needle) is None,
{
    lemma_first_occurrence(hay, needle, 0);
    lemma_first_occurrence(prefix, needle, 0);
    if first_occurrence(prefix, needle) is Some {
        let j = first_occurrence(prefix, needle).unwrap();
        assert(prefix.subrange(j, j + needle.len()) =~= hay.subrange(j, j + needle.len()));
        assert(occurs_at(hay, needle, j));
    }
}

/// Whether `needle` occurs in `hay` at `i`.
fn matches_at(hay: &[u8], i: usize, needle: &[u8]) -> (r: bool)
    requires
        i + needle@.len() <= hay@.len(),
    ensures
        r == (hay@.subrange(i as int, i + needle@.len()) == needle@),
{
    let hay_len = hay.len();
    let mut j: usize = 0;
    while j < needle.len()
        invariant
            j <= needle@.len(),
            hay_len == hay@.len(),
            i + needle@.len() <= hay@.len(),
            forall|k: int| 0 <= k < j ==> hay@[i + k] == needle@[k],
        decreases needle@.len() - j,
    {
        if hay[i + j] != needle[j] {
            assert(hay@.subrange(i as int, i + needle@.len())[j as int] != needle@[j as int]);
            return false;
        }
        j = j + 1;
    }
    assert(hay@.subrange(i as int, i + needle@.len()) =~= needle@);
    true
}

/// The first position where `needle` occurs in `hay`.
pub fn find_bytes(hay: &[u8], needle: &[u8]) -> (r: Option<usize>)
    ensures
        match first_occurrence(hay@, needle@) {
            Some(k) => r == Some(k as usize),
            None => r is None,
        },
{
    if needle.len() > hay.len() {
        return None;
    }
    if needle.len() == 0 {
        assert(hay@.subrange(0, 0) =~= needle@);
        return Some(0);
    }
    let hay_len = hay.len();
    let last = hay.len() - needle.len();
    let mut i: usize = 0;
    while i <= last
        invariant
            last == hay@.len() - needle@.len(),
            needle@.len() >= 1,
            hay_len == hay@.len(),
            i <= last + 1,
            first_occurrence_from(hay@, needle@, 0) == first_occurrence_from(hay@, needle@, i as int),
        decreases last + 1 - i,
    {
        if matches_at(hay, i, needle) {
            return Some(i);
        }
        i = i + 1;
    }
    None
}

/// An ASCII decimal digit.
pub open spec fn is_digit(b: u8) -> bool {
    48 <= b <= 57
}

/// Length of the UTF-8 encoding of a Unicode white-space character that
/// starts at `i` (as `char::is_whitespace` defines white space), or 0.
pub open spec fn ws_len_at(s: Seq<u8>, i: int) -> int {
    if 0 <= i < s.len() && ((9 <= s[i] <= 13) || s[i] == 32) {
        1
    } else if 0 <= i && i + 2 <= s.len() && s[i] == 0xC2 && (s[i + 1] == 0x85 || s[i + 1]
        == 0xA0) {
        2
    } else if 0 <= i && i + 3 <= s.len() && ((s[i] == 0xE1 && s[i + 1] == 0x9A && s[i + 2]
        == 0x80) || (s[i] == 0xE2 && s[i + 1] == 0x80 && ((0x80 <= s[i + 2] <= 0x8A) || s[i
        + 2] == 0xA8 || s[i + 2] == 0xA9 || s[i + 2] == 0xAF)) || (s[i] == 0xE2 && s[i + 1]
        == 0x81 && s[i + 2] == 0x9F) || (s[i] == 0xE3 && s[i + 1] == 0x80 && s[i + 2] == 0x80)) {
        3
    } else {
        0
    }
}

/// The position after the white space that starts at `i`.
pub open spec fn skip_ws(s: Seq<u8>, i: int) -> int
    decreases s.len() - i,
{
    if 0 <= i && ws_len_at(s, i) > 0 {
        skip_ws(s, i + ws_len_at(s, i))
    } else {
        i
    }
}

/// Everything from `i` on is white space.
pub open spec fn all_ws_from(s: Seq<u8>, i: int) -> bool
    decreases s.len() - i,
{
    if i >= s.len() {
        true
    } else if 0 <= i && ws_len_at(s, i) > 0 {
        all_ws_from(s, i + ws_len_at(s, i))
    } else {
        false
    }
}

/// The end of the run of decimal digits that starts at `i`.
pub open spec fn digits_end(s: Seq<u8>, i: int) -> int
    decreases s.len() - i,
{
    if 0 <= i < s.len() && is_digit(s[i]) {
        digits_end(s, i + 1)
    } else {
        i
    }
}

/// The number a run of decimal digits denotes.
pub open spec fn digits_value(s: Seq<u8>) -> nat
    decreases s.len(),
{
    if s.len() == 0 {
        0
    } else {
        digits_value(s.drop_last()) * 10 + (s.last() - 48) as nat
    }
}

/// The number a decimal field holds, read as `str::trim` followed by
/// `str::parse` for an unsigned type reads it: surrounding Unicode white
/// space is dropped, then an optional `+` and at least one digit must make
/// up the rest. `None` when the field is not such a number (this covers
/// bytes that are not UTF-8).
pub open spec fn decimal_field_value(s: Seq<u8>) -> Option<nat> {
    let a = skip_ws(s, 0);
    let b = if a < s.len() && s[a] == 43 {
        a + 1
    } else {
        a
    };
    let c = digits_end(s, b);
    if c > b && all_ws_from(s, c) {
        Some(digits_value(s.subrange(b, c)))
    } else {
        None
    }
}

/// The number a decimal field holds, if it does not exceed `max`.
pub open spec fn parse_decimal_field(s: Seq<u8>, max: nat) -> Option<nat> {
    match decimal_field_value(s) {
        Some(v) => if v <= max {
            Some(v)
        } else {
            None
        },
        None => None,
    }
}

fn ws_len(s: &[u8], i: usize) -> (r: usize)
    requires
        i <= s@.len(),
    ensures
        r == ws_len_at(s@, i as int),
        r <= 3,
{
    let n = s.len();
    if i < n && ((9 <= s[i] && s[i] <= 13) || s[i] == 32) {
        1
    } else if i < n && n - i >= 2 && s[i] == 0xC2 && (s[i + 1] == 0x85 || s[i + 1] == 0xA0) {
        2
    } else if i < n && n - i >= 3 && ((s[i] == 0xE1 && s[i + 1] == 0x9A && s[i + 2] == 0x80) || (s[i]
        == 0xE2 && s[i + 1] == 0x80 && ((0x80 <= s[i + 2] && s[i + 2] <= 0x8A) || s[i + 2]
        == 0xA8 || s[i + 2] == 0xA9 || s[i + 2] == 0xAF)) || (s[i] == 0xE2 && s[i + 1] == 0x81
        && s[i + 2] == 0x9F) || (s[i] == 0xE3 && s[i + 1] == 0x80 && s[i + 2] == 0x80)) {
        3
    } else {
        0
    }
}

/// Splitting the last digit off a run of digits.
proof fn lemma_digits_value_step(s: Seq<u8>, b: int, j: int)
    requires
        0 <= b <= j < s.len(),
    ensures
        digits_value(s.subrange(b, j + 1)) == digits_value(s.subrange(b, j)) * 10 + (s[j]
            - 48) as nat,
{
    assert(s.subrange(b, j + 1).drop_last() =~= s.subrange(b, j));
}

/// A longer run of digits denotes at least as large a number.
proof fn lemma_digits_value_monotone(s: Seq<u8>, b: int, j: int, c: int)
    requires
        0 <= b <= j <= c <= s.len(),
        forall|k: int| b <= k < c ==> is_digit(#[trigger] s[k]),
    ensures
        digits_value(s.subrange(b, j)) <= digits_value(s.subrange(b, c)),
    decreases c - j,
{
    if j < c {
        lemma_digits_value_monotone(s, b, j, c - 1);
        lemma_digits_value_step(s, b, c - 1);
    }
}

/// The digit run from `b` ends where the run from any later digit ends.
proof fn lemma_digits_end_skip(s: Seq<u8>, b: int, j: int)
    requires
        0 <= b <= j <= s.len(),
        forall|k: int| b <= k < j ==> is_digit(#[trigger] s[k]),
    ensures
        digits_end(s, b) == digits_end(s, j),
        digits_end(s, b) >= j,
    decreases j - b,
{
    if b < j {
        lemma_digits_end_skip(s, b + 1, j);
    } else {
        lemma_digits_end_digits(s, j);
    }
}

/// Every byte of a digit run is a digit.
proof fn lemma_digits_end_digits(s: Seq<u8>, b: int)
    requires
        0 <= b,
    ensures
        b <= digits_end(s, b) <= if b <= s.len() { s.len() as int } else { b },
        forall|k: int| b <= k < digits_end(s, b) ==> is_digit(#[trigger] s[k]),
    decreases s.len() - b,
{
    if b < s.len() && is_digit(s[b]) {
        lemma_digits_end_digits(s, b + 1);
    }
}

/// The number a decimal field holds, if it does not exceed `max`; see
/// `parse_decimal_field`.
pub fn decimal_field(s: &[u8], max: u64) -> (r: Option<u64>)
    ensures
        match parse_decimal_field(s@, max as nat) {
            Some(v) => r == Some(v as u64),
            None => r is None,
        },
{
    let n = s.len();
    let mut i: usize = 0;
    let mut w = ws_len(s, 0);
    while w > 0
        invariant
            i <= n,
            n == s@.len(),
            w == ws_len_at(s@, i as int),
            skip_ws(s@, 0) == skip_ws(s@, i as int),
        decreases n - i,
    {
        i = i + w;
        w = ws_len(s, i);
    }
    assert(skip_ws(s@, i as int) == i);
    let b = if i < n && s[i] == 43 {
        i + 1
    } else {
        i
    };
    let mut j: usize = b;
    let mut acc: u64 = 0;
    while j < n && 48 <= s[j] && s[j] <= 57
        invariant
            b <= j <= n,
            n == s@.len(),
            i <= n,
            skip_ws(s@, 0) == i,
            b == (if i < n && s@[i as int] == 43 { i + 1 } else { i as int }),
            forall|k: int| b <= k < j ==> is_digit(#[trigger] s@[k]),
            acc == digits_value(s@.subrange(b as int, j as int)),
            acc <= max,
        decreases n - j,
    {
        proof {
            lemma_digits_value_step(s@, b as int, j as int);
        }
        let next: u128 = (acc as u128) * 10 + ((s[j] - 48) as u128);
        if next > max as u128 {
            proof {
                assert(is_digit(s@[j as int]));
                lemma_digits_end_skip(s@, b as int, j as int + 1);
                lemma_digits_end_digits(s@, b as int);
                let c = digits_end(s@, b as int);
                lemma_digits_value_monotone(s@, b as int, j as int + 1, c);
                assert(digits_value(s@.subrange(b as int, c)) > max);
                assert(decimal_field_value(s@) is None || decimal_field_value(s@) == Some(digits_value(s@.subrange(b as int, c))));
            }
            return None;
        }
        acc = next as u64;
        j = j + 1;
    }
    proof {
        lemma_digits_end_skip(s@, b as int, j as int);
    }
    if j == b {
        return None;
    }
    let mut k: usize = j;
    let mut w2 = ws_len(s, j);
    while w2 > 0
        invariant
            j <= k <= n,
            n == s@.len(),
            w2 == ws_len_at(s@, k as int),
            all_ws_from(s@, j as int) == all_ws_from(s@, k as int),
        decreases n - k,
    {
        k = k + w2;
        w2 = ws_len(s, k);
    }
    if k == n {
        Some(acc)
    } else {
        None
    }
}

/// Decimal rendering of a number, without leading zeros.
pub open spec fn decimal_text(v: nat) -> Seq<u8>
    decreases v,
{
    if v < 10 {
        seq![(v + 48) as u8]
    } else {
        decimal_text(v / 10).push((v % 10 + 48) as u8)
    }
}

/// Appends the decimal rendering of `v` to `out`.
pub fn push_decimal(out: &mut Vec<u8>, v: u64)
    ensures
        final(out)@ == old(out)@ + decimal_text(v as nat),
    decreases v,
{
    if v >= 10 {
        push_decimal(out, v / 10);
    }
    out.push((v % 10) as u8 + 48);
    proof {
        assert(final(out)@ =~= old(out)@ + decimal_text(v as nat));
    }
}

/// Every byte of a decimal rendering is a digit, and the digits denote the
/// number rendered.
pub proof fn lemma_decimal_text(v: nat)
    ensures
        forall|k: int| 0 <= k < decimal_text(v).len() ==> is_digit(#[trigger] decimal_text(v)[k]),
        digits_value(decimal_text(v)) == v,
        decimal_text(v).len() >= 1,
    decreases v,
{
    if v >= 10 {
        lemma_decimal_text(v / 10);
        let t = decimal_text(v);
        assert(t.drop_last() =~= decimal_text(v / 10));
        assert(t.last() == (v % 10 + 48) as u8);
        assert((t.last() - 48) as nat == v % 10);
        assert(v == (v / 10) * 10 + v % 10);
        assert(digits_value(t) == digits_value(t.drop_last()) * 10 + (t.last() - 48) as nat);
    } else {
        let t = decimal_text(v);
        assert(t.drop_last() =~= Seq::<u8>::empty());
        assert(digits_value(t.drop_last()) == 0);
        assert(digits_value(t) == digits_value(t.drop_last()) * 10 + (t.last() - 48) as nat);
    }
}

/// Reading back a decimal rendering gives the number rendered.
pub proof fn lemma_decimal_roundtrip(v: nat, max: nat)
    requires
        v <= max,
    ensures
        parse_decimal_field(decimal_text(v), max) == Some(v),
{
    let t = decimal_text(v);
    lemma_decimal_text(v);
    assert(ws_len_at(t, 0) == 0);
    assert(skip_ws(t, 0) == 0);
    lemma_digits_end_skip(t, 0, t.len() as int);
    assert(digits_end(t, t.len() as int) == t.len());
    assert(t.subrange(0, t.len() as int) =~= t);
}

/// After a decimal rendering of `n` and `\r\n`, the first `\r\n` ends the
/// rendering, which reads back as `n`.
pub proof fn lemma_decimal_line(r: Seq<u8>, n: nat, max: nat)
    requires
        n <= max,
        decimal_text(n).len() + 2 <= r.len(),
        r.subrange(0, decimal_text(n).len() as int) == decimal_text(n),
        r.subrange(decimal_text(n).len() as int, decimal_text(n).len() + 2int) == crlf(),
    ensures
        first_occurrence(r, crlf()) == Some(decimal_text(n).len() as int),
        parse_decimal_field(r.subrange(0, decimal_text(n).len() as int), max) == Some(n),
{
    let d = decimal_text(n);
    let dl = d.len() as int;
    lemma_decimal_text(n);
    assert forall|j: int| 0 <= j < dl implies !occurs_at(r, crlf(), j) by {
        assert(r.subrange(0, dl)[j] == r[j]);
        assert(is_digit(d[j]));
        if occurs_at(r, crlf(), j) {
            assert(r.subrange(j, j + 2)[0] == r[j]);
        }
    }
    lemma_first_occurrence_at(r, crlf(), 0, dl);
    lemma_decimal_roundtrip(n, max);
}

} // verus!

verus! {

/// `\r\n`
pub open spec fn crlf() -> Seq<u8> {
    seq![13u8, 10u8]
}

/// `OK\r\n`
pub open spec fn ok_crlf() -> Seq<u8> {
    seq![79u8, 75u8, 13u8, 10u8]
}

/// `+QSSLRECV: `, the header of a TLS socket read response.
pub open spec fn ssl_recv_header() -> Seq<u8> {
    seq![43u8, 81u8, 83u8, 83u8, 76u8, 82u8, 69u8, 67u8, 86u8, 58u8, 32u8]
}

/// `+QIRD: `, the header of a plain TCP socket read response.
pub open spec fn tcp_recv_header() -> Seq<u8> {
    seq![43u8, 81u8, 73u8, 82u8, 68u8, 58u8, 32u8]
}

/// `CONNECT `, the start of a file read response.
pub open spec fn connect_marker() -> Seq<u8> {
    seq![67u8, 79u8, 78u8, 78u8, 69u8, 67u8, 84u8, 32u8]
}

pub fn crlf_bytes() -> (v: Vec<u8>)
    ensures
        v@ == crlf(),
{
    let v = vec![13u8, 10u8];
    assert(v@ =~= crlf());
    v
}

pub fn ok_crlf_bytes() -> (v: Vec<u8>)
    ensures
        v@ == ok_crlf(),
{
    let v = vec![79u8, 75u8, 13u8, 10u8];
    assert(v@ =~= ok_crlf());
    v
}

pub fn ssl_recv_header_bytes() -> (v: Vec<u8>)
    ensures
        v@ == ssl_recv_header(),
{
    let v = vec![43u8, 81u8, 83u8, 83u8, 76u8, 82u8, 69u8, 67u8, 86u8, 58u8, 32u8];
    assert(v@ =~= ssl_recv_header());
    v
}

pub fn tcp_recv_header_bytes() -> (v: Vec<u8>)
    ensures
        v@ == tcp_recv_header(),
{
    let v = vec![43u8, 81u8, 73u8, 82u8, 68u8, 58u8, 32u8];
    assert(v@ =~= tcp_recv_header());
    v
}

pub fn connect_marker_bytes() -> (v: Vec<u8>)
    ensures
        v@ == connect_marker(),
{
    let v = vec![67u8, 79u8, 78u8, 78u8, 69u8, 67u8, 84u8, 32u8];
    assert(v@ =~= connect_marker());
    v
}

} // verus!

verus! {

/// `needle` occurs in the character sequence `hay` at `i`.
pub open spec fn chars_occur_at(hay: Seq<char>, needle: Seq<char>, i: int) -> bool {
    0 <= i && i + needle.len() <= hay.len() && hay.subrange(i, i + needle.len()) == needle
}

/// `needle` occurs somewhere in `hay` (as `str::contains` decides it).
pub open spec fn chars_contain(hay: Seq<char>, needle: Seq<char>) -> bool {
    exists|i: int| chars_occur_at(hay, needle, i)
}

/// The characters of a string slice, in order.
fn chars_of(s: &str) -> (v: Vec<char>)
    ensures
        v@ == s@,
{
    let n = s.unicode_len();
    let mut v: Vec<char> = Vec::new();
    let mut i: usize = 0;
    while i < n
        invariant
            i <= n,
            n == s@.len(),
            v@ == s@.subrange(0, i as int),
        decreases n - i,
    {
        let c = s.get_char(i);
        v.push(c);
        assert(s@.subrange(0, i + 1) =~= s@.subrange(0, i as int).push(c));
        i = i + 1;
    }
    assert(v@ =~= s@);
    v
}

/// Whether `needle` occurs in `hay` at `i`.
fn chars_match_at(hay: &Vec<char>, i: usize, needle: &Vec<char>) -> (r: bool)
    requires
        i + needle@.len() <= hay@.len(),
    ensures
        r == (hay@.subrange(i as int, i + needle@.len()) == needle@),
{
    let hay_len = hay.len();
    let mut j: usize = 0;
    while j < needle.len()
        invariant
            j <= needle@.len(),
            hay_len == hay@.len(),
            i + needle@.len() <= hay@.len(),
            forall|k: int| 0 <= k < j ==> hay@[i + k] == needle@[k],
        decreases needle@.len() - j,
    {
        if hay[i + j] != needle[j] {
            assert(hay@.subrange(i as int, i + needle@.len())[j as int] != needle@[j as int]);
            return false;
        }
        j = j + 1;
    }
    assert(hay@.subrange(i as int, i + needle@.len()) =~= needle@);
    true
}

/// Whether `needle` occurs in `hay`: `str::contains` with a string pattern.
pub fn str_contains(hay: &str, needle: &str) -> (r: bool)
    ensures
        r == chars_contain(hay@, needle@),
{
    let h = chars_of(hay);
    let n = chars_of(needle);
    if n.len() == 0 {
        assert(chars_occur_at(hay@, needle@, 0)) by {
            assert(hay@.subrange(0, 0) =~= needle@);
        }
        return true;
    }
    if n.len() > h.len() {
        assert forall|i: int| !chars_occur_at(hay@, needle@, i) by {}
        return false;
    }
    let h_len = h.len();
    let last = h_len - n.len();
    let mut i: usize = 0;
    while i <= last
        invariant
            h_len == h@.len(),
            h@ == hay@,
            n@ == needle@,
            n@.len() >= 1,
            last == h@.len() - n@.len(),
            i <= last + 1,
            forall|k: int| 0 <= k < i ==> !chars_occur_at(hay@, needle@, k),
        decreases last + 1 - i,
    {
        if chars_match_at(&h, i, &n) {
            assert(chars_occur_at(hay@, needle@, i as int));
            return true;
        }
        i = i + 1;
    }
    assert forall|k: int| !chars_occur_at(hay@, needle@, k) by {
        if 0 <= k && k < i {
        }
    }
    false
}

} // verus!

verus! {

/// Whether two string slices hold the same characters.
pub fn str_eq(a: &str, b: &str) -> (r: bool)
    ensures
        r == (a@ == b@),
{
    let x = chars_of(a);
    let y = chars_of(b);
    if x.len() != y.len() {
        return false;
    }
    let mut i: usize = 0;
    while i < x.len()
        invariant
            x@ == a@,
            y@ == b@,
            x@.len() == y@.len(),
            i <= x@.len(),
            forall|k: int| 0 <= k < i ==> x@[k] == y@[k],
        decreases x@.len() - i,
    {
        if x[i] != y[i] {
            return false;
        }
        i = i + 1;
    }
    assert(a@ =~= b@);
    true
}

} // verus!
