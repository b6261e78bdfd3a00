//! Text helpers shared by the modules that build names, paths and messages.

use vstd::prelude::*;
use vstd::string::StringExecFns;

verus! {

/// Calls `String::push`, which appends one character.
#[verifier::external_body]
pub(crate) fn string_push(s: &mut String, c: char)
    ensures
        final(s)@ == old(s)@.push(c),
{
    s.push(c);
}

/// The lower-case form of a text, as `str::to_lowercase` gives it.
pub uninterp spec fn lowercase(s: Seq<char>) -> Seq<char>;

/// Whether every character of `s` is ASCII.
pub open spec fn all_ascii(s: Seq<char>) -> bool {
    forall|i: int| 0 <= i < s.len() ==> (#[trigger] s[i]) <= '\x7f'
}

/// The lower-case form of an ASCII character.
pub open spec fn ascii_lower(c: char) -> char {
    if 'A' <= c <= 'Z' { ((c as u32) + 32) as char } else { c }
}

/// The upper-case form of an ASCII character.
pub open spec fn ascii_upper(c: char) -> char {
    if 'a' <= c <= 'z' { ((c as u32) - 32) as char } else { c }
}

/// Calls `str::to_lowercase`, which maps each character to its lower-case
/// form by the Unicode tables; the result is named `lowercase`. ASCII text
/// has its letters A to Z made a to z and keeps the rest.
#[verifier::external_body]
pub(crate) fn to_lowercase(s: &str) -> (r: String)
    ensures
        r@ == lowercase(s@),
        all_ascii(s@) ==> r@ == s@.map_values(|c: char| ascii_lower(c)),
{
    s.to_lowercase()
}

/// Whether `s` is exactly the text `lit`.
pub(crate) fn text_is(s: &String, lit: &str) -> (r: bool)
    ensures
        r == (s@ == lit@),
{
    let l = <String as StringExecFns>::from_str(lit);
    *s == l
}

/// Appends the decimal digits of `v`, without leading zeros.
pub(crate) fn push_u64_decimal(s: &mut String, v: u64)
    ensures
        final(s)@ == old(s)@ + decimal_text(v as nat),
    decreases v,
{
    if v >= 10 {
        push_u64_decimal(s, v / 10);
    }
    string_push(s, digit_of_value((v % 10) as u8));
    proof {
        if v >= 10 {
            assert(decimal_text(v as nat) == decimal_text((v / 10) as nat) + seq![digit_of((v % 10) as nat)]);
        }
    }
    assert(final(s)@ =~= old(s)@ + decimal_text(v as nat));
}

/// The character of a decimal digit.
fn digit_of_value(d: u8) -> (c: char)
    requires
        d < 10,
    ensures
        c == digit_of(d as nat),
{
    (48u8 + d) as char
}

/// The character of a decimal digit.
pub open spec fn digit_of(d: nat) -> char {
    ((48 + d) as u8) as char
}

/// A number written in decimal without leading zeros.
pub open spec fn decimal_text(v: nat) -> Seq<char>
    decreases v,
{
    if v < 10 { seq![digit_of(v)] } else { decimal_text(v / 10) + seq![digit_of(v % 10)] }
}

/// Calls `String::from_utf8`, which takes the bytes when they are valid
/// UTF-8 and fails otherwise.
#[verifier::external_body]
pub(crate) fn string_from_utf8(bytes: Vec<u8>) -> (r: Option<String>)
    ensures
        r is Some <==> vstd::utf8::valid_utf8(bytes@),
        r matches Some(s) ==> vstd::utf8::encode_utf8(s@) == bytes@,
{
    String::from_utf8(bytes).ok()
}

/// Appends `t`.
pub(crate) fn push_text(s: &mut String, t: &str)
    ensures
        final(s)@ == old(s)@ + t@,
{
    s.append(t);
}

/// The characters of `s`, in order.
pub(crate) fn chars_of(s: &str) -> (r: Vec<char>)
    ensures
        r@ == s@,
{
    let mut r: Vec<char> = Vec::new();
    for c in it: s.chars()
        invariant
            r@ == it.seq().take(it.index() as int),
            it.seq() == s@,
    {
        r.push(c);
    }
    r
}

/// The first place from `j` on that holds `c`.
pub open spec fn first_index(s: Seq<char>, c: char, j: int) -> Option<int>
    decreases s.len() - j,
{
    if j < 0 || j >= s.len() {
        None
    } else if s[j] == c {
        Some(j)
    } else {
        first_index(s, c, j + 1)
    }
}

/// A line without the carriage return that ended it.
pub open spec fn strip_cr(l: Seq<char>) -> Seq<char> {
    if l.len() > 0 && l.last() == '\r' { l.drop_last() } else { l }
}

/// The lines of a text: split at each line feed, a carriage return just
/// before it dropped; a final line feed ends the last line rather than
/// starting an empty one.
pub open spec fn text_lines(s: Seq<char>) -> Seq<Seq<char>>
    decreases s.len(),
{
    if s.len() == 0 {
        Seq::empty()
    } else {
        match first_index(s, '\n', 0) {
            None => seq![s],
            Some(i) => {
                if 0 <= i < s.len() {
                    seq![strip_cr(s.take(i))] + text_lines(s.skip(i + 1))
                } else {
                    Seq::empty()
                }
            },
        }
    }
}

/// `first_index` from `j` finds the same place as from where the search
/// has got to.
proof fn lemma_first_index_range(s: Seq<char>, c: char, j: int)
    requires
        0 <= j,
    ensures
        first_index(s, c, j) matches Some(i) ==> j <= i < s.len() && s[i] == c
            && forall|k: int| j <= k < i ==> s[k] != c,
        first_index(s, c, j) is None ==> forall|k: int| j <= k < s.len() ==> s[k] != c,
    decreases s.len() - j,
{
    if j < s.len() && s[j] != c {
        lemma_first_index_range(s, c, j + 1);
    }
}

/// In `cur + rest` with no line feed in `cur`, the first line feed is the
/// first one of `rest`.
proof fn lemma_first_index_concat(cur: Seq<char>, rest: Seq<char>, c: char)
    requires
        forall|k: int| 0 <= k < cur.len() ==> cur[k] != c,
    ensures
        first_index(cur + rest, c, 0) == (match first_index(rest, c, 0) {
            Some(i) => Some(i + cur.len()),
            None => None,
        }),
{
    let s = cur + rest;
    lemma_first_index_range(s, c, 0);
    lemma_first_index_range(rest, c, 0);
    match first_index(rest, c, 0) {
        Some(i) => {
            assert(s[i + cur.len()] == c);
            match first_index(s, c, 0) {
                Some(k) => {
                    if k < i + cur.len() {
                        if k >= cur.len() {
                            assert(rest[k - cur.len()] == c);
                        }
                    }
                },
                None => {},
            }
        },
        None => {
            match first_index(s, c, 0) {
                Some(k) => {
                    if k >= cur.len() {
                        assert(rest[k - cur.len()] == c);
                    }
                },
                None => {},
            }
        },
    }
}

/// The text of a sequence of characters.
pub(crate) fn string_of(chars: &[char]) -> (r: String)
    ensures
        r@ == chars@,
{
    let mut r = String::new();
    let mut i: usize = 0;
    while i < chars.len()
        invariant
            i <= chars@.len(),
            r@ == chars@.take(i as int),
        decreases chars@.len() - i,
    {
        string_push(&mut r, chars[i]);
        i = i + 1;
        assert(r@ =~= chars@.take(i as int));
    }
    assert(chars@.take(i as int) =~= chars@);
    r
}

/// The lines of `s` (see `text_lines`).
pub(crate) fn lines_of(s: &str) -> (r: Vec<String>)
    ensures
        r@.map_values(|l: String| l@) == text_lines(s@),
{
    let chars = chars_of(s);
    let mut out: Vec<String> = Vec::new();
    let mut cur: Vec<char> = Vec::new();
    let mut i: usize = 0;
    assert(chars@.skip(0) =~= chars@);
    assert(cur@ + chars@.skip(0) =~= chars@);
    while i < chars.len()
        invariant
            i <= chars@.len(),
            chars@ == s@,
            forall|k: int| 0 <= k < cur@.len() ==> cur@[k] != '\n',
            out@.map_values(|l: String| l@) + text_lines(cur@ + chars@.skip(i as int)) == text_lines(s@),
        decreases chars@.len() - i,
    {
        let c = chars[i];
        let ghost rest = chars@.skip(i as int);
        let ghost whole = cur@ + rest;
        proof {
            lemma_first_index_concat(cur@, rest, '\n');
        }
        if c == '\n' {
            let mut line = cur;
            if line.len() > 0 && line[line.len() - 1] == '\r' {
                line.pop();
            }
            let ghost line_chars = line@;
            let text = string_of(line.as_slice());
            proof {
                assert(rest[0] == '\n');
                assert(first_index(rest, '\n', 0) == Some(0int));
                assert(whole.take(cur@.len() as int) =~= cur@);
                assert(whole.skip(cur@.len() as int + 1) =~= chars@.skip(i as int + 1));
                assert(line_chars == strip_cr(cur@));
            }
            let ghost before = out@.map_values(|l: String| l@);
            out.push(text);
            assert(out@.map_values(|l: String| l@) =~= before.push(strip_cr(cur@)));
            cur = Vec::new();
            assert(cur@ + chars@.skip(i as int + 1) =~= chars@.skip(i as int + 1));
        } else {
            proof {
                assert(rest[0] != '\n');
                if first_index(rest, '\n', 0) == Some(0int) {
                    lemma_first_index_range(rest, '\n', 0);
                }
            }
            cur.push(c);
            assert(cur@ + chars@.skip(i as int + 1) =~= whole);
        }
        i = i + 1;
    }
    proof {
        assert(chars@.skip(i as int) =~= Seq::<char>::empty());
        assert(cur@ + chars@.skip(i as int) =~= cur@);
        lemma_first_index_range(cur@, '\n', 0);
    }
    if cur.len() > 0 {
        let text = string_of(cur.as_slice());
        let ghost before = out@.map_values(|l: String| l@);
        out.push(text);
        assert(out@.map_values(|l: String| l@) =~= before.push(cur@));
        assert(before + seq![cur@] =~= before.push(cur@));
    } else {
        assert(out@.map_values(|l: String| l@) + Seq::<Seq<char>>::empty() =~= out@.map_values(|l: String| l@));
    }
    out
}

/// The characters `char::is_whitespace` accepts (Unicode White_Space).
pub open spec fn is_white(c: char) -> bool {
    ('\u{9}' <= c && c <= '\u{d}') || c == ' ' || c == '\u{85}' || c == '\u{a0}' || c == '\u{1680}'
        || ('\u{2000}' <= c && c <= '\u{200a}') || c == '\u{2028}' || c == '\u{2029}' || c == '\u{202f}'
        || c == '\u{205f}' || c == '\u{3000}'
}

fn is_white_char(c: char) -> (r: bool)
    ensures
        r == is_white(c),
{
    (c >= '\u{9}' && c <= '\u{d}') || c == ' ' || c == '\u{85}' || c == '\u{a0}' || c == '\u{1680}'
        || (c >= '\u{2000}' && c <= '\u{200a}') || c == '\u{2028}' || c == '\u{2029}' || c == '\u{202f}'
        || c == '\u{205f}' || c == '\u{3000}'
}

/// The first place from `j` on that holds a non-white character, or the
/// length.
pub open spec fn lead_end(s: Seq<char>, j: int) -> int
    decreases s.len() - j,
{
    if j < 0 || j >= s.len() {
        s.len() as int
    } else if !is_white(s[j]) {
        j
    } else {
        lead_end(s, j + 1)
    }
}

/// One past the last non-white character before `j`, or zero.
pub open spec fn trail_end(s: Seq<char>, j: int) -> int
    decreases j,
{
    if j <= 0 || j > s.len() {
        0
    } else if !is_white(s[j - 1]) {
        j
    } else {
        trail_end(s, j - 1)
    }
}

/// A text without its leading and trailing white space.
pub open spec fn trimmed(s: Seq<char>) -> Seq<char> {
    let a = lead_end(s, 0);
    let b = trail_end(s, s.len() as int);
    if a >= b { Seq::empty() } else { s.subrange(a, b) }
}

/// `s` without its leading and trailing white space.
pub(crate) fn trim_text(s: &str) -> (r: String)
    ensures
        r@ == trimmed(s@),
{
    let chars = chars_of(s);
    let n = chars.len();
    let mut a: usize = 0;
    while a < n && is_white_char(chars[a])
        invariant
            a <= n,
            n == chars@.len(),
            lead_end(chars@, 0) == lead_end(chars@, a as int),
        decreases n - a,
    {
        a = a + 1;
    }
    let mut b: usize = n;
    while b > 0 && is_white_char(chars[b - 1])
        invariant
            b <= n,
            n == chars@.len(),
            trail_end(chars@, n as int) == trail_end(chars@, b as int),
        decreases b,
    {
        b = b - 1;
    }
    if a >= b {
        assert(chars@ == s@);
        return String::new();
    }
    let r = string_of(vstd::slice::slice_subrange(chars.as_slice(), a, b));
    assert(chars@ == s@);
    r
}

/// Whether `s` begins with `p`.
pub open spec fn starts_with(s: Seq<char>, p: Seq<char>) -> bool {
    p.len() <= s.len() && s.take(p.len() as int) == p
}

/// Whether the characters begin with the text `p`.
pub(crate) fn chars_start_with(s: &[char], p: &str) -> (r: bool)
    ensures
        r == starts_with(s@, p@),
{
    let pc = chars_of(p);
    if pc.len() > s.len() {
        return false;
    }
    let mut i: usize = 0;
    while i < pc.len()
        invariant
            i <= pc@.len(),
            pc@.len() <= s@.len(),
            pc@ == p@,
            forall|k: int| 0 <= k < i ==> s@[k] == pc@[k],
        decreases pc@.len() - i,
    {
        if s[i] != pc[i] {
            assert(s@.take(pc@.len() as int)[i as int] != pc@[i as int]);
            return false;
        }
        i = i + 1;
    }
    assert(s@.take(pc@.len() as int) =~= pc@);
    true
}

/// Whether `c` is an ASCII digit.
pub open spec fn is_digit(c: char) -> bool {
    '0' <= c && c <= '9'
}

/// The number the digits `d` write in decimal.
pub open spec fn digits_value(d: Seq<char>) -> nat
    decreases d.len(),
{
    if d.len() == 0 {
        0
    } else {
        digits_value(d.drop_last()) * 10 + ((d.last() as u32) - 48) as nat
    }
}

/// The value of an unsigned decimal text as `from_str` reads it: an
/// optional `+`, then one or more ASCII digits and nothing else.
pub open spec fn unsigned_text_value(s: Seq<char>) -> Option<nat> {
    let d = if s.len() > 0 && s[0] == '+' { s.skip(1) } else { s };
    if d.len() > 0 && forall|i: int| 0 <= i < d.len() ==> is_digit(#[trigger] d[i]) {
        Some(digits_value(d))
    } else {
        None
    }
}

/// Calls `u32::from_str`, which reads an unsigned decimal text (see
/// `unsigned_text_value`) and fails when it is malformed or too large.
#[verifier::external_body]
pub(crate) fn parse_u32(s: &str) -> (r: Option<u32>)
    ensures
        r == (match unsigned_text_value(s@) {
            Some(v) => if v <= u32::MAX { Some(v as u32) } else { None },
            None => None,
        }),
{
    s.parse::<u32>().ok()
}

/// Calls `u64::from_str`, which reads an unsigned decimal text (see
/// `unsigned_text_value`) and fails when it is malformed or too large.
#[verifier::external_body]
pub(crate) fn parse_u64(s: &str) -> (r: Option<u64>)
    ensures
        r == (match unsigned_text_value(s@) {
            Some(v) => if v <= u64::MAX { Some(v as u64) } else { None },
            None => None,
        }),
{
    s.parse::<u64>().ok()
}

/// The upper-case form of a text, as `str::to_uppercase` gives it.
pub uninterp spec fn uppercase(s: Seq<char>) -> Seq<char>;

/// Calls `str::to_uppercase`, which maps each character to its upper-case
/// form by the Unicode tables; the result is named `uppercase`. ASCII text
/// has its letters a to z made A to Z and keeps the rest.
#[verifier::external_body]
pub(crate) fn to_uppercase(s: &str) -> (r: String)
    ensures
        r@ == uppercase(s@),
        all_ascii(s@) ==> r@ == s@.map_values(|c: char| ascii_upper(c)),
{
    s.to_uppercase()
}

/// The position of the last `c` in `s` before `j`.
pub open spec fn last_index(s: Seq<char>, c: char, j: int) -> Option<int>
    decreases j,
{
    if j <= 0 || j > s.len() {
        None
    } else if s[j - 1] == c {
        Some(j - 1)
    } else {
        last_index(s, c, j - 1)
    }
}

/// Where `c` last stands in `s`.
pub(crate) fn find_last(s: &[char], c: char) -> (r: Option<usize>)
    ensures
        r matches Some(i) ==> last_index(s@, c, s@.len() as int) == Some(i as int) && i < s@.len(),
        r is None ==> last_index(s@, c, s@.len() as int) is None,
{
    let n = s.len();
    let mut j: usize = n;
    while j > 0
        invariant
            j <= n,
            n == s@.len(),
            last_index(s@, c, n as int) == last_index(s@, c, j as int),
        decreases j,
    {
        if s[j - 1] == c {
            return Some(j - 1);
        }
        j = j - 1;
    }
    None
}

/// Calls `u8::from_str`, which reads an unsigned decimal text (see
/// `unsigned_text_value`) and fails when it is malformed or too large.
#[verifier::external_body]
pub(crate) fn parse_u8(s: &str) -> (r: Option<u8>)
    ensures
        r == (match unsigned_text_value(s@) {
            Some(v) => if v <= u8::MAX { Some(v as u8) } else { None },
            None => None,
        }),
{
    s.parse::<u8>().ok()
}

/// The pieces of a text between the separator `c`, as `str::split` gives
/// them (an empty text is one empty piece).
pub open spec fn split_on(s: Seq<char>, c: char) -> Seq<Seq<char>>
    decreases s.len(),
{
    match first_index(s, c, 0) {
        None => seq![s],
        Some(i) => if 0 <= i < s.len() { seq![s.take(i)] + split_on(s.skip(i + 1), c) } else { seq![s] },
    }
}

/// The pieces of `s` between the separator `c` (see `split_on`).
pub(crate) fn split_chars(s: &[char], c: char) -> (r: Vec<String>)
    ensures
        r@.map_values(|p: String| p@) == split_on(s@, c),
{
    let mut out: Vec<String> = Vec::new();
    let mut cur: Vec<char> = Vec::new();
    let mut i: usize = 0;
    assert(cur@ + s@.skip(0) =~= s@);
    while i < s.len()
        invariant
            i <= s@.len(),
            forall|k: int| 0 <= k < cur@.len() ==> cur@[k] != c,
            out@.map_values(|p: String| p@) + split_on(cur@ + s@.skip(i as int), c) == split_on(s@, c),
        decreases s@.len() - i,
    {
        let ch = s[i];
        let ghost rest = s@.skip(i as int);
        let ghost whole = cur@ + rest;
        proof {
            lemma_first_index_concat(cur@, rest, c);
        }
        if ch == c {
            let text = string_of(cur.as_slice());
            proof {
                assert(rest[0] == c);
                assert(first_index(rest, c, 0) == Some(0int));
                assert(whole.take(cur@.len() as int) =~= cur@);
                assert(whole.skip(cur@.len() as int + 1) =~= s@.skip(i as int + 1));
            }
            let ghost before = out@.map_values(|p: String| p@);
            out.push(text);
            assert(out@.map_values(|p: String| p@) =~= before.push(cur@));
            cur = Vec::new();
            assert(cur@ + s@.skip(i as int + 1) =~= s@.skip(i as int + 1));
        } else {
            proof {
                assert(rest[0] != c);
                if first_index(rest, c, 0) == Some(0int) {
                    lemma_first_index_range(rest, c, 0);
                }
            }
            cur.push(ch);
            assert(cur@ + s@.skip(i as int + 1) =~= whole);
        }
        i = i + 1;
    }
    proof {
        assert(s@.skip(i as int) =~= Seq::<char>::empty());
        assert(cur@ + s@.skip(i as int) =~= cur@);
        lemma_first_index_range(cur@, c, 0);
    }
    let text = string_of(cur.as_slice());
    let ghost before = out@.map_values(|p: String| p@);
    out.push(text);
    assert(out@.map_values(|p: String| p@) =~= before.push(cur@));
    assert(before + seq![cur@] =~= before.push(cur@));
    out
}

} // verus!
