//! String helpers used by the message builders of the library.

use vstd::prelude::*;

verus! {

broadcast use vstd::string::group_string_axioms;

/// Whether `needle` occurs as a contiguous run of characters in `hay`.
pub open spec fn occurs_in(needle: Seq<char>, hay: Seq<char>) -> bool {
    exists|i: int| 0 <= i <= hay.len() - needle.len() && #[trigger] hay.subrange(i, i + needle.len()) == needle
}

/// Copy of a string slice as an owned `String`.
pub fn owned(s: &str) -> (res: String)
    ensures
        res@ == s@,
{
    s.to_string()
}

/// Equality of two string slices, character by character.
pub fn str_eq(a: &str, b: &str) -> (res: bool)
    ensures
        res == (a@ == b@),
{
    let x = a.to_string();
    let y = b.to_string();
    x == y
}

/// The concatenation of two string slices.
pub fn cat2(a: &str, b: &str) -> (res: String)
    ensures
        res@ == a@ + b@,
{
    let mut s = a.to_string();
    s.append(b);
    s
}

/// The concatenation of three string slices.
pub fn cat3(a: &str, b: &str, c: &str) -> (res: String)
    ensures
        res@ == a@ + b@ + c@,
{
    let mut s = a.to_string();
    s.append(b);
    s.append(c);
    s
}

/// The concatenation of four string slices.
pub fn cat4(a: &str, b: &str, c: &str, d: &str) -> (res: String)
    ensures
        res@ == a@ + b@ + c@ + d@,
{
    let mut s = a.to_string();
    s.append(b);
    s.append(c);
    s.append(d);
    s
}

/// The concatenation of five string slices.
pub fn cat5(a: &str, b: &str, c: &str, d: &str, e: &str) -> (res: String)
    ensures
        res@ == a@ + b@ + c@ + d@ + e@,
{
    let mut s = a.to_string();
    s.append(b);
    s.append(c);
    s.append(d);
    s.append(e);
    s
}

/// The characters of a string slice, in order.
pub fn chars_of(s: &str) -> (res: Vec<char>)
    ensures
        res@ == s@,
{
    let mut out: Vec<char> = Vec::new();
    for c in it: s.chars()
        invariant
            it.seq() == s@,
            out@ == s@.take(it.index() as int),
    {
        out.push(c);
    }
    out
}


/// `String::push`: appends one character at the end of the string.
#[verifier::external_body]
pub(crate) fn push_char(s: &mut String, c: char)
    ensures
        final(s)@ == old(s)@.push(c),
{
    s.push(c);
}

/// The string whose characters are those of `v`, in order.
pub fn string_from_chars(v: &Vec<char>) -> (res: String)
    ensures
        res@ == v@,
{
    let mut s = String::new();
    let mut i: usize = 0;
    while i < v.len()
        invariant
            i <= v.len(),
            s@ == v@.take(i as int),
        decreases v.len() - i,
    {
        push_char(&mut s, v[i]);
        assert(v@.take(i as int + 1) == v@.take(i as int).push(v@[i as int]));
        i = i + 1;
    }
    assert(v@.take(v.len() as int) == v@);
    s
}

/// Whether `needle` occurs at position `i` of `hay` (all as character sequences).
pub open spec fn occurs_at(needle: Seq<char>, hay: Seq<char>, i: int) -> bool {
    0 <= i && i + needle.len() <= hay.len() && hay.subrange(i, i + needle.len()) == needle
}

fn occurs_at_exec(needle: &Vec<char>, hay: &Vec<char>, i: usize) -> (res: bool)
    requires
        i + needle.len() <= hay.len(),
    ensures
        res == occurs_at(needle@, hay@, i as int),
{
    let mut j: usize = 0;
    while j < needle.len()
        invariant
            i + needle.len() <= hay.len(),
            j <= needle.len(),
            forall|k: int| 0 <= k < j ==> hay@[i + k] == needle@[k],
        decreases needle.len() - j,
    {
        if hay[i + j] != needle[j] {
            assert(hay@.subrange(i as int, i + needle.len())[j as int] != needle@[j as int]);
            return false;
        }
        j = j + 1;
    }
    assert(hay@.subrange(i as int, i + needle.len()) =~= needle@);
    true
}

/// Whether `needle` occurs in `hay` (the `str::contains` test on a string pattern).
pub fn contains(hay: &str, needle: &str) -> (res: bool)
    ensures
        res == occurs_in(needle@, hay@),
{
    let h = chars_of(hay);
    let n = chars_of(needle);
    if n.len() > h.len() {
        return false;
    }
    let limit = h.len() - n.len();
    for i in 0..limit
        invariant
            h@ == hay@,
            n@ == needle@,
            limit == h.len() - n.len(),
            forall|k: int| 0 <= k < i ==> !occurs_at(n@, h@, k),
    {
        if occurs_at_exec(&n, &h, i) {
            assert(h@.subrange(i as int, i + n@.len()) == n@);
            return true;
        }
    }
    if occurs_at_exec(&n, &h, limit) {
        assert(h@.subrange(limit as int, limit + n@.len()) == n@);
        return true;
    }
    assert forall|k: int| 0 <= k <= h@.len() - n@.len() implies #[trigger] h@.subrange(k, k + n@.len()) != n@ by {
        assert(!occurs_at(n@, h@, k));
    }
    false
}

/// The decimal digit character for `d` (0 to 9).
pub open spec fn digit(d: nat) -> char {
    if d == 0 { '0' } else if d == 1 { '1' } else if d == 2 { '2' } else if d == 3 { '3' }
    else if d == 4 { '4' } else if d == 5 { '5' } else if d == 6 { '6' } else if d == 7 { '7' }
    else if d == 8 { '8' } else { '9' }
}

/// The decimal representation of `n`, as `Display` writes an unsigned integer.
pub open spec fn decimal(n: nat) -> Seq<char>
    decreases n,
{
    if n < 10 {
        seq![digit(n)]
    } else {
        decimal(n / 10).push(digit(n % 10))
    }
}

fn digit_exec(d: u64) -> (c: char)
    requires
        d < 10,
    ensures
        c == digit(d as nat),
{
    if d == 0 { '0' } else if d == 1 { '1' } else if d == 2 { '2' } else if d == 3 { '3' }
    else if d == 4 { '4' } else if d == 5 { '5' } else if d == 6 { '6' } else if d == 7 { '7' }
    else if d == 8 { '8' } else { '9' }
}

/// The decimal text of an unsigned integer.
pub fn decimal_string(n: u64) -> (res: String)
    ensures
        res@ == decimal(n as nat),
    decreases n,
{
    if n < 10 {
        let mut s = String::new();
        push_char(&mut s, digit_exec(n));
        s
    } else {
        let mut s = decimal_string(n / 10);
        push_char(&mut s, digit_exec(n % 10));
        s
    }
}

/// Text of `str::to_lowercase` on the characters `s`.
pub uninterp spec fn lowercase(s: Seq<char>) -> Seq<char>;

/// `str::to_lowercase`: the lowercase form of the slice, as defined by the
/// Unicode `Lowercase` mapping of the standard library; the contract only
/// names the result.
#[verifier::external_body]
pub(crate) fn to_lowercase(s: &str) -> (res: String)
    ensures
        res@ == lowercase(s@),
{
    s.to_lowercase()
}


/// Whether `c` has the Unicode `White_Space` property (`char::is_whitespace`).
pub open spec fn is_white(c: char) -> bool {
    ||| ('\t' <= c <= '\r')
    ||| c == ' '
    ||| c == '\u{85}'
    ||| c == '\u{a0}'
    ||| c == '\u{1680}'
    ||| ('\u{2000}' <= c <= '\u{200a}')
    ||| c == '\u{2028}'
    ||| c == '\u{2029}'
    ||| c == '\u{202f}'
    ||| c == '\u{205f}'
    ||| c == '\u{3000}'
}

fn is_white_exec(c: char) -> (res: bool)
    ensures
        res == is_white(c),
{
    ('\t' <= c && c <= '\r') || c == ' ' || c == '\u{85}' || c == '\u{a0}' || c == '\u{1680}'
        || ('\u{2000}' <= c && c <= '\u{200a}') || c == '\u{2028}' || c == '\u{2029}'
        || c == '\u{202f}' || c == '\u{205f}' || c == '\u{3000}'
}

/// `s` with leading and trailing white space removed (what `str::trim` gives):
/// the run from the first to the last character that is not white space.
pub open spec fn trimmed(s: Seq<char>, start: int, end: int) -> bool {
    &&& 0 <= start <= end <= s.len()
    &&& forall|i: int| 0 <= i < start ==> is_white(#[trigger] s[i])
    &&& forall|i: int| end <= i < s.len() ==> is_white(#[trigger] s[i])
    &&& start < end ==> !is_white(s[start]) && !is_white(s[end - 1])
}

/// Whether every character of `s` is white space.
pub open spec fn all_white(s: Seq<char>) -> bool {
    forall|i: int| 0 <= i < s.len() ==> is_white(#[trigger] s[i])
}

/// `s` without its leading and trailing white space.
pub fn trim(s: &str) -> (res: String)
    ensures
        exists|start: int, end: int| trimmed(s@, start, end) && res@ == s@.subrange(start, end),
        res@.len() == 0 <==> all_white(s@),
{
    let v = chars_of(s);
    let n = v.len();
    let mut start: usize = 0;
    while start < n && is_white_exec(v[start])
        invariant
            v@ == s@,
            n == v@.len(),
            start <= n,
            forall|i: int| 0 <= i < start ==> is_white(#[trigger] v@[i]),
        decreases n - start,
    {
        start = start + 1;
    }
    let mut end: usize = n;
    while end > start && is_white_exec(v[end - 1])
        invariant
            v@ == s@,
            n == v@.len(),
            start <= end <= n,
            forall|i: int| end <= i < n ==> is_white(#[trigger] v@[i]),
        decreases end,
    {
        end = end - 1;
    }
    let mut out: Vec<char> = Vec::new();
    let mut i: usize = start;
    while i < end
        invariant
            v@ == s@,
            start <= i <= end <= n,
            n == v@.len(),
            out@ == v@.subrange(start as int, i as int),
        decreases end - i,
    {
        out.push(v[i]);
        assert(v@.subrange(start as int, i as int + 1) == v@.subrange(start as int, i as int).push(v@[i as int]));
        i = i + 1;
    }
    let res = string_from_chars(&out);
    proof {
        assert(trimmed(s@, start as int, end as int));
        if res@.len() == 0 {
            assert forall|k: int| 0 <= k < s@.len() implies is_white(#[trigger] s@[k]) by {
                if k >= start {
                    assert(k >= end);
                }
            }
        }
        if all_white(s@) && start < end {
            assert(is_white(s@[start as int]));
        }
    }
    res
}


/// Whether `s` begins with `prefix` (`str::starts_with`).
pub fn starts_with(s: &str, prefix: &str) -> (res: bool)
    ensures
        res == (prefix@.len() <= s@.len() && s@.subrange(0, prefix@.len() as int) == prefix@),
{
    let a = chars_of(s);
    let b = chars_of(prefix);
    if b.len() > a.len() {
        return false;
    }
    let mut i: usize = 0;
    while i < b.len()
        invariant
            a@ == s@,
            b@ == prefix@,
            b.len() <= a.len(),
            i <= b.len(),
            forall|k: int| 0 <= k < i ==> a@[k] == b@[k],
        decreases b.len() - i,
    {
        if a[i] != b[i] {
            assert(s@.subrange(0, prefix@.len() as int)[i as int] != prefix@[i as int]);
            return false;
        }
        i = i + 1;
    }
    assert(s@.subrange(0, prefix@.len() as int) =~= prefix@);
    true
}

/// Whether `s` ends with `suffix` (`str::ends_with`).
pub fn ends_with(s: &str, suffix: &str) -> (res: bool)
    ensures
        res == (suffix@.len() <= s@.len()
            && s@.subrange(s@.len() - suffix@.len(), s@.len() as int) == suffix@),
{
    let a = chars_of(s);
    let b = chars_of(suffix);
    if b.len() > a.len() {
        return false;
    }
    let off = a.len() - b.len();
    let mut i: usize = 0;
    while i < b.len()
        invariant
            a@ == s@,
            b@ == suffix@,
            off == a.len() - b.len(),
            b.len() <= a.len(),
            i <= b.len(),
            forall|k: int| 0 <= k < i ==> a@[off + k] == b@[k],
        decreases b.len() - i,
    {
        if a[off + i] != b[i] {
            assert(s@.subrange(off as int, s@.len() as int)[i as int] != suffix@[i as int]);
            return false;
        }
        i = i + 1;
    }
    assert(s@.subrange(off as int, s@.len() as int) =~= suffix@);
    true
}

/// The path `base` joined with `part`, as `Path::join` gives it on Unix: an
/// absolute `part` (one starting with `/`) replaces `base`; otherwise the two
/// are joined with one `/` between them, none being added after an empty
/// base or one that already ends with `/`.
pub open spec fn joined(base: Seq<char>, part: Seq<char>) -> Seq<char> {
    if part.len() > 0 && part[0] == '/' {
        part
    } else if base.len() == 0 {
        part
    } else if base.last() == '/' {
        base + part
    } else {
        base + "/"@ + part
    }
}

/// `base` joined with `part`, as `Path::join` does on Unix.
pub fn join_path(base: &str, part: &str) -> (res: String)
    ensures
        res@ == joined(base@, part@),
{
    let p = chars_of(part);
    if p.len() > 0 && p[0] == '/' {
        return owned(part);
    }
    let b = chars_of(base);
    if b.len() == 0 {
        owned(part)
    } else if b[b.len() - 1] == '/' {
        cat2(base, part)
    } else {
        cat3(base, "/", part)
    }
}

/// The decimal text of a signed integer, with a leading `-` when negative.
pub open spec fn signed_decimal(n: int) -> Seq<char> {
    if n < 0 { "-"@ + decimal((-n) as nat) } else { decimal(n as nat) }
}

/// The decimal text of a signed integer.
pub fn signed_decimal_string(n: i32) -> (res: String)
    ensures
        res@ == signed_decimal(n as int),
{
    if n < 0 {
        let m: u64 = if n == i32::MIN { 2147483648u64 } else { (-n) as u64 };
        let d = decimal_string(m);
        cat2("-", d.as_str())
    } else {
        decimal_string(n as u64)
    }
}


/// The character sequences of a sequence of strings.
pub open spec fn views(v: Seq<String>) -> Seq<Seq<char>> {
    v.map_values(|s: String| s@)
}

/// The views of two sequences of strings, one after the other.
pub proof fn lemma_views_concat(a: Seq<String>, b: Seq<String>)
    ensures
        views(a + b) == views(a) + views(b),
{
    assert(views(a + b) =~= views(a) + views(b));
}

/// The views of a sequence with one more string at the end.
pub proof fn lemma_views_push(a: Seq<String>, s: String)
    ensures
        views(a.push(s)) == views(a).push(s@),
{
    assert(views(a.push(s)) =~= views(a).push(s@));
}

/// Each element of `names` mapped by `f`, the results one after the other.
pub open spec fn flat_map(names: Seq<Seq<char>>, f: spec_fn(Seq<char>) -> Seq<Seq<char>>) -> Seq<Seq<char>>
    decreases names.len(),
{
    if names.len() == 0 {
        Seq::empty()
    } else {
        flat_map(names.drop_last(), f) + f(names.last())
    }
}

/// The first candidate whose flag is set, taking candidates and flags in step.
pub open spec fn first_present(cands: Seq<Seq<char>>, exists: Seq<bool>) -> Option<Seq<char>>
    decreases cands.len(),
{
    if cands.len() == 0 || exists.len() == 0 {
        None
    } else if exists[0] {
        Some(cands[0])
    } else {
        first_present(cands.drop_first(), exists.drop_first())
    }
}

/// Skipping candidates whose flag is clear does not change the choice.
pub proof fn lemma_first_present_skip(cands: Seq<Seq<char>>, exists: Seq<bool>, i: int)
    requires
        0 <= i <= cands.len(),
        i <= exists.len(),
        forall|j: int| 0 <= j < i ==> !#[trigger] exists[j],
    ensures
        first_present(cands, exists) == first_present(cands.skip(i), exists.skip(i)),
    decreases i,
{
    if i > 0 {
        assert(!exists[0]);
        let c = cands.drop_first();
        let e = exists.drop_first();
        assert forall|j: int| 0 <= j < i - 1 implies !#[trigger] e[j] by {
            assert(e[j] == exists[j + 1]);
        }
        lemma_first_present_skip(c, e, i - 1);
        assert(c.skip(i - 1) =~= cands.skip(i));
        assert(e.skip(i - 1) =~= exists.skip(i));
    } else {
        assert(cands.skip(0) =~= cands);
        assert(exists.skip(0) =~= exists);
    }
}

/// The first candidate whose flag is set.
pub fn pick_first_present(cands: &Vec<String>, exists: &Vec<bool>) -> (res: Option<String>)
    ensures
        opt_text(res) == first_present(views(cands@), exists@),
{
    let n = if cands.len() < exists.len() { cands.len() } else { exists.len() };
    let mut i: usize = 0;
    while i < n
        invariant
            n <= cands.len(),
            n <= exists.len(),
            n == cands.len() || n == exists.len(),
            i <= n,
            forall|j: int| 0 <= j < i ==> !#[trigger] exists@[j],
        decreases n - i,
    {
        if exists[i] {
            proof {
                lemma_first_present_skip(views(cands@), exists@, i as int);
                let c = views(cands@).skip(i as int);
                let e = exists@.skip(i as int);
                assert(c[0] == cands@[i as int]@);
                assert(e[0]);
                assert(first_present(c, e) == Some(cands@[i as int]@));
            }
            return Some(cands[i].clone());
        }
        i = i + 1;
    }
    proof {
        lemma_first_present_skip(views(cands@), exists@, n as int);
        let c = views(cands@).skip(n as int);
        let e = exists@.skip(n as int);
        assert(c.len() == 0 || e.len() == 0);
    }
    None
}

/// The view of an optional string.
pub open spec fn opt_text(o: Option<String>) -> Option<Seq<char>> {
    match o {
        Some(s) => Some(s@),
        None => None,
    }
}

/// The decimal text of a signed 64-bit integer.
pub fn signed_decimal_string_i64(n: i64) -> (res: String)
    ensures
        res@ == signed_decimal(n as int),
{
    if n < 0 {
        let m: u64 = if n == i64::MIN { 9223372036854775808u64 } else { (-n) as u64 };
        let d = decimal_string(m);
        cat2("-", d.as_str())
    } else {
        decimal_string(n as u64)
    }
}

} // verus!
