//! Character-level text helpers shared by the rest of the library.
//!
//! Strings are reasoned about through their view, a `Seq<char>`.  The helpers
//! here move between `String` and `Vec<char>`, render integers in decimal and
//! split text into lines the way `str::lines` does.
use vstd::prelude::*;

verus! {

/// Appends one character to a string (`String::push`).
#[verifier::external_body]
pub fn push_char(s: &mut String, c: char)
    ensures
        final(s)@ == old(s)@.push(c),
{
    s.push(c);
}

/// The characters of a string, in order.
pub fn to_chars(s: &str) -> (r: Vec<char>)
    ensures
        r@ == s@,
{
    let mut out: Vec<char> = Vec::new();
    for c in it: s.chars()
        invariant
            out@ == it.seq().take(it.index() as int),
            it.seq() == s@,
    {
        out.push(c);
        proof {
            assert(it.seq().take(it.index() + 1) == it.seq().take(it.index() as int).push(c));
        }
    }
    out
}

/// A string made of the given characters.
pub fn from_chars(v: &Vec<char>) -> (r: String)
    ensures
        r@ == v@,
{
    let mut s = String::new();
    let mut i: usize = 0;
    while i < v.len()
        invariant
            i <= v.len(),
            s@ == v@.take(i as int),
        decreases v.len() - i,
    {
        push_char(&mut s, v[i]);
        proof {
            assert(v@.take(i + 1) == v@.take(i as int).push(v@[i as int]));
        }
        i = i + 1;
    }
    proof {
        assert(v@.take(v@.len() as int) == v@);
    }
    s
}

/// Appends all characters of `src` to `dst`.
pub fn extend_chars(dst: &mut Vec<char>, src: &Vec<char>)
    ensures
        final(dst)@ == old(dst)@ + src@,
{
    let mut i: usize = 0;
    while i < src.len()
        invariant
            i <= src.len(),
            dst@ == old(dst)@ + src@.take(i as int),
        decreases src.len() - i,
    {
        dst.push(src[i]);
        proof {
            assert(src@.take(i + 1) == src@.take(i as int).push(src@[i as int]));
        }
        i = i + 1;
    }
    proof {
        assert(src@.take(src@.len() as int) == src@);
    }
}

/// Appends the characters of a string slice to a character vector.
pub fn push_str_chars(dst: &mut Vec<char>, s: &str)
    ensures
        final(dst)@ == old(dst)@ + s@,
{
    let v = to_chars(s);
    extend_chars(dst, &v);
}

/// The view of every string in a sequence.
pub open spec fn strs_view(v: Seq<String>) -> Seq<Seq<char>> {
    v.map_values(|s: String| s@)
}

/// The decimal digit character for `d`.
pub open spec fn digit_char(d: nat) -> char {
    if d == 0 { '0' }
    else if d == 1 { '1' }
    else if d == 2 { '2' }
    else if d == 3 { '3' }
    else if d == 4 { '4' }
    else if d == 5 { '5' }
    else if d == 6 { '6' }
    else if d == 7 { '7' }
    else if d == 8 { '8' }
    else { '9' }
}

/// The decimal rendering of a natural number, without leading zeros.
pub open spec fn decimal(n: nat) -> Seq<char>
    decreases n,
{
    if n < 10 {
        seq![digit_char(n)]
    } else {
        decimal(n / 10).push(digit_char(n % 10))
    }
}

/// The decimal rendering of an integer, with a leading `-` when negative.
pub open spec fn signed_decimal(n: int) -> Seq<char> {
    if n < 0 {
        seq!['-'] + decimal((-n) as nat)
    } else {
        decimal(n as nat)
    }
}

fn digit(d: u128) -> (c: char)
    requires
        d < 10,
    ensures
        c == digit_char(d as nat),
{
    if d == 0 { '0' }
    else if d == 1 { '1' }
    else if d == 2 { '2' }
    else if d == 3 { '3' }
    else if d == 4 { '4' }
    else if d == 5 { '5' }
    else if d == 6 { '6' }
    else if d == 7 { '7' }
    else if d == 8 { '8' }
    else { '9' }
}

/// Appends the decimal rendering of `n`.
pub fn push_decimal(out: &mut Vec<char>, n: u128)
    ensures
        final(out)@ == old(out)@ + decimal(n as nat),
    decreases n,
{
    if n < 10 {
        out.push(digit(n));
        proof {
            assert(old(out)@ + decimal(n as nat) == old(out)@.push(digit_char(n as nat)));
        }
    } else {
        push_decimal(out, n / 10);
        out.push(digit(n % 10));
        proof {
            assert(old(out)@ + decimal(n as nat) == (old(out)@ + decimal((n / 10) as nat)).push(
                digit_char((n % 10) as nat),
            ));
        }
    }
}

/// Appends the decimal rendering of a signed integer.
pub fn push_signed_decimal(out: &mut Vec<char>, n: i64)
    ensures
        final(out)@ == old(out)@ + signed_decimal(n as int),
{
    if n < 0 {
        out.push('-');
        let m: u128 = (-(n as i128)) as u128;
        push_decimal(out, m);
        proof {
            assert(old(out)@ + signed_decimal(n as int) == old(out)@.push('-') + decimal(m as nat));
        }
    } else {
        push_decimal(out, n as u128);
    }
}

/// The decimal rendering of `n` as a string (`u64::to_string`).
pub fn u64_to_string(n: u64) -> (r: String)
    ensures
        r@ == decimal(n as nat),
{
    let mut v: Vec<char> = Vec::new();
    push_decimal(&mut v, n as u128);
    from_chars(&v)
}

/// The decimal rendering of `n` as a string (`i64::to_string`).
pub fn i64_to_string(n: i64) -> (r: String)
    ensures
        r@ == signed_decimal(n as int),
{
    let mut v: Vec<char> = Vec::new();
    push_signed_decimal(&mut v, n);
    from_chars(&v)
}

/// A line with one trailing carriage return removed, if it has one.
pub open spec fn strip_cr(line: Seq<char>) -> Seq<char> {
    if line.len() > 0 && line.last() == '\r' {
        line.drop_last()
    } else {
        line
    }
}

/// The lines finished so far and the line being read, after reading `s`.
pub open spec fn lines_state(s: Seq<char>) -> (Seq<Seq<char>>, Seq<char>)
    decreases s.len(),
{
    if s.len() == 0 {
        (seq![], seq![])
    } else {
        let (done, cur) = lines_state(s.drop_last());
        if s.last() == '\n' {
            (done.push(strip_cr(cur)), seq![])
        } else {
            (done, cur.push(s.last()))
        }
    }
}

/// The lines of a text as `str::lines` yields them: split after each `\n`,
/// the `\n` and a `\r` just before it removed, and no empty line after a
/// final `\n`.
pub open spec fn spec_lines(s: Seq<char>) -> Seq<Seq<char>> {
    let (done, cur) = lines_state(s);
    if cur.len() == 0 {
        done
    } else {
        done.push(cur)
    }
}

/// Splits a text into lines, as `str::lines` does.
pub fn split_lines(s: &Vec<char>) -> (r: Vec<Vec<char>>)
    ensures
        r@.map_values(|l: Vec<char>| l@) == spec_lines(s@),
{
    let mut done: Vec<Vec<char>> = Vec::new();
    let mut cur: Vec<char> = Vec::new();
    let mut i: usize = 0;
    while i < s.len()
        invariant
            i <= s.len(),
            (done@.map_values(|l: Vec<char>| l@), cur@) == lines_state(s@.take(i as int)),
        decreases s.len() - i,
    {
        let c = s[i];
        proof {
            assert(s@.take(i + 1).drop_last() == s@.take(i as int));
        }
        if c == '\n' {
            let len = cur.len();
            if len > 0 && cur[len - 1] == '\r' {
                cur.pop();
            }
            done.push(cur);
            cur = Vec::new();
            proof {
                assert(done@.map_values(|l: Vec<char>| l@) =~= lines_state(s@.take(i + 1)).0);
            }
        } else {
            cur.push(c);
        }
        i = i + 1;
    }
    proof {
        assert(s@.take(s@.len() as int) == s@);
    }
    if cur.len() > 0 {
        done.push(cur);
        proof {
            assert(done@.map_values(|l: Vec<char>| l@) =~= spec_lines(s@));
        }
    }
    done
}

/// True when `sub` occurs in `s` at position `i`.
pub open spec fn occurs_at(s: Seq<char>, sub: Seq<char>, i: int) -> bool {
    0 <= i && i + sub.len() <= s.len() && s.subrange(i, i + sub.len()) == sub
}

/// True when `sub` occurs somewhere in `s` (`str::contains`).
pub open spec fn seq_contains(s: Seq<char>, sub: Seq<char>) -> bool {
    exists|i: int| occurs_at(s, sub, i)
}

/// Whether `sub` occurs in `s` at position `i`.
pub fn matches_at(s: &Vec<char>, sub: &Vec<char>, i: usize) -> (r: bool)
    ensures
        r == occurs_at(s@, sub@, i as int),
{
    if i > s.len() || sub.len() > s.len() - i {
        return false;
    }
    let mut j: usize = 0;
    while j < sub.len()
        invariant
            i + sub.len() <= s.len(),
            j <= sub.len(),
            forall|k: int| 0 <= k < j ==> s@[i + k] == sub@[k],
        decreases sub.len() - j,
    {
        if s[i + j] != sub[j] {
            proof {
                assert(s@.subrange(i as int, i + sub.len())[j as int] != sub@[j as int]);
            }
            return false;
        }
        j = j + 1;
    }
    proof {
        assert(s@.subrange(i as int, i + sub@.len()) =~= sub@);
    }
    true
}

/// Whether `sub` occurs somewhere in `s`.
pub fn contains_chars(s: &Vec<char>, sub: &Vec<char>) -> (r: bool)
    ensures
        r == seq_contains(s@, sub@),
{
    let mut i: usize = 0;
    while i < s.len()
        invariant
            i <= s.len(),
            forall|k: int| 0 <= k < i ==> !occurs_at(s@, sub@, k),
        decreases s.len() - i,
    {
        if matches_at(s, sub, i) {
            return true;
        }
        i = i + 1;
    }
    if matches_at(s, sub, i) {
        return true;
    }
    proof {
        assert forall|k: int| !occurs_at(s@, sub@, k) by {
            if 0 <= k && k <= i {
            } else if k > i {
                assert(k > s@.len());
            }
        }
    }
    false
}

/// Whether `s` begins with `prefix`.
pub fn starts_with_chars(s: &Vec<char>, prefix: &Vec<char>) -> (r: bool)
    ensures
        r == (prefix@.len() <= s@.len() && s@.take(prefix@.len() as int) == prefix@),
{
    let r = matches_at(s, prefix, 0);
    proof {
        assert(s@.subrange(0, prefix@.len() as int) == s@.take(prefix@.len() as int));
    }
    r
}

/// Whether `s` ends with `suffix`.
pub fn ends_with_chars(s: &Vec<char>, suffix: &Vec<char>) -> (r: bool)
    ensures
        r == (suffix@.len() <= s@.len() && s@.skip(s@.len() - suffix@.len()) == suffix@),
{
    if suffix.len() > s.len() {
        return false;
    }
    let r = matches_at(s, suffix, s.len() - suffix.len());
    proof {
        assert(s@.subrange(s@.len() - suffix@.len(), s@.len() as int) == s@.skip(
            s@.len() - suffix@.len(),
        ));
    }
    r
}

/// Whether two character vectors hold the same characters.
pub fn chars_eq(a: &Vec<char>, b: &Vec<char>) -> (r: bool)
    ensures
        r == (a@ == b@),
{
    if a.len() != b.len() {
        return false;
    }
    let r = matches_at(a, b, 0);
    proof {
        assert(a@.subrange(0, b@.len() as int) =~= a@);
    }
    r
}

/// Whether a string slice equals a string.
pub fn str_eq(a: &str, b: &str) -> (r: bool)
    ensures
        r == (a@ == b@),
{
    let av = to_chars(a);
    let bv = to_chars(b);
    chars_eq(&av, &bv)
}

/// Joins the pieces with `sep` between each two of them.
pub open spec fn join(pieces: Seq<Seq<char>>, sep: Seq<char>) -> Seq<char>
    decreases pieces.len(),
{
    if pieces.len() == 0 {
        seq![]
    } else if pieces.len() == 1 {
        pieces[0]
    } else {
        join(pieces.drop_last(), sep) + sep + pieces.last()
    }
}

/// The characters of `char::is_whitespace`: those with the Unicode
/// `White_Space` property.
pub open spec fn spec_is_whitespace(c: char) -> bool {
    ||| '\t' <= c <= '\r'
    ||| c == ' '
    ||| c == '\u{85}'
    ||| c == '\u{A0}'
    ||| c == '\u{1680}'
    ||| '\u{2000}' <= c <= '\u{200A}'
    ||| c == '\u{2028}'
    ||| c == '\u{2029}'
    ||| c == '\u{202F}'
    ||| c == '\u{205F}'
    ||| c == '\u{3000}'
}

/// Whether `c` is a whitespace character (`char::is_whitespace`).
pub fn is_whitespace(c: char) -> (r: bool)
    ensures
        r == spec_is_whitespace(c),
{
    ('\t' <= c && c <= '\r') || c == ' ' || c == '\u{85}' || c == '\u{A0}' || c == '\u{1680}'
        || ('\u{2000}' <= c && c <= '\u{200A}') || c == '\u{2028}' || c == '\u{2029}' || c
        == '\u{202F}' || c == '\u{205F}' || c == '\u{3000}'
}

/// The text with leading and trailing whitespace removed (`str::trim`).
pub open spec fn spec_trim(s: Seq<char>) -> Seq<char>
    decreases s.len(),
{
    if s.len() > 0 && spec_is_whitespace(s[0]) {
        spec_trim(s.drop_first())
    } else if s.len() > 0 && spec_is_whitespace(s.last()) {
        spec_trim(s.drop_last())
    } else {
        s
    }
}

/// A text with leading and trailing whitespace removed (`str::trim`).
pub fn trim(s: &str) -> (r: String)
    ensures
        r@ == spec_trim(s@),
{
    let v = to_chars(s);
    let mut start: usize = 0;
    let mut end: usize = v.len();
    proof {
        assert(v@.subrange(0, v@.len() as int) =~= s@);
    }
    while start < end && is_whitespace(v[start])
        invariant
            start <= end <= v.len(),
            end == v.len(),
            spec_trim(s@) == spec_trim(v@.subrange(start as int, end as int)),
            v@ == s@,
        decreases end - start,
    {
        proof {
            assert(v@.subrange(start as int, end as int).drop_first() =~= v@.subrange(
                start + 1,
                end as int,
            ));
        }
        start = start + 1;
    }
    while start < end && is_whitespace(v[end - 1])
        invariant
            start <= end <= v.len(),
            spec_trim(s@) == spec_trim(v@.subrange(start as int, end as int)),
            start < end ==> !spec_is_whitespace(v@[start as int]),
            v@ == s@,
        decreases end - start,
    {
        proof {
            let sub = v@.subrange(start as int, end as int);
            assert(sub[0] == v@[start as int]);
            assert(sub.last() == v@[end - 1]);
            assert(sub.drop_last() =~= v@.subrange(start as int, end - 1));
        }
        end = end - 1;
    }
    let mut out: Vec<char> = Vec::new();
    let mut i = start;
    while i < end
        invariant
            start <= i <= end <= v.len(),
            out@ == v@.subrange(start as int, i as int),
        decreases end - i,
    {
        out.push(v[i]);
        proof {
            assert(v@.subrange(start as int, i + 1) =~= v@.subrange(start as int, i as int).push(v@[i as int]));
        }
        i = i + 1;
    }
    proof {
        let sub = v@.subrange(start as int, end as int);
        if sub.len() > 0 {
            assert(sub[0] == v@[start as int]);
            assert(sub.last() == v@[end - 1]);
        }
    }
    from_chars(&out)
}

/// A character with ASCII capitals turned into small letters.
pub open spec fn ascii_lower(c: char) -> char {
    if 'A' <= c <= 'Z' {
        (((c as u8) + 32) as u8) as char
    } else {
        c
    }
}

/// Whether two texts are equal when ASCII letters are compared without
/// regard to case (`str::eq_ignore_ascii_case`).
pub open spec fn spec_eq_ignore_ascii_case(a: Seq<char>, b: Seq<char>) -> bool {
    a.len() == b.len() && forall|i: int| 0 <= i < a.len() ==> ascii_lower(#[trigger] a[i]) == ascii_lower(b[i])
}

fn lower(c: char) -> (r: char)
    ensures
        r == ascii_lower(c),
{
    if 'A' <= c && c <= 'Z' {
        ((c as u8) + 32) as char
    } else {
        c
    }
}

/// Compares two texts ignoring the case of ASCII letters.
pub fn eq_ignore_ascii_case(a: &str, b: &str) -> (r: bool)
    ensures
        r == spec_eq_ignore_ascii_case(a@, b@),
{
    let av = to_chars(a);
    let bv = to_chars(b);
    if av.len() != bv.len() {
        return false;
    }
    let mut i: usize = 0;
    while i < av.len()
        invariant
            i <= av.len(),
            av.len() == bv.len(),
            av@ == a@,
            bv@ == b@,
            forall|k: int| 0 <= k < i ==> ascii_lower(#[trigger] av@[k]) == ascii_lower(bv@[k]),
        decreases av.len() - i,
    {
        if lower(av[i]) != lower(bv[i]) {
            return false;
        }
        i = i + 1;
    }
    true
}

/// The text with every occurrence of `from` replaced by `to`, scanning from
/// the left without overlaps (`str::replace`).
pub open spec fn spec_replace(s: Seq<char>, from: Seq<char>, to: Seq<char>) -> Seq<char>
    decreases s.len(),
{
    if from.len() == 0 || s.len() == 0 {
        s
    } else if s.len() >= from.len() && s.take(from.len() as int) == from {
        to + spec_replace(s.skip(from.len() as int), from, to)
    } else {
        seq![s[0]] + spec_replace(s.drop_first(), from, to)
    }
}

/// Replaces every occurrence of a non-empty `from` by `to`.
pub fn replace_str(s: &str, from: &str, to: &str) -> (r: String)
    requires
        from@.len() > 0,
    ensures
        r@ == spec_replace(s@, from@, to@),
{
    let v = to_chars(s);
    let f = to_chars(from);
    let t = to_chars(to);
    let mut out: Vec<char> = Vec::new();
    let mut i: usize = 0;
    proof {
        assert(v@.skip(0) =~= v@);
    }
    while i < v.len()
        invariant
            i <= v.len(),
            v@ == s@,
            f@ == from@,
            t@ == to@,
            f@.len() > 0,
            out@ + spec_replace(v@.skip(i as int), f@, t@) == spec_replace(s@, from@, to@),
        decreases v.len() - i,
    {
        let ghost rest = v@.skip(i as int);
        if matches_at(&v, &f, i) {
            proof {
                assert(rest.take(f@.len() as int) =~= v@.subrange(i as int, i + f@.len()));
                assert(rest.skip(f@.len() as int) =~= v@.skip(i + f@.len()));
            }
            extend_chars(&mut out, &t);
            i = i + f.len();
            proof {
                assert(out@ + spec_replace(v@.skip(i as int), f@, t@) =~= (out@.subrange(
                    0,
                    out@.len() - t@.len(),
                ) + t@) + spec_replace(v@.skip(i as int), f@, t@));
            }
        } else {
            proof {
                if rest.len() >= f@.len() {
                    assert(rest.take(f@.len() as int) =~= v@.subrange(i as int, i + f@.len()));
                }
                assert(rest.drop_first() =~= v@.skip(i + 1));
                assert(rest[0] == v@[i as int]);
            }
            out.push(v[i]);
            i = i + 1;
        }
    }
    proof {
        assert(v@.skip(i as int) =~= Seq::<char>::empty());
    }
    from_chars(&out)
}

/// Joins strings with a separator between each two.
pub fn join_strings(pieces: &Vec<String>, sep: &str) -> (r: String)
    ensures
        r@ == join(strs_view(pieces@), sep@),
{
    let ghost ps = strs_view(pieces@);
    let mut out: Vec<char> = Vec::new();
    let mut i: usize = 0;
    while i < pieces.len()
        invariant
            i <= pieces.len(),
            ps == strs_view(pieces@),
            out@ == join(ps.take(i as int), sep@),
        decreases pieces.len() - i,
    {
        proof {
            assert(ps.take(i + 1).drop_last() =~= ps.take(i as int));
            assert(ps.take(i + 1).last() == pieces@[i as int]@);
        }
        if i > 0 {
            push_str_chars(&mut out, sep);
        } else {
            proof {
                assert(ps.take(1) =~= seq![pieces@[0]@]);
            }
        }
        push_str_chars(&mut out, pieces[i].as_str());
        proof {
            if i > 0 {
                assert(out@ =~= join(ps.take(i as int), sep@) + sep@ + pieces@[i as int]@);
            }
        }
        i = i + 1;
    }
    proof {
        assert(ps.take(ps.len() as int) =~= ps);
    }
    from_chars(&out)
}

} // verus!
