//! Editing of single-line form fields: the keys a field reacts to, what a key
//! does to the field's text, and the number fields that step by one and ten.
use crate::text::{decimal, to_chars, u64_to_string};
use vstd::prelude::*;

verus! {

/// A key as a form field sees it.  `Char` is any other character key,
/// whatever its modifiers; the four control chords are told apart.
#[derive(Clone, Copy, PartialEq, Eq, Debug, Structural)]
pub enum FieldKey {
    Tab,
    BackTab,
    Esc,
    Enter,
    CtrlC,
    CtrlM,
    CtrlA,
    CtrlZ,
    CtrlY,
    Backspace,
    Left,
    Right,
    Up,
    Down,
    Char(char),
    Other,
}

/// What to do to the text area of the field being edited.
#[derive(Debug, PartialEq, Eq)]
pub enum TextEdit {
    /// Leave it as it is.
    Keep,
    /// Drop the current selection.
    CancelSelection,
    /// Select the whole text.
    SelectAll,
    Undo,
    Redo,
    /// Hand the key to the text area.
    Input,
    /// Hand the key to the text area, then pass its first line through the
    /// field's number normalisation.
    InputThenNormalize,
    /// Replace the text with the given one.
    Replace(String),
}

/// Whether every character is an ASCII digit.
pub open spec fn all_digits(s: Seq<char>) -> bool {
    forall|i: int| 0 <= i < s.len() ==> '0' <= #[trigger] s[i] <= '9'
}

/// The number that a run of decimal digits spells.
pub open spec fn digits_value(s: Seq<char>) -> nat
    decreases s.len(),
{
    if s.len() == 0 {
        0
    } else {
        digits_value(s.drop_last()) * 10 + (s.last() as nat - '0' as nat) as nat
    }
}

/// What `str::parse` makes of a text as an unsigned number of unbounded
/// width: an optional `+`, then one or more ASCII digits.
pub open spec fn spec_parse_unsigned(s: Seq<char>) -> Option<nat> {
    let body = if s.len() > 0 && s[0] == '+' {
        s.drop_first()
    } else {
        s
    };
    if body.len() > 0 && all_digits(body) {
        Some(digits_value(body))
    } else {
        None
    }
}

/// What `str::parse` gives for an unsigned type whose largest value is `max`.
pub open spec fn spec_parse_bounded(s: Seq<char>, max: nat) -> Option<nat> {
    match spec_parse_unsigned(s) {
        Some(v) => if v <= max {
            Some(v)
        } else {
            None
        },
        None => None,
    }
}

/// The parsed number, or zero where the text is no number of that type.
pub open spec fn parse_or_zero(s: Seq<char>, max: nat) -> nat {
    match spec_parse_bounded(s, max) {
        Some(v) => v,
        None => 0,
    }
}

proof fn lemma_digits_grow(s: Seq<char>, c: char)
    requires
        '0' <= c <= '9',
    ensures
        digits_value(s.push(c)) >= digits_value(s),
        digits_value(s.push(c)) == digits_value(s) * 10 + (c as nat - '0' as nat),
{
    assert(s.push(c).drop_last() == s);
}

proof fn lemma_digit_char(d: nat)
    requires
        d < 10,
    ensures
        '0' <= crate::text::digit_char(d) <= '9',
        crate::text::digit_char(d) as nat - '0' as nat == d,
{
    assert('0' as nat == 48);
    if d == 0 { assert('0' as nat == 48); }
    else if d == 1 { assert('1' as nat == 49); }
    else if d == 2 { assert('2' as nat == 50); }
    else if d == 3 { assert('3' as nat == 51); }
    else if d == 4 { assert('4' as nat == 52); }
    else if d == 5 { assert('5' as nat == 53); }
    else if d == 6 { assert('6' as nat == 54); }
    else if d == 7 { assert('7' as nat == 55); }
    else if d == 8 { assert('8' as nat == 56); }
    else { assert('9' as nat == 57); }
}

/// A number's decimal text is one or more digits that spell the number.
pub proof fn lemma_decimal_digits(n: nat)
    ensures
        decimal(n).len() > 0,
        all_digits(decimal(n)),
        digits_value(decimal(n)) == n,
    decreases n,
{
    if n < 10 {
        let s = decimal(n);
        assert(s == seq![crate::text::digit_char(n)]);
        assert(s.drop_last() =~= Seq::<char>::empty());
        lemma_digit_char(n);
        assert(s.last() == crate::text::digit_char(n));
        assert(digits_value(s.drop_last()) == 0);
        assert(digits_value(s) == digits_value(s.drop_last()) * 10 + (s.last() as nat - '0' as nat) as nat);
    } else {
        lemma_decimal_digits(n / 10);
        lemma_digit_char(n % 10);
        let s = decimal(n);
        let d = crate::text::digit_char(n % 10);
        assert(s == decimal(n / 10).push(d));
        assert(s.drop_last() =~= decimal(n / 10));
        assert(forall|i: int| 0 <= i < s.len() ==> '0' <= #[trigger] s[i] <= '9') by {
            assert forall|i: int| 0 <= i < s.len() implies '0' <= #[trigger] s[i] <= '9' by {
                if i < s.len() - 1 {
                    assert(s[i] == decimal(n / 10)[i]);
                }
            }
        }
        assert(s.last() == d);
        assert(digits_value(s) == digits_value(s.drop_last()) * 10 + (s.last() as nat - '0' as nat) as nat);
        assert((n / 10) * 10 + n % 10 == n) by (nonlinear_arith);
    }
}

/// Reading a number's decimal rendering gives the number back.
pub proof fn lemma_parse_decimal(n: nat, max: nat)
    requires
        n <= max,
    ensures
        spec_parse_unsigned(decimal(n)) == Some(n),
        spec_parse_bounded(decimal(n), max) == Some(n),
{
    lemma_decimal_digits(n);
    assert(decimal(n)[0] != '+');
}

/// Parses an unsigned decimal number no larger than `max`, as `str::parse`
/// does for the unsigned type whose largest value is `max`.
pub fn parse_unsigned(s: &str, max: u64) -> (r: Option<u64>)
    ensures
        r matches Some(v) ==> spec_parse_bounded(s@, max as nat) == Some(v as nat),
        r is None ==> spec_parse_bounded(s@, max as nat) is None,
{
    let chars = to_chars(s);
    let n = chars.len();
    let start: usize = if n > 0 && chars[0] == '+' {
        1
    } else {
        0
    };
    let ghost body: Seq<char> = chars@.subrange(start as int, n as int);
    proof {
        if n > 0 && chars@[0] == '+' {
            assert(body =~= s@.drop_first());
        } else {
            assert(body =~= s@);
        }
    }
    if start >= n {
        return None;
    }
    let mut acc: u64 = 0;
    let mut over = false;
    let mut ok = true;
    let mut i = start;
    while i < n
        invariant
            start <= i <= n,
            n == chars@.len(),
            body == chars@.subrange(start as int, n as int),
            ok == all_digits(chars@.subrange(start as int, i as int)),
            ok && !over ==> acc as nat == digits_value(chars@.subrange(start as int, i as int)),
            ok && !over ==> acc <= max,
            ok && over ==> digits_value(chars@.subrange(start as int, i as int)) > max,
        decreases n - i,
    {
        let c = chars[i];
        let ghost pre = chars@.subrange(start as int, i as int);
        proof {
            assert(chars@.subrange(start as int, i + 1) == pre.push(c));
        }
        let is_digit = '0' <= c && c <= '9';
        if ok && is_digit {
            let d: u64 = (c as u64) - ('0' as u64);
            proof {
                lemma_digits_grow(pre, c);
            }
            if !over {
                if d > max || acc > (max - d) / 10 {
                    over = true;
                    proof {
                        assert(acc * 10 + d > max) by (nonlinear_arith)
                            requires
                                d > max || acc > (max - d) / 10,
                                d <= 9,
                        ;
                    }
                } else {
                    proof {
                        assert(acc * 10 + d <= max) by (nonlinear_arith)
                            requires
                                d <= max,
                                acc <= (max - d) / 10,
                        ;
                    }
                    acc = acc * 10 + d;
                }
            }
        }
        proof {
            if !is_digit {
                assert(!all_digits(pre.push(c))) by {
                    assert(pre.push(c)[pre.len() as int] == c);
                }
            }
            if is_digit && all_digits(pre) {
                assert(all_digits(pre.push(c)));
            }
            if !all_digits(pre) {
                assert(!all_digits(pre.push(c))) by {
                    let j = choose|j: int| 0 <= j < pre.len() && !('0' <= #[trigger] pre[j] <= '9');
                    assert(pre.push(c)[j] == pre[j]);
                }
            }
        }
        ok = ok && is_digit;
        i = i + 1;
    }
    if ok && !over {
        Some(acc)
    } else {
        None
    }
}

/// `char::is_numeric`: whether the character is in one of Unicode's number
/// categories.
pub uninterp spec fn spec_is_numeric(c: char) -> bool;

/// Whether a character is numeric (`char::is_numeric`).  Among ASCII
/// characters exactly the ten digits are numeric.
#[verifier::external_body]
pub fn is_numeric(c: char) -> (r: bool)
    ensures
        r == spec_is_numeric(c),
        (c as u32) < 128 ==> (r <==> '0' <= c <= '9'),
{
    c.is_numeric()
}

/// The number a step key makes of `v`, which stays within `0..=max`: left
/// and down subtract one and `big`, right and up add them, saturating.
pub open spec fn stepped(v: nat, key: FieldKey, max: nat, big: nat) -> nat {
    match key {
        FieldKey::Left => if v >= 1 { (v - 1) as nat } else { 0 },
        FieldKey::Right => if v + 1 <= max { v + 1 } else { max },
        FieldKey::Down => if v >= big { (v - big) as nat } else { 0 },
        FieldKey::Up => if v + big <= max { v + big } else { max },
        _ => v,
    }
}

/// Whether a key steps a number field.
pub open spec fn is_step_key(key: FieldKey) -> bool {
    key is Left || key is Right || key is Down || key is Up
}

/// The text of a number field after a key that is no character key: an
/// arrow steps the number (a text that is no number counts as zero); any
/// other key leaves the text as it was.
pub open spec fn spec_step_text(line: Seq<char>, key: FieldKey, max: nat, big: nat) -> Seq<char> {
    if is_step_key(key) {
        decimal(stepped(parse_or_zero(line, max), key, max, big))
    } else {
        line
    }
}

/// The text of a number field after a key that is no character key.
pub fn step_text(line: &str, key: FieldKey, max: u64, big: u64) -> (r: String)
    ensures
        r@ == spec_step_text(line@, key, max as nat, big as nat),
{
    match key {
        FieldKey::Left | FieldKey::Right | FieldKey::Down | FieldKey::Up => {
            let v: u64 = match parse_unsigned(line, max) {
                Some(v) => v,
                None => 0,
            };
            let w: u64 = match key {
                FieldKey::Left => if v >= 1 { v - 1 } else { 0 },
                FieldKey::Right => if v < max { v + 1 } else { max },
                FieldKey::Down => if v >= big { v - big } else { 0 },
                _ => if max >= big && v <= max - big { v + big } else { max },
            };
            u64_to_string(w)
        },
        _ => line.to_string(),
    }
}

} // verus!
