//! Character-level scanning primitives shared by every grammar rule:
//! character classes, maximal runs, literal matching, digit-sequence
//! values, and conversions between `&str`, `Vec<char>` and `String`.

use vstd::prelude::*;

verus! {

/// The character classes the grammar scans runs of.
///
/// The `Not…` classes describe the unescaped span of a quoted literal: any
/// character other than the closing delimiter and the backslash.
#[derive(Debug, Clone, Copy, PartialEq, Eq)]
pub enum CharClass {
    /// ASCII letter.
    Letter,
    /// ASCII decimal digit.
    Digit,
    /// ASCII letter or decimal digit.
    Alnum,
    /// Space or tab.
    Space,
    /// Space, tab, carriage return or line feed.
    MultiSpace,
    /// ASCII hexadecimal digit.
    HexDigit,
    /// Character allowed in a pre-release label: letter, digit, dot or hyphen.
    PreRelease,
    /// Any character except a single quote or a backslash.
    NotSingleQuote,
    /// Any character except a double quote or a backslash.
    NotDoubleQuote,
    /// Any character except a forward slash or a backslash.
    NotSlash,
}

/// An ASCII letter.
pub open spec fn is_letter(c: char) -> bool {
    (97 <= c as u32 && c as u32 <= 122) || (65 <= c as u32 && c as u32 <= 90)
}

/// An ASCII decimal digit.
pub open spec fn is_digit(c: char) -> bool {
    48 <= c as u32 && c as u32 <= 57
}

/// Space or tab, the whitespace allowed inside a line.
pub open spec fn is_space(c: char) -> bool {
    c == ' ' || c == '\t'
}

/// Any whitespace, including line terminators.
pub open spec fn is_multispace(c: char) -> bool {
    c == ' ' || c == '\t' || c == '\r' || c == '\n'
}

/// An ASCII hexadecimal digit.
pub open spec fn is_hex_digit(c: char) -> bool {
    is_digit(c) || (97 <= c as u32 && c as u32 <= 102) || (65 <= c as u32 && c as u32 <= 70)
}

/// A character allowed in the body of a pre-release label.
pub open spec fn is_pre_release_char(c: char) -> bool {
    is_letter(c) || is_digit(c) || c == '.' || c == '-'
}

/// Membership of a character in one of the scanned classes.
pub open spec fn in_class(cls: CharClass, c: char) -> bool {
    match cls {
        CharClass::Letter => is_letter(c),
        CharClass::Digit => is_digit(c),
        CharClass::Alnum => is_letter(c) || is_digit(c),
        CharClass::Space => is_space(c),
        CharClass::MultiSpace => is_multispace(c),
        CharClass::HexDigit => is_hex_digit(c),
        CharClass::PreRelease => is_pre_release_char(c),
        CharClass::NotSingleQuote => c != '\'' && c != '\\',
        CharClass::NotDoubleQuote => c != '"' && c != '\\',
        CharClass::NotSlash => c != '/' && c != '\\',
    }
}

/// Decides membership of a character in a class.
pub fn char_in_class(cls: CharClass, c: char) -> (b: bool)
    ensures
        b == in_class(cls, c),
{
    let u = c as u32;
    match cls {
        CharClass::Letter => (97 <= u && u <= 122) || (65 <= u && u <= 90),
        CharClass::Digit => 48 <= u && u <= 57,
        CharClass::Alnum => (97 <= u && u <= 122) || (65 <= u && u <= 90) || (48 <= u && u <= 57),
        CharClass::Space => c == ' ' || c == '\t',
        CharClass::MultiSpace => c == ' ' || c == '\t' || c == '\r' || c == '\n',
        CharClass::HexDigit => (48 <= u && u <= 57) || (97 <= u && u <= 102) || (65 <= u && u
            <= 70),
        CharClass::PreRelease => (97 <= u && u <= 122) || (65 <= u && u <= 90) || (48 <= u && u
            <= 57) || c == '.' || c == '-',
        CharClass::NotSingleQuote => c != '\'' && c != '\\',
        CharClass::NotDoubleQuote => c != '"' && c != '\\',
        CharClass::NotSlash => c != '/' && c != '\\',
    }
}

/// The end of the maximal run of characters of class `cls` starting at `pos`.
pub open spec fn run_end(s: Seq<char>, pos: int, cls: CharClass) -> int
    recommends
        0 <= pos <= s.len(),
    decreases s.len() - pos,
{
    if pos < s.len() && in_class(cls, s[pos]) {
        run_end(s, pos + 1, cls)
    } else {
        pos
    }
}

/// A maximal run starts at its own start and ends within the input.
pub proof fn lemma_run_end_bounds(s: Seq<char>, cls: CharClass, p: int)
    requires
        0 <= p <= s.len(),
    ensures
        p <= run_end(s, p, cls) <= s.len(),
    decreases s.len() - p,
{
    if p < s.len() && in_class(cls, s[p]) {
        lemma_run_end_bounds(s, cls, p + 1);
    }
}

/// A maximal run is exactly the span whose characters are all in the class
/// and that is ended by the input or by a character outside the class.
pub proof fn lemma_run_end(s: Seq<char>, cls: CharClass, p: int, q: int)
    requires
        0 <= p <= q <= s.len(),
        forall|k: int| p <= k < q ==> in_class(cls, s[k]),
        q == s.len() || !in_class(cls, s[q]),
    ensures
        run_end(s, p, cls) == q,
    decreases q - p,
{
    if p < q {
        lemma_run_end(s, cls, p + 1, q);
    }
}

/// Scans the maximal run of characters of class `cls` starting at `pos`.
pub fn scan_class(input: &Vec<char>, pos: usize, cls: CharClass) -> (end: usize)
    requires
        pos <= input@.len(),
    ensures
        end as int == run_end(input@, pos as int, cls),
        pos <= end <= input@.len(),
        forall|k: int| pos <= k < end ==> in_class(cls, input@[k]),
        end < input@.len() ==> !in_class(cls, input@[end as int]),
{
    let mut i = pos;
    while i < input.len() && char_in_class(cls, input[i])
        invariant
            pos <= i <= input@.len(),
            forall|k: int| pos <= k < i ==> in_class(cls, input@[k]),
        decreases input@.len() - i,
    {
        i = i + 1;
    }
    proof {
        lemma_run_end(input@, cls, pos as int, i as int);
    }
    i
}

/// The literal `t` occurs in `s` at position `pos`.
pub open spec fn tag_at(s: Seq<char>, pos: int, t: Seq<char>) -> bool {
    &&& 0 <= pos
    &&& pos + t.len() <= s.len()
    &&& forall|k: int| 0 <= k < t.len() ==> s[pos + k] == t[k]
}

/// Matches the literal `t` at `pos`, returning the position after it.
pub fn tag(input: &Vec<char>, pos: usize, t: &str) -> (r: Option<usize>)
    requires
        pos <= input@.len(),
    ensures
        r matches Some(np) ==> tag_at(input@, pos as int, t@) && np as int == pos + t@.len(),
        r is None ==> !tag_at(input@, pos as int, t@),
{
    let tl = t.unicode_len();
    if input.len() - pos < tl {
        return None;
    }
    let stop = pos + tl;
    let mut i: usize = 0;
    while i < tl
        invariant
            0 <= i <= tl,
            tl as int == t@.len(),
            stop == pos + tl,
            stop <= input@.len(),
            forall|k: int| 0 <= k < i ==> input@[pos + k] == t@[k],
        decreases tl - i,
    {
        if t.get_char(i) != input[pos + i] {
            return None;
        }
        i = i + 1;
    }
    Some(stop)
}

/// The ASCII-lowercase code of a character.
pub open spec fn lower_code(c: char) -> int {
    if 65 <= c as u32 && c as u32 <= 90 {
        c as u32 + 32
    } else {
        c as u32 as int
    }
}

/// The literal `t` occurs at `pos`, compared ASCII-case-insensitively.
pub open spec fn tag_nocase_at(s: Seq<char>, pos: int, t: Seq<char>) -> bool {
    &&& 0 <= pos
    &&& pos + t.len() <= s.len()
    &&& forall|k: int| 0 <= k < t.len() ==> lower_code(s[pos + k]) == lower_code(t[k])
}

/// Matches the literal `t` at `pos` ignoring ASCII case.
pub fn tag_nocase(input: &Vec<char>, pos: usize, t: &str) -> (r: Option<usize>)
    requires
        pos <= input@.len(),
    ensures
        r matches Some(np) ==> tag_nocase_at(input@, pos as int, t@) && np as int == pos
            + t@.len(),
        r is None ==> !tag_nocase_at(input@, pos as int, t@),
{
    let tl = t.unicode_len();
    if input.len() - pos < tl {
        return None;
    }
    let stop = pos + tl;
    let mut i: usize = 0;
    while i < tl
        invariant
            0 <= i <= tl,
            tl as int == t@.len(),
            stop == pos + tl,
            stop <= input@.len(),
            forall|k: int| 0 <= k < i ==> lower_code(input@[pos + k]) == lower_code(t@[k]),
        decreases tl - i,
    {
        let a = t.get_char(i) as u32;
        let b = input[pos + i] as u32;
        let la = if 65 <= a && a <= 90 {
            a + 32
        } else {
            a
        };
        let lb = if 65 <= b && b <= 90 {
            b + 32
        } else {
            b
        };
        if la != lb {
            return None;
        }
        i = i + 1;
    }
    Some(stop)
}

/// The numeric value of a decimal digit.
pub open spec fn digit_val(c: char) -> int
    recommends
        is_digit(c),
{
    c as u32 - 48
}

/// The value of a sequence of decimal digits, most significant first.
pub open spec fn digits_val(s: Seq<char>) -> int
    decreases s.len(),
{
    if s.len() == 0 {
        0
    } else {
        digits_val(s.drop_last()) * 10 + digit_val(s.last())
    }
}

/// The numeric value of a hexadecimal digit.
pub open spec fn hex_digit_val(c: char) -> int
    recommends
        is_hex_digit(c),
{
    if 48 <= c as u32 && c as u32 <= 57 {
        c as u32 - 48
    } else if 97 <= c as u32 && c as u32 <= 102 {
        c as u32 - 87
    } else {
        c as u32 - 55
    }
}

/// The value of a sequence of hexadecimal digits, most significant first.
pub open spec fn hex_val(s: Seq<char>) -> int
    decreases s.len(),
{
    if s.len() == 0 {
        0
    } else {
        hex_val(s.drop_last()) * 16 + hex_digit_val(s.last())
    }
}

/// Sixteen to the power `k`, for bounding hexadecimal values.
pub open spec fn pow16(k: int) -> int
    decreases k,
{
    if k <= 0 {
        1
    } else {
        16 * pow16(k - 1)
    }
}

/// The value of a span of hexadecimal digits is bounded by sixteen to the
/// power of its length.
pub proof fn lemma_hex_val_bound(s: Seq<char>, p: int, q: int)
    requires
        0 <= p <= q <= s.len(),
        forall|k: int| p <= k < q ==> is_hex_digit(s[k]),
    ensures
        0 <= hex_val(s.subrange(p, q)) < pow16(q - p),
    decreases q - p,
{
    if p == q {
        assert(s.subrange(p, p) =~= Seq::<char>::empty());
    } else {
        lemma_hex_val_step(s, p, q - 1);
        lemma_hex_val_bound(s, p, q - 1);
    }
}

/// Extending a digit span one character to the right multiplies its value
/// by ten and adds the new digit.
pub proof fn lemma_digits_val_step(s: Seq<char>, p: int, i: int)
    requires
        0 <= p <= i < s.len(),
    ensures
        digits_val(s.subrange(p, i + 1)) == digits_val(s.subrange(p, i)) * 10 + digit_val(s[i]),
{
    let whole = s.subrange(p, i + 1);
    assert(whole.drop_last() =~= s.subrange(p, i));
    assert(whole.last() == s[i]);
}

/// Same step fact for hexadecimal digit spans.
pub proof fn lemma_hex_val_step(s: Seq<char>, p: int, i: int)
    requires
        0 <= p <= i < s.len(),
    ensures
        hex_val(s.subrange(p, i + 1)) == hex_val(s.subrange(p, i)) * 16 + hex_digit_val(s[i]),
{
    let whole = s.subrange(p, i + 1);
    assert(whole.drop_last() =~= s.subrange(p, i));
    assert(whole.last() == s[i]);
}

/// The value of a run of decimal digits is non-negative.
pub proof fn lemma_digits_val_nonneg(s: Seq<char>, p: int, q: int)
    requires
        0 <= p <= q <= s.len(),
        forall|k: int| p <= k < q ==> is_digit(s[k]),
    ensures
        0 <= digits_val(s.subrange(p, q)),
    decreases q - p,
{
    if p == q {
        assert(s.subrange(p, p) =~= Seq::<char>::empty());
    } else {
        lemma_digits_val_step(s, p, q - 1);
        lemma_digits_val_nonneg(s, p, q - 1);
    }
}

/// The value of a run of decimal digits grows with the length of the run.
pub proof fn lemma_digits_val_mono(s: Seq<char>, p: int, i: int, q: int)
    requires
        0 <= p <= i <= q <= s.len(),
        forall|k: int| p <= k < q ==> is_digit(s[k]),
    ensures
        0 <= digits_val(s.subrange(p, i)) <= digits_val(s.subrange(p, q)),
    decreases q - i,
{
    lemma_digits_val_nonneg(s, p, i);
    if i < q {
        lemma_digits_val_step(s, p, i);
        lemma_digits_val_mono(s, p, i + 1, q);
    }
}

/// Tests whether the character at `pos` is `c` (false at the end of input).
pub fn char_at(input: &Vec<char>, pos: usize, c: char) -> (b: bool)
    requires
        pos <= input@.len(),
    ensures
        b == (pos < input@.len() && input@[pos as int] == c),
        b ==> pos < usize::MAX,
{
    pos < input.len() && input[pos] == c
}

/// Folds the digits of `input[start..end]` into their decimal value,
/// reporting failure as soon as the value would exceed `limit`.
pub fn accumulate_decimal(input: &Vec<char>, start: usize, end: usize, limit: u128) -> (r: Option<
    u128,
>)
    requires
        start <= end <= input@.len(),
        forall|k: int| start <= k < end ==> is_digit(input@[k]),
    ensures
        r matches Some(v) ==> v as int == digits_val(
            input@.subrange(start as int, end as int),
        ) && v <= limit,
        r is None ==> digits_val(input@.subrange(start as int, end as int)) > limit,
{
    let q = limit / 10;
    let rm = limit % 10;
    proof {
        vstd::arithmetic::div_mod::lemma_fundamental_div_mod(limit as int, 10);
        assert(input@.subrange(start as int, start as int) =~= Seq::<char>::empty());
    }
    let mut acc: u128 = 0;
    let mut i = start;
    while i < end
        invariant
            start <= i <= end <= input@.len(),
            forall|k: int| start <= k < end ==> is_digit(input@[k]),
            acc as int == digits_val(input@.subrange(start as int, i as int)),
            acc <= limit,
            q == limit / 10,
            rm == limit % 10,
            limit as int == q as int * 10 + rm as int,
            rm < 10,
        decreases end - i,
    {
        let d = (input[i] as u32 - 48) as u128;
        proof {
            lemma_digits_val_step(input@, start as int, i as int);
        }
        if acc > q || (acc == q && d > rm) {
            proof {
                lemma_digits_val_mono(input@, start as int, i as int + 1, end as int);
            }
            return None;
        }
        acc = acc * 10 + d;
        i = i + 1;
    }
    Some(acc)
}

/// The characters of a string slice, in order.
pub fn to_chars(s: &str) -> (r: Vec<char>)
    ensures
        r@ == s@,
{
    let n = s.unicode_len();
    let mut v: Vec<char> = Vec::new();
    let mut i: usize = 0;
    while i < n
        invariant
            0 <= i <= n,
            n as int == s@.len(),
            v@ =~= s@.subrange(0, i as int),
        decreases n - i,
    {
        v.push(s.get_char(i));
        i = i + 1;
    }
    proof {
        assert(v@ =~= s@);
    }
    v
}

/// Relies on std's `FromIterator` implementation for `String`: collecting
/// an iterator over `char`s yields the string of exactly those characters,
/// in order.
#[verifier::external_body]
pub fn chars_to_string(v: &Vec<char>) -> (s: String)
    ensures
        s@ == v@,
{
    v.iter().collect()
}

/// Copies the span `[from, to)` of the input into a `String`.
pub fn sub_string(input: &Vec<char>, from: usize, to: usize) -> (s: String)
    requires
        from <= to <= input@.len(),
    ensures
        s@ == input@.subrange(from as int, to as int),
{
    let mut v: Vec<char> = Vec::new();
    let mut i = from;
    while i < to
        invariant
            from <= i <= to <= input@.len(),
            v@ =~= input@.subrange(from as int, i as int),
        decreases to - i,
    {
        v.push(input[i]);
        i = i + 1;
        proof {
            assert(v@ =~= input@.subrange(from as int, i as int));
        }
    }
    chars_to_string(&v)
}

/// Sixteen to any power up to five stays below `0x100000`.
pub proof fn lemma_pow16_small(k: int)
    requires
        0 <= k <= 5,
    ensures
        pow16(k) <= 0x100000,
{
    assert(pow16(0) == 1);
    assert(pow16(1) == 16);
    assert(pow16(2) == 256);
    assert(pow16(3) == 4096);
    assert(pow16(4) == 65536);
    assert(pow16(5) == 1048576);
    if k == 0 {
    } else if k == 1 {
    } else if k == 2 {
    } else if k == 3 {
    } else if k == 4 {
    } else {
    }
}

/// The numeric value of a hexadecimal digit, executably.
pub fn hex_digit_value(c: char) -> (v: u32)
    requires
        is_hex_digit(c),
    ensures
        v as int == hex_digit_val(c),
        v < 16,
{
    let u = c as u32;
    if u >= 97 {
        u - 87
    } else if u >= 65 {
        u - 55
    } else {
        u - 48
    }
}

/// Appends the span `[from, to)` of the input to `out`.
pub fn push_range(out: &mut Vec<char>, input: &Vec<char>, from: usize, to: usize)
    requires
        from <= to <= input@.len(),
    ensures
        final(out)@ == old(out)@ + input@.subrange(from as int, to as int),
{
    let mut i = from;
    while i < to
        invariant
            from <= i <= to <= input@.len(),
            out@ =~= old(out)@ + input@.subrange(from as int, i as int),
        decreases to - i,
    {
        out.push(input[i]);
        i = i + 1;
        proof {
            assert(out@ =~= old(out)@ + input@.subrange(from as int, i as int));
        }
    }
    proof {
        assert(out@ =~= old(out)@ + input@.subrange(from as int, to as int));
    }
}

/// Relies on std's `char::from_u32`: it returns `Some` exactly for Unicode
/// scalar values (codes at most 0x10FFFF that are not surrogates), and the
/// returned character has the given code.
#[verifier::external_body]
pub fn char_from_u32(v: u32) -> (r: Option<char>)
    ensures
        r is Some <==> vstd::utf8::is_scalar(v),
        r matches Some(c) ==> c as u32 == v,
{
    char::from_u32(v)
}

} // verus!
