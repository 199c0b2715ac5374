//! Quoted string and regex literals, with their escape grammar.
//!
//! A literal is delimited by a matched pair of `'`, `"` or (for regexes)
//! `/`.  Inside it, a backslash introduces either a named escape, a
//! `\u{…}` Unicode scalar escape, or a run of whitespace that is dropped
//! entirely.  The other quote character needs no escaping.

use vstd::prelude::*;

use crate::error::{CError, CErrorKind, PResult};
use crate::scan::{
    char_at, char_from_u32, chars_to_string, hex_digit_val, hex_digit_value, hex_val,
    lemma_hex_val_bound, lemma_hex_val_step, lemma_pow16_small, push_range, run_end, scan_class,
    CharClass,
};

verus! {

/// What a `\u{…}` escape denotes, with `pos` at the `u`: one to six hex
/// digits in braces naming a Unicode scalar value.
pub open spec fn spec_unicode_char(s: Seq<char>, pos: int) -> Option<(int, char)> {
    if pos < s.len() && s[pos] == 'u' && pos + 1 < s.len() && s[pos + 1] == '{' {
        let hstart = pos + 2;
        let full = run_end(s, hstart, CharClass::HexDigit);
        let e = if full > hstart + 6 {
            hstart + 6
        } else {
            full
        };
        if e > hstart && e < s.len() && s[e] == '}' {
            let v = hex_val(s.subrange(hstart, e));
            if vstd::utf8::is_scalar(v as u32) {
                Some((e + 1, (v as u32) as char))
            } else {
                None
            }
        } else {
            None
        }
    } else {
        None
    }
}

/// What an escape sequence denotes, with `pos` at the backslash: a Unicode
/// escape or one of the named single-character escapes.
pub open spec fn spec_escaped_char(s: Seq<char>, pos: int) -> Option<(int, char)> {
    if pos < s.len() && s[pos] == '\\' && pos + 1 < s.len() {
        let c = s[pos + 1];
        if c == 'u' {
            spec_unicode_char(s, pos + 1)
        } else if c == 'n' {
            Some((pos + 2, '\n'))
        } else if c == 'r' {
            Some((pos + 2, '\r'))
        } else if c == 't' {
            Some((pos + 2, '\t'))
        } else if c == 'b' {
            Some((pos + 2, '\u{08}'))
        } else if c == 'f' {
            Some((pos + 2, '\u{0C}'))
        } else if c == '\\' {
            Some((pos + 2, '\\'))
        } else if c == '/' {
            Some((pos + 2, '/'))
        } else if c == '"' {
            Some((pos + 2, '"'))
        } else if c == '\'' {
            Some((pos + 2, '\''))
        } else {
            None
        }
    } else {
        None
    }
}

/// The body of a quoted literal starting at `pos`: the position of the
/// first unconsumed character and the characters the body denotes.
///
/// Fragments are consumed until none matches: a non-empty run of plain
/// characters (class `cls`), an escape sequence, or a dropped
/// backslash-whitespace run.  The body itself never fails; the caller then
/// requires the closing delimiter.
pub open spec fn spec_string_body(s: Seq<char>, pos: int, cls: CharClass) -> (int, Seq<char>)
    recommends
        0 <= pos <= s.len(),
    decreases s.len() - pos,
{
    if pos < s.len() {
        let lit_end = run_end(s, pos, cls);
        if pos < lit_end <= s.len() {
            let rest = spec_string_body(s, lit_end, cls);
            (rest.0, s.subrange(pos, lit_end) + rest.1)
        } else if s[pos] == '\\' {
            match spec_escaped_char(s, pos) {
                Some((e, c)) => if pos < e <= s.len() {
                    let rest = spec_string_body(s, e, cls);
                    (rest.0, seq![c] + rest.1)
                } else {
                    (pos, Seq::<char>::empty())
                },
                None => {
                    let wse = run_end(s, pos + 1, CharClass::MultiSpace);
                    if pos + 1 < wse <= s.len() {
                        spec_string_body(s, wse, cls)
                    } else {
                        (pos, Seq::<char>::empty())
                    }
                },
            }
        } else {
            (pos, Seq::<char>::empty())
        }
    } else {
        (pos, Seq::<char>::empty())
    }
}

/// What a quoted literal denotes: the opening delimiter, the body, the
/// closing delimiter, and the characters the body stands for.
pub open spec fn spec_quoted_string(s: Seq<char>, pos: int, quote: char, cls: CharClass) -> Option<
    (int, Seq<char>),
> {
    if pos < s.len() && s[pos] == quote {
        let body = spec_string_body(s, pos + 1, cls);
        if body.0 < s.len() && s[body.0] == quote {
            Some((body.0 + 1, body.1))
        } else {
            None
        }
    } else {
        None
    }
}

/// What `string_value` returns: a single-quoted literal if one starts
/// here, otherwise a double-quoted literal.
pub open spec fn spec_string_value(s: Seq<char>, pos: int) -> Option<(int, Seq<char>)> {
    if spec_quoted_string(s, pos, '\'', CharClass::NotSingleQuote) is Some {
        spec_quoted_string(s, pos, '\'', CharClass::NotSingleQuote)
    } else {
        spec_quoted_string(s, pos, '"', CharClass::NotDoubleQuote)
    }
}

/// What `regex_value` returns: a `/`-delimited literal with the same
/// escape grammar.
pub open spec fn spec_regex_value(s: Seq<char>, pos: int) -> Option<(int, Seq<char>)> {
    spec_quoted_string(s, pos, '/', CharClass::NotSlash)
}

/// Parses a `\u{…}` escape (from its `u`) into the character it names.
pub fn unicode_char(input: &Vec<char>, pos: usize) -> (r: PResult<char>)
    requires
        pos <= input@.len(),
    ensures
        r matches Ok((np, c)) ==> spec_unicode_char(input@, pos as int) == Some((np as int, c))
            && pos < np <= input@.len(),
        r is Err ==> spec_unicode_char(input@, pos as int) is None,
        r matches Err(e) ==> e.labels@.len() >= 1,
{
    if char_at(input, pos, 'u') && char_at(input, pos + 1, '{') {
        let hstart = pos + 2;
        let full = scan_class(input, hstart, CharClass::HexDigit);
        let e = if full - hstart > 6 {
            hstart + 6
        } else {
            full
        };
        if e > hstart && char_at(input, e, '}') {
            proof {
                assert(input@.subrange(hstart as int, hstart as int) =~= Seq::<char>::empty());
            }
            let mut acc: u32 = 0;
            let mut i = hstart;
            while i < e
                invariant
                    hstart <= i <= e <= input@.len(),
                    e as int <= hstart as int + 6,
                    forall|k: int| hstart <= k < e ==> crate::scan::is_hex_digit(input@[k]),
                    acc as int == hex_val(input@.subrange(hstart as int, i as int)),
                decreases e - i,
            {
                proof {
                    lemma_hex_val_step(input@, hstart as int, i as int);
                    lemma_hex_val_bound(input@, hstart as int, i as int);
                    lemma_pow16_small(i as int - hstart as int);
                }
                let d = hex_digit_value(input[i]);
                acc = acc * 16 + d;
                i = i + 1;
            }
            match char_from_u32(acc) {
                Some(c) => {
                    proof {
                        vstd::utf8::char_u32_cast(c, acc);
                    }
                    Ok((e + 1, c))
                },
                None => Err(CError::new(CErrorKind::MalformedEscape, pos).label("UnicodeCharacter")),
            }
        } else {
            Err(CError::new(CErrorKind::MalformedEscape, pos).label("UnicodeCharacter"))
        }
    } else {
        Err(CError::new(CErrorKind::MalformedEscape, pos).label("UnicodeCharacter"))
    }
}

/// Parses an escape sequence (from its backslash) into the character it
/// denotes.
pub fn escaped_char(input: &Vec<char>, pos: usize) -> (r: PResult<char>)
    requires
        pos <= input@.len(),
    ensures
        r matches Ok((np, c)) ==> spec_escaped_char(input@, pos as int) == Some((np as int, c))
            && pos < np <= input@.len(),
        r is Err ==> spec_escaped_char(input@, pos as int) is None,
        r matches Err(e) ==> e.labels@.len() >= 1,
{
    if !char_at(input, pos, '\\') {
        return Err(CError::new(CErrorKind::MalformedEscape, pos).label("EscapedCharacter"));
    }
    if pos + 1 >= input.len() {
        return Err(CError::new(CErrorKind::UnexpectedEnd, pos).label("EscapedCharacter"));
    }
    let c = input[pos + 1];
    if c == 'u' {
        match unicode_char(input, pos + 1) {
            Ok(x) => Ok(x),
            Err(e) => Err(e.label("EscapedCharacter")),
        }
    } else if c == 'n' {
        Ok((pos + 2, '\n'))
    } else if c == 'r' {
        Ok((pos + 2, '\r'))
    } else if c == 't' {
        Ok((pos + 2, '\t'))
    } else if c == 'b' {
        Ok((pos + 2, '\u{08}'))
    } else if c == 'f' {
        Ok((pos + 2, '\u{0C}'))
    } else if c == '\\' {
        Ok((pos + 2, '\\'))
    } else if c == '/' {
        Ok((pos + 2, '/'))
    } else if c == '"' {
        Ok((pos + 2, '"'))
    } else if c == '\'' {
        Ok((pos + 2, '\''))
    } else {
        Err(CError::new(CErrorKind::MalformedEscape, pos).label("EscapedCharacter"))
    }
}

/// Consumes the body of a quoted literal, accumulating the characters it
/// denotes, and stops at the first position where no fragment matches.
fn string_body(input: &Vec<char>, pos: usize, cls: CharClass) -> (r: (usize, Vec<char>))
    requires
        pos <= input@.len(),
    ensures
        r.0 as int == spec_string_body(input@, pos as int, cls).0,
        r.1@ == spec_string_body(input@, pos as int, cls).1,
        pos <= r.0 <= input@.len(),
{
    let ghost s = input@;
    let ghost goal = spec_string_body(s, pos as int, cls);
    let mut out: Vec<char> = Vec::new();
    let mut i = pos;
    proof {
        assert(out@ + goal.1 =~= goal.1);
    }
    loop
        invariant
            pos <= i <= s.len(),
            s == input@,
            goal == spec_string_body(s, pos as int, cls),
            goal.0 == spec_string_body(s, i as int, cls).0,
            goal.1 == out@ + spec_string_body(s, i as int, cls).1,
        ensures
            pos <= i <= s.len(),
            goal.0 == i as int,
            goal.1 == out@,
        decreases s.len() - i,
    {
        let ghost sp_i = spec_string_body(s, i as int, cls);
        if i >= input.len() {
            proof {
                assert(out@ + sp_i.1 =~= out@);
            }
            break ;
        }
        let lit_end = scan_class(input, i, cls);
        if lit_end > i {
            proof {
                let rest = spec_string_body(s, lit_end as int, cls);
                assert(sp_i.1 == s.subrange(i as int, lit_end as int) + rest.1);
                assert((out@ + s.subrange(i as int, lit_end as int)) + rest.1 =~= out@ + (
                s.subrange(i as int, lit_end as int) + rest.1));
            }
            push_range(&mut out, input, i, lit_end);
            i = lit_end;
        } else if char_at(input, i, '\\') {
            match escaped_char(input, i) {
                Ok((e, c)) => {
                    proof {
                        let rest = spec_string_body(s, e as int, cls);
                        assert(sp_i.1 == seq![c] + rest.1);
                        assert(out@.push(c) =~= out@ + seq![c]);
                        assert((out@ + seq![c]) + rest.1 =~= out@ + (seq![c] + rest.1));
                    }
                    out.push(c);
                    i = e;
                },
                Err(_) => {
                    let wse = scan_class(input, i + 1, CharClass::MultiSpace);
                    if wse > i + 1 {
                        i = wse;
                    } else {
                        proof {
                            assert(out@ + sp_i.1 =~= out@);
                        }
                        break ;
                    }
                },
            }
        } else {
            proof {
                assert(out@ + sp_i.1 =~= out@);
            }
            break ;
        }
    }
    (i, out)
}

/// Parses a literal delimited by `quote`, whose body scans runs of class
/// `cls`, into the characters it denotes.
fn quoted(input: &Vec<char>, pos: usize, quote: char, cls: CharClass) -> (r: PResult<String>)
    requires
        pos <= input@.len(),
    ensures
        r matches Ok((np, v)) ==> spec_quoted_string(input@, pos as int, quote, cls) == Some(
            (np as int, v@),
        ) && pos < np <= input@.len(),
        r is Err ==> spec_quoted_string(input@, pos as int, quote, cls) is None,
{
    if char_at(input, pos, quote) {
        let (e, content) = string_body(input, pos + 1, cls);
        if char_at(input, e, quote) {
            let v = chars_to_string(&content);
            Ok((e + 1, v))
        } else {
            Err(CError::new(CErrorKind::ExpectedLiteral, e))
        }
    } else {
        Err(CError::new(CErrorKind::ExpectedLiteral, pos))
    }
}

/// Parses a quoted string literal, single- or double-quoted, into the
/// string it denotes.
pub fn string_value(input: &Vec<char>, pos: usize) -> (r: PResult<String>)
    requires
        pos <= input@.len(),
    ensures
        r matches Ok((np, v)) ==> spec_string_value(input@, pos as int) == Some((np as int, v@))
            && pos < np <= input@.len(),
        r is Err ==> spec_string_value(input@, pos as int) is None,
        r matches Err(e) ==> e.labels@.len() >= 1,
{
    match quoted(input, pos, '\'', CharClass::NotSingleQuote) {
        Ok(r) => Ok(r),
        Err(e1) => match quoted(input, pos, '"', CharClass::NotDoubleQuote) {
            Ok(r) => Ok(r),
            Err(e2) => Err(e1.deeper(e2).label("String")),
        },
    }
}

/// Parses a `/`-delimited regex literal into the pattern it denotes.
pub fn regex_value(input: &Vec<char>, pos: usize) -> (r: PResult<String>)
    requires
        pos <= input@.len(),
    ensures
        r matches Ok((np, v)) ==> spec_regex_value(input@, pos as int) == Some((np as int, v@))
            && pos < np <= input@.len(),
        r is Err ==> spec_regex_value(input@, pos as int) is None,
        r matches Err(e) ==> e.labels@.len() >= 1,
{
    match quoted(input, pos, '/', CharClass::NotSlash) {
        Ok(r) => Ok(r),
        Err(e) => Err(e.label("RegexString")),
    }
}

} // verus!
