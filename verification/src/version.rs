//! Semantic versions: `major`, `major.minor` or `major.minor.patch`, with
//! an optional pre-release label constrained by the leading-zero rule.

use vstd::prelude::*;

use crate::error::{CError, CErrorKind, PResult};
use crate::numeric::{spec_u128_value, u128_value};
use crate::scan::{char_at, is_pre_release_char, run_end, scan_class, sub_string, CharClass};

verus! {

/// A three-component version number; components omitted in the source
/// default to zero.
#[derive(Debug, PartialEq, Eq, Structural, Clone, Copy)]
pub struct VersionNumber {
    /// First component.
    pub major: u128,
    /// Second component; zero when omitted.
    pub minor: u128,
    /// Third component; zero when omitted.
    pub patch: u128,
}

impl VersionNumber {
    /// Builds a version number from its three components.
    pub fn new(major: u128, minor: u128, patch: u128) -> (r: VersionNumber)
        ensures
            r.major == major && r.minor == minor && r.patch == patch,
    {
        VersionNumber { major, minor, patch }
    }
}

/// A version number together with an optional pre-release label.
#[derive(Debug, PartialEq, Eq, Clone)]
pub enum SemanticVersion {
    /// A version without a pre-release label.
    Version(VersionNumber),
    /// A version with a pre-release label.
    VersionWithRelease(VersionNumber, String),
}

/// The mathematical value of a [`SemanticVersion`].
pub ghost enum SemanticVersionV {
    /// A version without a pre-release label.
    Version(VersionNumber),
    /// A version whose pre-release label is the given character sequence.
    VersionWithRelease(VersionNumber, Seq<char>),
}

impl View for SemanticVersion {
    type V = SemanticVersionV;

    open spec fn view(&self) -> SemanticVersionV {
        match self {
            SemanticVersion::Version(vn) => SemanticVersionV::Version(*vn),
            SemanticVersion::VersionWithRelease(vn, label) => SemanticVersionV::VersionWithRelease(
                *vn,
                label@,
            ),
        }
    }
}

/// What `version_number` returns.  The grammar tries `major.minor.patch`,
/// then `major.minor`, then `major` alone, in that order; the factored
/// form below is equivalent because the alternatives share their prefixes
/// and each numeral parse is deterministic.
pub open spec fn spec_version_number(s: Seq<char>, pos: int) -> Option<(int, VersionNumber)> {
    match spec_u128_value(s, pos) {
        None => None,
        Some((p1, major)) => {
            if p1 < s.len() && s[p1] == '.' {
                match spec_u128_value(s, p1 + 1) {
                    Some((p2, minor)) => {
                        if p2 < s.len() && s[p2] == '.' {
                            match spec_u128_value(s, p2 + 1) {
                                Some((p3, patch)) => Some(
                                    (p3, VersionNumber { major, minor, patch }),
                                ),
                                None => Some((p2, VersionNumber { major, minor, patch: 0 })),
                            }
                        } else {
                            Some((p2, VersionNumber { major, minor, patch: 0 }))
                        }
                    },
                    None => Some((p1, VersionNumber { major, minor: 0, patch: 0 })),
                }
            } else {
                Some((p1, VersionNumber { major, minor: 0, patch: 0 }))
            }
        },
    }
}

/// What `pre_release_token` returns: the maximal run of letters, digits,
/// dots and hyphens, whose leading character obeys the semantic-versioning
/// rule — a label may start with `0` only when that `0` is not followed
/// by another `0`.
pub open spec fn spec_pre_release_token(s: Seq<char>, pos: int) -> Option<(int, Seq<char>)> {
    if pos < s.len() && is_pre_release_char(s[pos]) {
        if s[pos] == '0' && pos + 1 < s.len() && s[pos + 1] == '0' {
            None
        } else {
            let e = run_end(s, pos, CharClass::PreRelease);
            Some((e, s.subrange(pos, e)))
        }
    } else {
        None
    }
}

/// What `pre_release` returns: a hyphen followed by a pre-release token.
pub open spec fn spec_pre_release(s: Seq<char>, pos: int) -> Option<(int, Seq<char>)> {
    if pos < s.len() && s[pos] == '-' {
        spec_pre_release_token(s, pos + 1)
    } else {
        None
    }
}

/// What `version_identifier` returns: a version number, then a pre-release
/// label when one follows.  When none follows — the input ends there or
/// continues with text that is no label — the bare version stands and the
/// rest is left unconsumed.
pub open spec fn spec_version_identifier(s: Seq<char>, pos: int) -> Option<
    (int, SemanticVersionV),
> {
    match spec_version_number(s, pos) {
        None => None,
        Some((p1, vn)) => {
            match spec_pre_release(s, p1) {
                Some((p2, label)) => Some((p2, SemanticVersionV::VersionWithRelease(vn, label))),
                None => Some((p1, SemanticVersionV::Version(vn))),
            }
        },
    }
}

/// The decimal digit character of a value below ten.
pub open spec fn dec_digit_char(d: int) -> char {
    if d == 0 {
        '0'
    } else if d == 1 {
        '1'
    } else if d == 2 {
        '2'
    } else if d == 3 {
        '3'
    } else if d == 4 {
        '4'
    } else if d == 5 {
        '5'
    } else if d == 6 {
        '6'
    } else if d == 7 {
        '7'
    } else if d == 8 {
        '8'
    } else {
        '9'
    }
}

/// The canonical decimal numeral of a non-negative value: no sign and no
/// leading zero (except for the value zero itself).
pub open spec fn dec_str(n: int) -> Seq<char>
    decreases n,
{
    if n <= 9 {
        seq![dec_digit_char(n)]
    } else {
        dec_str(n / 10).push(dec_digit_char(n % 10))
    }
}

/// The canonical numeral is non-empty, all digits, and reads back to the
/// value it was printed from.
pub proof fn lemma_dec_str_props(n: int)
    requires
        0 <= n,
    ensures
        dec_str(n).len() >= 1,
        forall|k: int| 0 <= k < dec_str(n).len() ==> crate::scan::is_digit(dec_str(n)[k]),
        crate::scan::digits_val(dec_str(n)) == n,
    decreases n,
{
    assert(crate::scan::digits_val(Seq::<char>::empty()) == 0);
    if n <= 9 {
        let c = dec_digit_char(n);
        lemma_dec_digit_char_val(n);
        assert(seq![c].drop_last() =~= Seq::<char>::empty());
        assert(seq![c].last() == c);
    } else {
        lemma_dec_str_props(n / 10);
        lemma_dec_digit_char_val(n % 10);
        let inner = dec_str(n / 10);
        let c = dec_digit_char(n % 10);
        assert(inner.push(c).drop_last() =~= inner);
        assert(inner.push(c).last() == c);
        assert(crate::scan::digits_val(inner.push(c)) == n / 10 * 10 + n % 10);
    }
}

/// The digit characters carry their values.
proof fn lemma_dec_digit_char_val(d: int)
    requires
        0 <= d <= 9,
    ensures
        crate::scan::is_digit(dec_digit_char(d)),
        crate::scan::digit_val(dec_digit_char(d)) == d,
{
    assert('0' as u32 == 48);
    assert('1' as u32 == 49);
    assert('2' as u32 == 50);
    assert('3' as u32 == 51);
    assert('4' as u32 == 52);
    assert('5' as u32 == 53);
    assert('6' as u32 == 54);
    assert('7' as u32 == 55);
    assert('8' as u32 == 56);
    assert('9' as u32 == 57);
}

/// A canonical numeral placed at `pos` and followed by a non-digit (or by
/// the end of the input) is parsed back to its value.
pub proof fn lemma_parse_u128_here(s: Seq<char>, pos: int, n: u128)
    requires
        0 <= pos,
        pos + dec_str(n as int).len() <= s.len(),
        s.subrange(pos, pos + dec_str(n as int).len()) == dec_str(n as int),
        pos + dec_str(n as int).len() == s.len() || !crate::scan::is_digit(
            s[pos + dec_str(n as int).len()],
        ),
    ensures
        spec_u128_value(s, pos) == Some(((pos + dec_str(n as int).len()) as int, n)),
{
    let d = dec_str(n as int);
    let l = d.len() as int;
    lemma_dec_str_props(n as int);
    assert forall|k: int| pos <= k < pos + l implies crate::scan::in_class(
        CharClass::Digit,
        s[k],
    ) by {
        assert(s.subrange(pos, pos + l)[k - pos] == s[k]);
    }
    crate::scan::lemma_run_end(s, CharClass::Digit, pos, pos + l);
    assert(crate::scan::digits_val(s.subrange(pos, pos + l)) == n);
}

/// The canonical string of a version number: `major.minor.patch`, with
/// all three components printed.
pub open spec fn spec_canonical_number(vn: VersionNumber) -> Seq<char> {
    dec_str(vn.major as int) + seq!['.'] + dec_str(vn.minor as int) + seq!['.'] + dec_str(
        vn.patch as int,
    )
}

/// The canonical string of a semantic version: the version number,
/// followed by `-` and the label when one is present.
pub open spec fn spec_canonical(v: SemanticVersionV) -> Seq<char> {
    match v {
        SemanticVersionV::Version(vn) => spec_canonical_number(vn),
        SemanticVersionV::VersionWithRelease(vn, label) => spec_canonical_number(vn) + seq!['-']
            + label,
    }
}

/// A well-formed pre-release label: non-empty, drawn from letters, digits,
/// dots and hyphens, and not beginning with two zero digits.
pub open spec fn valid_pre_release(label: Seq<char>) -> bool {
    &&& label.len() >= 1
    &&& forall|k: int| 0 <= k < label.len() ==> is_pre_release_char(label[k])
    &&& !(label[0] == '0' && label.len() >= 2 && label[1] == '0')
}

/// The decimal digit character of a value below ten, executably.
fn dec_digit(d: u128) -> (c: char)
    requires
        d <= 9,
    ensures
        c == dec_digit_char(d as int),
{
    if d == 0 {
        '0'
    } else if d == 1 {
        '1'
    } else if d == 2 {
        '2'
    } else if d == 3 {
        '3'
    } else if d == 4 {
        '4'
    } else if d == 5 {
        '5'
    } else if d == 6 {
        '6'
    } else if d == 7 {
        '7'
    } else if d == 8 {
        '8'
    } else {
        '9'
    }
}

/// Appends the canonical numeral of `n` to `out`.
fn push_dec(n: u128, out: &mut Vec<char>)
    ensures
        final(out)@ == old(out)@ + dec_str(n as int),
    decreases n,
{
    if n <= 9 {
        out.push(dec_digit(n));
        proof {
            assert(out@ =~= old(out)@ + dec_str(n as int));
        }
    } else {
        push_dec(n / 10, out);
        out.push(dec_digit(n % 10));
        proof {
            assert(out@ =~= old(out)@ + dec_str(n as int));
        }
    }
}

impl VersionNumber {
    /// The canonical `major.minor.patch` string of this version number.
    pub fn canonical_string(&self) -> (r: String)
        ensures
            r@ == spec_canonical_number(*self),
    {
        let mut out: Vec<char> = Vec::new();
        push_dec(self.major, &mut out);
        out.push('.');
        push_dec(self.minor, &mut out);
        out.push('.');
        push_dec(self.patch, &mut out);
        proof {
            assert(out@ =~= spec_canonical_number(*self));
        }
        crate::scan::chars_to_string(&out)
    }
}

impl SemanticVersion {
    /// The canonical string of this version: `major.minor.patch`, with
    /// `-label` appended when a pre-release label is present.
    pub fn canonical_string(&self) -> (r: String)
        ensures
            r@ == spec_canonical(self@),
    {
        match self {
            SemanticVersion::Version(vn) => vn.canonical_string(),
            SemanticVersion::VersionWithRelease(vn, label) => {
                let mut out: Vec<char> = Vec::new();
                push_dec(vn.major, &mut out);
                out.push('.');
                push_dec(vn.minor, &mut out);
                out.push('.');
                push_dec(vn.patch, &mut out);
                out.push('-');
                let label_chars = crate::scan::to_chars(label.as_str());
                let mut k: usize = 0;
                while k < label_chars.len()
                    invariant
                        0 <= k <= label_chars@.len(),
                        label_chars@ == label@,
                        out@ =~= spec_canonical_number(*vn) + seq!['-'] + label@.subrange(
                            0,
                            k as int,
                        ),
                    decreases label_chars@.len() - k,
                {
                    out.push(label_chars[k]);
                    k = k + 1;
                    proof {
                        assert(out@ =~= spec_canonical_number(*vn) + seq!['-'] + label@.subrange(
                            0,
                            k as int,
                        ));
                    }
                }
                proof {
                    assert(out@ =~= spec_canonical(self@));
                }
                crate::scan::chars_to_string(&out)
            },
        }
    }
}

/// Law: for every version value — any `major`, `minor` and `patch`, with
/// or without a well-formed pre-release label — parsing the canonical
/// string form yields exactly that value and consumes the whole string.
/// A version read from `major`- or `major.minor`-shaped text normalises
/// its omitted components to zero, so its canonical form parses back to
/// the same normalised value.
pub proof fn lemma_version_roundtrip(v: SemanticVersionV)
    requires
        v matches SemanticVersionV::VersionWithRelease(_, label) ==> valid_pre_release(label),
    ensures
        spec_version_identifier(spec_canonical(v), 0) == Some(
            (spec_canonical(v).len() as int, v),
        ),
{
    let vn = match v {
        SemanticVersionV::Version(vn) => vn,
        SemanticVersionV::VersionWithRelease(vn, _) => vn,
    };
    let s = spec_canonical(v);
    let d1 = dec_str(vn.major as int);
    let d2 = dec_str(vn.minor as int);
    let d3 = dec_str(vn.patch as int);
    let l1 = d1.len() as int;
    let l2 = d2.len() as int;
    let l3 = d3.len() as int;
    let c = spec_canonical_number(vn);
    let lc = l1 + 1 + l2 + 1 + l3;
    lemma_dec_str_props(vn.major as int);
    lemma_dec_str_props(vn.minor as int);
    lemma_dec_str_props(vn.patch as int);
    assert(c.len() == lc);
    assert(s.subrange(0, l1) =~= d1);
    assert(s[l1] == '.');
    assert(s.subrange(l1 + 1, l1 + 1 + l2) =~= d2);
    assert(s[l1 + 1 + l2] == '.');
    assert(s.subrange(l1 + 1 + l2 + 1, lc) =~= d3);
    lemma_parse_u128_here(s, 0, vn.major);
    lemma_parse_u128_here(s, l1 + 1, vn.minor);
    lemma_parse_u128_here(s, l1 + 1 + l2 + 1, vn.patch);
    assert(spec_version_number(s, 0) == Some((lc, vn)));
    match v {
        SemanticVersionV::Version(_) => {
            assert(s.len() == lc);
            assert(spec_pre_release(s, lc) is None);
        },
        SemanticVersionV::VersionWithRelease(_, label) => {
            assert(s[lc] == '-');
            assert(s.len() == lc + 1 + label.len());
            assert forall|k: int| lc + 1 <= k < s.len() implies crate::scan::in_class(
                CharClass::PreRelease,
                s[k],
            ) by {
                assert(s[k] == label[k - (lc + 1)]);
            }
            crate::scan::lemma_run_end(s, CharClass::PreRelease, lc + 1, s.len() as int);
            assert(s[lc + 1] == label[0]);
            if label[0] == '0' && lc + 2 < s.len() {
                assert(s[lc + 2] == label[1]);
            }
            assert(s.subrange(lc + 1, s.len() as int) =~= label);
            assert(spec_pre_release(s, lc) == Some((s.len() as int, label)));
        },
    }
}

/// Law: the pre-release grammar rejects any label that begins with two
/// zero digits (after the hyphen), and accepts a label that begins with a
/// single zero not followed by another zero.  A label such as `01`, two
/// digits beginning with zero but with no second zero, is nevertheless
/// accepted by this grammar.
pub proof fn lemma_pre_release_rejects_double_zero(s: Seq<char>, pos: int)
    requires
        0 <= pos,
        pos + 3 <= s.len(),
        s[pos] == '-',
        s[pos + 1] == '0',
        s[pos + 2] == '0',
    ensures
        spec_pre_release(s, pos) is None,
{
}

/// Law: a pre-release label beginning with a single zero that is not
/// followed by another zero is accepted, and the parsed label starts with
/// that zero.
pub proof fn lemma_pre_release_accepts_single_zero(s: Seq<char>, pos: int)
    requires
        0 <= pos,
        pos + 2 <= s.len(),
        s[pos] == '-',
        s[pos + 1] == '0',
        pos + 2 < s.len() ==> s[pos + 2] != '0',
    ensures
        spec_pre_release(s, pos) matches Some((e, label)) && label.len() >= 1 && label[0] == '0',
{
    crate::scan::lemma_run_end_bounds(s, CharClass::PreRelease, pos + 2);
    assert(run_end(s, pos + 1, CharClass::PreRelease) == run_end(s, pos + 2, CharClass::PreRelease));
}

/// Parses `major`, `major.minor` or `major.minor.patch`, defaulting the
/// omitted components to zero.
pub fn version_number(input: &Vec<char>, pos: usize) -> (r: PResult<VersionNumber>)
    requires
        pos <= input@.len(),
    ensures
        r matches Ok((np, v)) ==> spec_version_number(input@, pos as int) == Some((np as int, v))
            && pos <= np <= input@.len(),
        r is Err ==> spec_version_number(input@, pos as int) is None,
        r matches Err(e) ==> e.labels@.len() >= 1,
{
    let (p1, major) = match u128_value(input, pos) {
        Ok(x) => x,
        Err(e) => {
            return Err(e.label("Version"));
        },
    };
    if char_at(input, p1, '.') {
        match u128_value(input, p1 + 1) {
            Ok((p2, minor)) => {
                if char_at(input, p2, '.') {
                    match u128_value(input, p2 + 1) {
                        Ok((p3, patch)) => Ok((p3, VersionNumber { major, minor, patch })),
                        Err(_) => Ok((p2, VersionNumber { major, minor, patch: 0 })),
                    }
                } else {
                    Ok((p2, VersionNumber { major, minor, patch: 0 }))
                }
            },
            Err(_) => Ok((p1, VersionNumber { major, minor: 0, patch: 0 })),
        }
    } else {
        Ok((p1, VersionNumber { major, minor: 0, patch: 0 }))
    }
}

/// Parses a pre-release token, enforcing the leading-zero rule.
pub fn pre_release_token(input: &Vec<char>, pos: usize) -> (r: PResult<String>)
    requires
        pos <= input@.len(),
    ensures
        r matches Ok((np, t)) ==> spec_pre_release_token(input@, pos as int) == Some(
            (np as int, t@),
        ) && pos < np <= input@.len(),
        r is Err ==> spec_pre_release_token(input@, pos as int) is None,
        r matches Err(e) ==> e.labels@.len() >= 1,
{
    if pos < input.len() && crate::scan::char_in_class(CharClass::PreRelease, input[pos]) {
        if char_at(input, pos, '0') && char_at(input, pos + 1, '0') {
            return Err(CError::new(CErrorKind::ExpectedCharClass, pos).label("PreReleaseToken"));
        }
        let e = scan_class(input, pos, CharClass::PreRelease);
        let t = sub_string(input, pos, e);
        Ok((e, t))
    } else {
        Err(CError::new(CErrorKind::ExpectedCharClass, pos).label("PreReleaseToken"))
    }
}

/// Parses a hyphen followed by a pre-release token.
pub fn pre_release(input: &Vec<char>, pos: usize) -> (r: PResult<String>)
    requires
        pos <= input@.len(),
    ensures
        r matches Ok((np, t)) ==> spec_pre_release(input@, pos as int) == Some((np as int, t@))
            && pos < np <= input@.len(),
        r is Err ==> spec_pre_release(input@, pos as int) is None,
        r matches Err(e) ==> e.labels@.len() >= 1,
{
    if char_at(input, pos, '-') {
        match pre_release_token(input, pos + 1) {
            Ok(x) => Ok(x),
            Err(e) => Err(e.label("PreRelease")),
        }
    } else {
        Err(CError::new(CErrorKind::ExpectedLiteral, pos).label("PreRelease"))
    }
}

/// Parses a version with an optional pre-release label.  When no label
/// follows the version number, the bare version is returned and whatever
/// follows it is left unconsumed.
pub fn version_identifier(input: &Vec<char>, pos: usize) -> (r: PResult<SemanticVersion>)
    requires
        pos <= input@.len(),
    ensures
        r matches Ok((np, v)) ==> spec_version_identifier(input@, pos as int) == Some(
            (np as int, v@),
        ) && pos <= np <= input@.len(),
        r is Err ==> spec_version_identifier(input@, pos as int) is None,
        r matches Err(e) ==> e.labels@.len() >= 1,
{
    let (p1, vn) = match version_number(input, pos) {
        Ok(x) => x,
        Err(e) => {
            return Err(e.label("VersionIdentifier"));
        },
    };
    match pre_release(input, p1) {
        Ok((p2, label)) => Ok((p2, SemanticVersion::VersionWithRelease(vn, label))),
        Err(_) => Ok((p1, SemanticVersion::Version(vn))),
    }
}

} // verus!
