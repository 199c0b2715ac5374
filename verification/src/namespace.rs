//! Namespace statements and fully qualified names.
//!
//! A namespace is a dotted name, `@`, and a version.  A fully qualified
//! name adds a trailing type name; when a pre-release label is present the
//! label and the type name share one dash-prefixed suffix, and everything
//! up to the suffix's last dot is the label while the final dot-segment is
//! the type name.

use vstd::prelude::*;

use crate::common::{spec_token, token};
use crate::error::{CError, CErrorKind, PResult};
use crate::scan::{char_at, run_end, scan_class, sub_string, tag, tag_at, CharClass};
use crate::version::{
    pre_release_token, spec_pre_release_token, spec_version_identifier, spec_version_number,
    version_identifier, version_number, SemanticVersion, SemanticVersionV,
};

verus! {

/// A parsed namespace statement: a dotted name and its version.
#[derive(Debug, PartialEq, Eq, Clone)]
pub struct Namespace {
    /// The dotted name, verbatim.
    pub name: String,
    /// The declared version.
    pub version: SemanticVersion,
}

/// The mathematical value of a [`Namespace`].
pub ghost struct NamespaceV {
    /// The dotted name's characters.
    pub name: Seq<char>,
    /// The declared version.
    pub version: SemanticVersionV,
}

impl View for Namespace {
    type V = NamespaceV;

    open spec fn view(&self) -> NamespaceV {
        NamespaceV { name: self.name@, version: self.version@ }
    }
}

/// A reference to a type declared in another namespace.
#[derive(Debug, PartialEq, Eq, Clone)]
pub struct FullyQualifiedName {
    /// The other namespace's name.
    pub name: String,
    /// The other namespace's version.
    pub version: SemanticVersion,
    /// The referenced type's name.
    pub type_token: String,
}

/// The mathematical value of a [`FullyQualifiedName`].
pub ghost struct FullyQualifiedNameV {
    /// The other namespace's name.
    pub name: Seq<char>,
    /// The other namespace's version.
    pub version: SemanticVersionV,
    /// The referenced type's name.
    pub type_token: Seq<char>,
}

impl View for FullyQualifiedName {
    type V = FullyQualifiedNameV;

    open spec fn view(&self) -> FullyQualifiedNameV {
        FullyQualifiedNameV {
            name: self.name@,
            version: self.version@,
            type_token: self.type_token@,
        }
    }
}

/// Extends a dotted name past `p` with as many `.token` segments as
/// follow; a dot not followed by a token is left unconsumed.
pub open spec fn dotted_ext(s: Seq<char>, p: int) -> int
    recommends
        0 <= p <= s.len(),
    decreases s.len() - p,
{
    if p < s.len() && s[p] == '.' {
        match spec_token(s, p + 1) {
            Some((p2, _)) => if p < p2 <= s.len() {
                dotted_ext(s, p2)
            } else {
                p
            },
            None => p,
        }
    } else {
        p
    }
}

/// End of a dotted name at `pos`: one token, then any number of `.token`
/// segments.
pub open spec fn spec_namespace_name_end(s: Seq<char>, pos: int) -> Option<int> {
    match spec_token(s, pos) {
        None => None,
        Some((p1, _)) => Some(dotted_ext(s, p1)),
    }
}

/// What `namespace_version` returns: a dotted name, `@`, and a version
/// identifier; the name is kept verbatim.
pub open spec fn spec_namespace_version(s: Seq<char>, pos: int) -> Option<
    (int, (Seq<char>, SemanticVersionV)),
> {
    match spec_namespace_name_end(s, pos) {
        None => None,
        Some(e) => {
            if e < s.len() && s[e] == '@' {
                match spec_version_identifier(s, e + 1) {
                    Some((p2, v)) => Some((p2, (s.subrange(pos, e), v))),
                    None => None,
                }
            } else {
                None
            }
        },
    }
}

/// What `namespace_identifier` returns: the keyword `namespace`, at least
/// one space, then a versioned dotted name.
pub open spec fn spec_namespace_identifier(s: Seq<char>, pos: int) -> Option<(int, NamespaceV)> {
    if tag_at(s, pos, "namespace"@) {
        let p = pos + "namespace"@.len();
        let w = run_end(s, p, CharClass::Space);
        if w > p {
            match spec_namespace_version(s, w) {
                Some((p2, (name, v))) => Some((p2, NamespaceV { name, version: v })),
                None => None,
            }
        } else {
            None
        }
    } else {
        None
    }
}

/// Scans a dotted name and returns the position after it.
fn namespace_name_end(input: &Vec<char>, pos: usize) -> (r: PResult<usize>)
    requires
        pos <= input@.len(),
    ensures
        r matches Ok((np, e)) ==> spec_namespace_name_end(input@, pos as int) == Some(e as int)
            && np == e && pos <= np <= input@.len(),
        r is Err ==> spec_namespace_name_end(input@, pos as int) is None,
{
    let (p1, _) = match token(input, pos) {
        Ok(x) => x,
        Err(e) => {
            return Err(e);
        },
    };
    let mut p = p1;
    loop
        invariant
            pos <= p <= input@.len(),
            dotted_ext(input@, p1 as int) == dotted_ext(input@, p as int),
        ensures
            pos <= p <= input@.len(),
            dotted_ext(input@, p1 as int) == p as int,
        decreases input@.len() - p,
    {
        if char_at(input, p, '.') {
            match token(input, p + 1) {
                Ok((p2, _)) => {
                    p = p2;
                },
                Err(_) => {
                    break ;
                },
            }
        } else {
            break ;
        }
    }
    Ok((p, p))
}

/// Parses a dotted name, `@`, and a version identifier.
pub fn namespace_version(input: &Vec<char>, pos: usize) -> (r: PResult<(String, SemanticVersion)>)
    requires
        pos <= input@.len(),
    ensures
        r matches Ok((np, v)) ==> spec_namespace_version(input@, pos as int) == Some(
            (np as int, (v.0@, v.1@)),
        ) && pos <= np <= input@.len(),
        r is Err ==> spec_namespace_version(input@, pos as int) is None,
        r matches Err(e) ==> e.labels@.len() >= 1,
{
    let (e, _) = match namespace_name_end(input, pos) {
        Ok(x) => x,
        Err(er) => {
            return Err(er.label("Namespace"));
        },
    };
    if !char_at(input, e, '@') {
        return Err(CError::new(CErrorKind::ExpectedLiteral, e).label("Namespace"));
    }
    match version_identifier(input, e + 1) {
        Ok((p2, v)) => {
            let name = sub_string(input, pos, e);
            Ok((p2, (name, v)))
        },
        Err(er) => Err(er.label("Namespace")),
    }
}

/// Parses a namespace statement: the keyword, whitespace, and a versioned
/// dotted name.
pub fn namespace_identifier(input: &Vec<char>, pos: usize) -> (r: PResult<Namespace>)
    requires
        pos <= input@.len(),
    ensures
        r matches Ok((np, ns)) ==> spec_namespace_identifier(input@, pos as int) == Some(
            (np as int, ns@),
        ) && pos < np <= input@.len(),
        r is Err ==> spec_namespace_identifier(input@, pos as int) is None,
        r matches Err(e) ==> e.labels@.len() >= 1,
{
    let p = match tag(input, pos, "namespace") {
        Some(p) => p,
        None => {
            return Err(CError::new(CErrorKind::ExpectedLiteral, pos).label("NamespaceDefinition"));
        },
    };
    let w = scan_class(input, p, CharClass::Space);
    if w == p {
        return Err(CError::new(CErrorKind::ExpectedCharClass, p).label("NamespaceDefinition"));
    }
    match namespace_version(input, w) {
        Ok((p2, (name, version))) => Ok((p2, Namespace { name, version })),
        Err(er) => Err(er.label("NamespaceDefinition")),
    }
}

/// What `prerelease_dot_token` returns: the whole dash-suffix is scanned
/// as one pre-release token, everything before its last dot is the label,
/// and the segment after that dot must be a token reaching the suffix's
/// end — the type name.
pub open spec fn spec_prerelease_dot_token(s: Seq<char>, pos: int) -> Option<
    (int, (Seq<char>, Seq<char>)),
> {
    match spec_pre_release_token(s, pos) {
        None => None,
        Some((e, _run)) => {
            if exists|d: int| pos <= d < e && s[d] == '.' {
                let ld = last_dot(s, pos, e);
                match spec_token(s, ld + 1) {
                    Some((te, tname)) => if te == e {
                        Some((e, (s.subrange(pos, ld), tname)))
                    } else {
                        None
                    },
                    None => None,
                }
            } else {
                None
            }
        },
    }
}

/// The index of the last dot in `[pos, e)`, assuming one exists.
pub open spec fn last_dot(s: Seq<char>, pos: int, e: int) -> int
    recommends
        0 <= pos <= e <= s.len(),
    decreases e - pos,
{
    if pos < e {
        if s[e - 1] == '.' {
            e - 1
        } else {
            last_dot(s, pos, e - 1)
        }
    } else {
        pos - 1
    }
}

/// The last dot is the dot after which no further dot occurs.
proof fn lemma_last_dot(s: Seq<char>, pos: int, e: int, d: int)
    requires
        0 <= pos <= d < e <= s.len(),
        s[d] == '.',
        forall|k: int| d < k < e ==> s[k] != '.',
    ensures
        last_dot(s, pos, e) == d,
    decreases e - d,
{
    if e - 1 > d {
        lemma_last_dot(s, pos, e - 1, d);
    }
}

/// Splits a pre-release suffix into its label and its trailing type name
/// at the suffix's last dot.
pub fn prerelease_dot_token(input: &Vec<char>, pos: usize) -> (r: PResult<(String, String)>)
    requires
        pos <= input@.len(),
    ensures
        r matches Ok((np, v)) ==> spec_prerelease_dot_token(input@, pos as int) == Some(
            (np as int, (v.0@, v.1@)),
        ) && pos <= np <= input@.len(),
        r is Err ==> spec_prerelease_dot_token(input@, pos as int) is None,
        r matches Err(e) ==> e.labels@.len() >= 1,
{
    let (e, _) = match pre_release_token(input, pos) {
        Ok(x) => x,
        Err(er) => {
            return Err(er.label("PrereleaseDotToken"));
        },
    };
    // scan backwards for the last dot of the suffix
    let mut i = e;
    loop
        invariant
            pos <= i <= e <= input@.len(),
            forall|k: int| i <= k < e ==> input@[k] != '.',
        ensures
            pos <= i <= e,
            i > pos ==> input@[i - 1] == '.' && forall|k: int| i <= k < e ==> input@[k] != '.',
            i == pos ==> forall|k: int| pos <= k < e ==> input@[k] != '.',
        decreases i,
    {
        if i == pos {
            break ;
        }
        if input[i - 1] == '.' {
            break ;
        }
        i = i - 1;
    }
    if i == pos {
        // no dot anywhere in the suffix
        return Err(CError::new(CErrorKind::ExpectedLiteral, pos).label("PrereleaseDotToken"));
    }
    let ld = i - 1;
    proof {
        lemma_last_dot(input@, pos as int, e as int, ld as int);
    }
    match token(input, ld + 1) {
        Ok((te, tname)) => {
            if te == e {
                let label = sub_string(input, pos, ld);
                Ok((e, (label, tname)))
            } else {
                Err(CError::new(CErrorKind::ExpectedLiteral, te).label("PrereleaseDotToken"))
            }
        },
        Err(er) => Err(er.label("PrereleaseDotToken")),
    }
}

/// What `fqn` returns for a reference without a pre-release label:
/// `name@version.Type`, unambiguous because the version holds no dots
/// beyond its own.
pub open spec fn spec_fqn_no_prerelease(s: Seq<char>, pos: int) -> Option<
    (int, FullyQualifiedNameV),
> {
    match spec_token(s, pos) {
        None => None,
        Some((p1, name)) => {
            if p1 < s.len() && s[p1] == '@' {
                match spec_version_number(s, p1 + 1) {
                    Some((p2, vn)) => {
                        if p2 < s.len() && s[p2] == '.' {
                            match spec_token(s, p2 + 1) {
                                Some((p3, tname)) => Some(
                                    (
                                        p3,
                                        FullyQualifiedNameV {
                                            name,
                                            version: SemanticVersionV::Version(vn),
                                            type_token: tname,
                                        },
                                    ),
                                ),
                                None => None,
                            }
                        } else {
                            None
                        }
                    },
                    None => None,
                }
            } else {
                None
            }
        },
    }
}

/// What `fqn` returns for a reference with a pre-release label: the
/// dash-suffix is split at its last dot into the label and the type name.
pub open spec fn spec_fqn_with_prerelease(s: Seq<char>, pos: int) -> Option<
    (int, FullyQualifiedNameV),
> {
    match spec_token(s, pos) {
        None => None,
        Some((p1, name)) => {
            if p1 < s.len() && s[p1] == '@' {
                match spec_version_number(s, p1 + 1) {
                    Some((p2, vn)) => {
                        if p2 < s.len() && s[p2] == '-' {
                            match spec_prerelease_dot_token(s, p2 + 1) {
                                Some((p3, (label, tname))) => Some(
                                    (
                                        p3,
                                        FullyQualifiedNameV {
                                            name,
                                            version: SemanticVersionV::VersionWithRelease(
                                                vn,
                                                label,
                                            ),
                                            type_token: tname,
                                        },
                                    ),
                                ),
                                None => None,
                            }
                        } else {
                            None
                        }
                    },
                    None => None,
                }
            } else {
                None
            }
        },
    }
}

/// What `fqn` returns: the pre-release form is tried first, then the
/// plain form.
pub open spec fn spec_fqn(s: Seq<char>, pos: int) -> Option<(int, FullyQualifiedNameV)> {
    if spec_fqn_with_prerelease(s, pos) is Some {
        spec_fqn_with_prerelease(s, pos)
    } else {
        spec_fqn_no_prerelease(s, pos)
    }
}

/// Parses `name@version.Type` where the version has no pre-release label.
fn fqn_no_prerelease(input: &Vec<char>, pos: usize) -> (r: PResult<FullyQualifiedName>)
    requires
        pos <= input@.len(),
    ensures
        r matches Ok((np, v)) ==> spec_fqn_no_prerelease(input@, pos as int) == Some(
            (np as int, v@),
        ) && pos <= np <= input@.len(),
        r is Err ==> spec_fqn_no_prerelease(input@, pos as int) is None,
        r matches Err(e) ==> e.labels@.len() >= 1,
{
    let (p1, name) = match token(input, pos) {
        Ok(x) => x,
        Err(er) => {
            return Err(er.label("FQNNoPrerelease"));
        },
    };
    if !char_at(input, p1, '@') {
        return Err(CError::new(CErrorKind::ExpectedLiteral, p1).label("FQNNoPrerelease"));
    }
    let (p2, vn) = match version_number(input, p1 + 1) {
        Ok(x) => x,
        Err(er) => {
            return Err(er.label("FQNNoPrerelease"));
        },
    };
    if !char_at(input, p2, '.') {
        return Err(CError::new(CErrorKind::ExpectedLiteral, p2).label("FQNNoPrerelease"));
    }
    match token(input, p2 + 1) {
        Ok((p3, tname)) => Ok(
            (
                p3,
                FullyQualifiedName {
                    name,
                    version: SemanticVersion::Version(vn),
                    type_token: tname,
                },
            ),
        ),
        Err(er) => Err(er.label("FQNNoPrerelease")),
    }
}

/// Parses `name@version-label.Type`, splitting the dash-suffix at its
/// last dot.
fn fqn_with_prerelease(input: &Vec<char>, pos: usize) -> (r: PResult<FullyQualifiedName>)
    requires
        pos <= input@.len(),
    ensures
        r matches Ok((np, v)) ==> spec_fqn_with_prerelease(input@, pos as int) == Some(
            (np as int, v@),
        ) && pos <= np <= input@.len(),
        r is Err ==> spec_fqn_with_prerelease(input@, pos as int) is None,
        r matches Err(e) ==> e.labels@.len() >= 1,
{
    let (p1, name) = match token(input, pos) {
        Ok(x) => x,
        Err(er) => {
            return Err(er.label("FQNWithPrerelease"));
        },
    };
    if !char_at(input, p1, '@') {
        return Err(CError::new(CErrorKind::ExpectedLiteral, p1).label("FQNWithPrerelease"));
    }
    let (p2, vn) = match version_number(input, p1 + 1) {
        Ok(x) => x,
        Err(er) => {
            return Err(er.label("FQNWithPrerelease"));
        },
    };
    if !char_at(input, p2, '-') {
        return Err(CError::new(CErrorKind::ExpectedLiteral, p2).label("FQNWithPrerelease"));
    }
    match prerelease_dot_token(input, p2 + 1) {
        Ok((p3, (label, tname))) => Ok(
            (
                p3,
                FullyQualifiedName {
                    name,
                    version: SemanticVersion::VersionWithRelease(vn, label),
                    type_token: tname,
                },
            ),
        ),
        Err(er) => Err(er.label("FQNWithPrerelease")),
    }
}

/// Parses a fully qualified name, trying the pre-release form first.
pub fn fqn(input: &Vec<char>, pos: usize) -> (r: PResult<FullyQualifiedName>)
    requires
        pos <= input@.len(),
    ensures
        r matches Ok((np, v)) ==> spec_fqn(input@, pos as int) == Some((np as int, v@)) && pos
            <= np <= input@.len(),
        r is Err ==> spec_fqn(input@, pos as int) is None,
        r matches Err(e) ==> e.labels@.len() >= 1,
{
    match fqn_with_prerelease(input, pos) {
        Ok(x) => Ok(x),
        Err(e1) => match fqn_no_prerelease(input, pos) {
            Ok(x) => Ok(x),
            Err(e2) => Err(e1.deeper(e2).label("FullyQualifiedName")),
        },
    }
}

} // verus!
