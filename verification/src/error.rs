//! Structured parse errors: a category, the character position of the
//! deepest failure, and the path of grammar-rule labels the failure
//! passed through on its way out.

use vstd::prelude::*;

verus! {

/// The category of a parse failure.
#[derive(Debug, Clone, PartialEq, Eq)]
pub enum CErrorKind {
    /// An expected literal, keyword or delimiter was not found.
    ExpectedLiteral,
    /// A character of an expected class (digit, letter, whitespace) was not found.
    ExpectedCharClass,
    /// A matched numeral is not representable in the required numeric width.
    NumericConversion,
    /// A string escape holds invalid hex digits or names no Unicode scalar value.
    MalformedEscape,
    /// The input ended before the parser was satisfied.
    UnexpectedEnd,
    /// The whole input was parsed without ever seeing a namespace statement.
    MissingNamespace,
}

/// A parse failure: what went wrong, where, and inside which rules.
///
/// `pos` is a character offset into the parsed input (not a byte offset).
/// `labels` is the context path: each labelled grammar rule the failure
/// propagated through prepends its name, so the path reads from the
/// outermost rule down to the innermost one.  Where several alternatives
/// of one rule fail, the surfaced failure is the one that reached the
/// deepest position.
#[derive(Debug, Clone, PartialEq, Eq)]
pub struct CError {
    /// Category of the failure.
    pub kind: CErrorKind,
    /// Character offset of the deepest point the failing parse reached.
    pub pos: usize,
    /// The rule labels crossed while the failure propagated, outermost
    /// first, innermost last.
    pub labels: Vec<&'static str>,
}

impl CError {
    /// Builds an error of the given category at the given position, with
    /// no context labels yet.
    pub fn new(kind: CErrorKind, pos: usize) -> (r: CError)
        ensures
            r.kind == kind,
            r.pos == pos,
            r.labels@ =~= Seq::<&'static str>::empty(),
    {
        CError { kind, pos, labels: Vec::new() }
    }

    /// Prepends the label of the rule the failure is leaving, keeping the
    /// path ordered outermost to innermost.
    pub fn label(self, l: &'static str) -> (r: CError)
        ensures
            r.kind == self.kind,
            r.pos == self.pos,
            r.labels@ == self.labels@.insert(0, l),
            r.labels@.len() >= 1,
    {
        let mut labels = self.labels;
        labels.insert(0, l);
        CError { kind: self.kind, pos: self.pos, labels }
    }

    /// Of two failed alternatives, keeps the failure that reached the
    /// deeper position; on a tie the first-tried alternative wins.
    pub fn deeper(self, other: CError) -> (r: CError)
        ensures
            r == if other.pos > self.pos {
                other
            } else {
                self
            },
            r.pos >= self.pos && r.pos >= other.pos,
    {
        if other.pos > self.pos {
            other
        } else {
            self
        }
    }
}

/// Every parser returns the position after the consumed text and the parsed
/// value, or an error.
pub type PResult<T> = Result<(usize, T), CError>;

} // verus!
