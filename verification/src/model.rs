//! The top-level model: an interleaving of one (or more) namespace
//! statements and concept declarations, folded by a builder that is
//! consumed exactly once.  The last namespace statement seen wins; a model
//! without any namespace statement is rejected.

use vstd::prelude::*;

use crate::declaration::{declaration, spec_declaration, Declaration, DeclarationV};
use crate::error::{CError, CErrorKind, PResult};
use crate::namespace::{namespace_identifier, spec_namespace_identifier, Namespace, NamespaceV};
use crate::scan::{run_end, scan_class, to_chars, CharClass};

verus! {

/// A parsed model: its namespace and its declarations, in source order.
#[derive(Debug, PartialEq, Clone)]
pub struct Model {
    /// The model's namespace.
    pub namespace: Namespace,
    /// The declarations, in the order they appear in the source.
    pub declarations: Vec<Declaration>,
}

/// The mathematical value of a [`Model`].
pub ghost struct ModelV {
    /// The model's namespace.
    pub namespace: NamespaceV,
    /// The declarations, in the order they appear in the source.
    pub declarations: Seq<DeclarationV>,
}

/// The view of each declaration in a list.
pub open spec fn decls_view(decls: Seq<Declaration>) -> Seq<DeclarationV> {
    decls.map_values(|d: Declaration| d@)
}

impl View for Model {
    type V = ModelV;

    open spec fn view(&self) -> ModelV {
        ModelV { namespace: self.namespace@, declarations: decls_view(self.declarations@) }
    }
}

/// Accumulates definitions while the model is being parsed; it is owned
/// by one parsing call and frozen into a [`Model`] exactly once.
pub struct ModelBuilder {
    /// The namespace seen last, if any.
    pub namespace: Option<Namespace>,
    /// The declarations accumulated so far, in order.
    pub declarations: Vec<Declaration>,
}

impl ModelBuilder {
    /// A builder with no namespace and no declarations.
    pub fn new() -> (r: ModelBuilder)
        ensures
            r.namespace is None,
            r.declarations@ =~= Seq::<Declaration>::empty(),
    {
        ModelBuilder { namespace: None, declarations: Vec::new() }
    }

    /// Records a namespace, replacing any namespace recorded before.
    pub fn with_namespace(&mut self, ns: Namespace)
        ensures
            final(self).namespace == Some(ns),
            final(self).declarations == old(self).declarations,
    {
        self.namespace = Some(ns);
    }

    /// Appends a declaration, keeping all earlier ones in order.
    pub fn add_declaration(&mut self, dec: Declaration)
        ensures
            final(self).declarations@ == old(self).declarations@.push(dec),
            final(self).namespace == old(self).namespace,
    {
        self.declarations.push(dec);
    }

    /// Freezes the builder into a model.  A namespace must have been
    /// recorded; a model cannot exist without one.
    pub fn build(self) -> (r: Model)
        requires
            self.namespace is Some,
        ensures
            Some(r.namespace) == self.namespace,
            r.declarations == self.declarations,
    {
        let ns = match self.namespace {
            Some(ns) => ns,
            None => {
                proof {
                    assert(false);
                }
                Namespace {
                    name: String::new(),
                    version: crate::version::SemanticVersion::Version(
                        crate::version::VersionNumber { major: 0, minor: 0, patch: 0 },
                    ),
                }
            },
        };
        Model { namespace: ns, declarations: self.declarations }
    }
}

/// Folds whitespace-separated definitions from `p`: each is a namespace
/// statement (replacing any namespace seen before) or a declaration
/// (appended in order), until neither parses.
pub open spec fn spec_model_defs(
    s: Seq<char>,
    p: int,
    ns: Option<NamespaceV>,
    decls: Seq<DeclarationV>,
) -> (int, Option<NamespaceV>, Seq<DeclarationV>)
    decreases s.len() - p,
{
    let a = run_end(s, p, CharClass::MultiSpace);
    match spec_namespace_identifier(s, a) {
        Some((e, nsv)) => {
            let e2 = run_end(s, e, CharClass::MultiSpace);
            if p < e2 <= s.len() {
                spec_model_defs(s, e2, Some(nsv), decls)
            } else {
                (p, ns, decls)
            }
        },
        None => match spec_declaration(s, a) {
            Some((e, d)) => {
                let e2 = run_end(s, e, CharClass::MultiSpace);
                if p < e2 <= s.len() {
                    spec_model_defs(s, e2, ns, decls.push(d))
                } else {
                    (p, ns, decls)
                }
            },
            None => (p, ns, decls),
        },
    }
}

/// Law: a model's declarations keep their source order.  Folding further
/// definitions only extends the accumulated declaration list on the
/// right; nothing already parsed is reordered or dropped.
pub proof fn lemma_model_defs_preserve_order(
    s: Seq<char>,
    p: int,
    ns: Option<NamespaceV>,
    decls: Seq<DeclarationV>,
)
    ensures
        ({
            let r = spec_model_defs(s, p, ns, decls);
            &&& r.2.len() >= decls.len()
            &&& forall|k: int| 0 <= k < decls.len() ==> r.2[k] == decls[k]
        }),
    decreases s.len() - p,
{
    let a = run_end(s, p, CharClass::MultiSpace);
    match spec_namespace_identifier(s, a) {
        Some((e, nsv)) => {
            let e2 = run_end(s, e, CharClass::MultiSpace);
            if p < e2 <= s.len() {
                lemma_model_defs_preserve_order(s, e2, Some(nsv), decls);
            }
        },
        None => match spec_declaration(s, a) {
            Some((e, d)) => {
                let e2 = run_end(s, e, CharClass::MultiSpace);
                if p < e2 <= s.len() {
                    lemma_model_defs_preserve_order(s, e2, ns, decls.push(d));
                    let r = spec_model_defs(s, p, ns, decls);
                    assert forall|k: int| 0 <= k < decls.len() implies r.2[k] == decls[k] by {
                        assert(decls.push(d)[k] == decls[k]);
                    }
                }
            },
            None => {},
        },
    }
}

/// What `model` returns: the folded definitions, provided at least one
/// namespace statement was seen.
pub open spec fn spec_model(s: Seq<char>, pos: int) -> Option<(int, ModelV)> {
    let r = spec_model_defs(s, pos, None, Seq::empty());
    match r.1 {
        Some(ns) => Some((r.0, ModelV { namespace: ns, declarations: r.2 })),
        None => None,
    }
}

/// Parses a model: any interleaving of namespace statements and concept
/// declarations, separated by whitespace.  Parsing stops at the first
/// position where neither parses; the error reports a model that never
/// declared its namespace.
pub fn model(input: &Vec<char>, pos: usize) -> (r: PResult<Model>)
    requires
        pos <= input@.len(),
    ensures
        r matches Ok((np, m)) ==> spec_model(input@, pos as int) == Some((np as int, m@)) && pos
            <= np <= input@.len(),
        r is Err ==> spec_model(input@, pos as int) is None,
        r matches Err(e) ==> e.labels@.len() >= 1,
{
    let ghost s = input@;
    let mut builder = ModelBuilder::new();
    let mut i = pos;
    proof {
        assert(decls_view(builder.declarations@) =~= Seq::<DeclarationV>::empty());
    }
    loop
        invariant
            pos <= i <= s.len(),
            s == input@,
            spec_model_defs(s, pos as int, None, Seq::empty()) == ({
                let ghost nsv = match builder.namespace {
                    Some(ns) => Some(ns@),
                    None => None,
                };
                spec_model_defs(s, i as int, nsv, decls_view(builder.declarations@))
            }),
        ensures
            spec_model_defs(s, pos as int, None, Seq::empty()) == ({
                let ghost nsv = match builder.namespace {
                    Some(ns) => Some(ns@),
                    None => None,
                };
                (i as int, nsv, decls_view(builder.declarations@))
            }),
        decreases s.len() - i,
    {
        let ghost decls0 = decls_view(builder.declarations@);
        let a = scan_class(input, i, CharClass::MultiSpace);
        match namespace_identifier(input, a) {
            Ok((e, ns)) => {
                let e2 = scan_class(input, e, CharClass::MultiSpace);
                builder.with_namespace(ns);
                i = e2;
            },
            Err(_) => {
                match declaration(input, a) {
                    Ok((e, d)) => {
                        let e2 = scan_class(input, e, CharClass::MultiSpace);
                        proof {
                            assert(decls_view(builder.declarations@.push(d)) =~= decls0.push(d@));
                        }
                        builder.add_declaration(d);
                        i = e2;
                    },
                    Err(_) => {
                        break ;
                    },
                }
            },
        }
    }
    if builder.namespace.is_none() {
        return Err(CError::new(CErrorKind::MissingNamespace, i).label("Model"));
    }
    let m = builder.build();
    Ok((i, m))
}

/// Parses a whole input text into a model, ignoring whatever follows the
/// last definition the grammar recognises.
pub fn parse_model(text: &str) -> (r: Result<Model, CError>)
    ensures
        r matches Ok(m) ==> spec_model(text@, 0) matches Some((e, mv)) && m@ == mv,
        r is Err ==> spec_model(text@, 0) is None,
        r matches Err(e) ==> e.labels@.len() >= 1,
{
    let input = to_chars(text);
    match model(&input, 0) {
        Ok((_, m)) => Ok(m),
        Err(e) => Err(e),
    }
}

} // verus!
