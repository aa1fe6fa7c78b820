//! The pattern analyzer: the abstract structure of a regular-expression
//! pattern and the extraction of its named capture groups, however deeply
//! they are nested.

use vstd::prelude::*;
use regex_syntax::ast as rast;
use regex_syntax::ast::{Ast, GroupKind};

verus! {

broadcast use vstd::prelude::Seq::lemma_push_to_set_commute;

/// The shape of a parsed regular expression, as far as capture binding is
/// concerned. Constructs that declare no capture group and contain no
/// sub-expression (literals, character classes, the dot, assertions, flag
/// settings, the empty regex) are a single `Leaf` variant: they contribute
/// no names.
pub enum ReAst {
    Leaf,
    Repetition(Box<ReAst>),
    CaptureNamed(String, Box<ReAst>),
    CaptureIndexed(Box<ReAst>),
    NonCapturing(Box<ReAst>),
    Concat(Vec<ReAst>),
    Alternation(Vec<ReAst>),
}

/// The flattened capture set of a pattern: every named group reachable by
/// structural descent into repetitions, groups of any kind, concatenations
/// and alternation branches, at any depth.
pub open spec fn names_of(a: ReAst) -> Set<Seq<char>>
    decreases a,
{
    match a {
        ReAst::Leaf => Set::empty(),
        ReAst::Repetition(b) => names_of(*b),
        ReAst::CaptureNamed(n, b) => names_of(*b).insert(n@),
        ReAst::CaptureIndexed(b) => names_of(*b),
        ReAst::NonCapturing(b) => names_of(*b),
        ReAst::Concat(cs) => names_of_list(cs@),
        ReAst::Alternation(cs) => names_of_list(cs@),
    }
}

/// The union of the flattened capture sets of a list of sub-expressions.
pub open spec fn names_of_list(s: Seq<ReAst>) -> Set<Seq<char>>
    decreases s,
{
    if s.len() == 0 {
        Set::empty()
    } else {
        names_of_list(s.drop_last()).union(names_of(s.last()))
    }
}

/// The character sequences of a sequence of strings.
pub open spec fn views_of(v: Seq<String>) -> Seq<Seq<char>> {
    v.map_values(|s: String| s@)
}

/// No two entries are the same character sequence.
pub open spec fn distinct_views(s: Seq<Seq<char>>) -> bool {
    forall|i: int, j: int| 0 <= i < j < s.len() ==> s[i] != s[j]
}

/// Whether `v` already holds a string equal to `s`.
fn contains_string(v: &Vec<String>, s: &String) -> (r: bool)
    ensures
        r == views_of(v@).to_set().contains(s@),
{
    let mut i: usize = 0;
    while i < v.len()
        invariant
            0 <= i <= v.len(),
            forall|k: int| 0 <= k < i ==> views_of(v@)[k] != s@,
        decreases v.len() - i,
    {
        if v[i] == *s {
            assert(views_of(v@)[i as int] == s@);
            assert(views_of(v@).contains(s@));
            return true;
        }
        i += 1;
    }
    assert(!views_of(v@).contains(s@));
    false
}

/// Appends to `out` every named capture group of `a` that `out` does not
/// hold yet.
fn flatten_into(a: &ReAst, out: &mut Vec<String>)
    ensures
        views_of(final(out)@).to_set() == views_of(old(out)@).to_set().union(names_of(*a)),
        distinct_views(views_of(old(out)@)) ==> distinct_views(views_of(final(out)@)),
    decreases *a,
{
    match a {
        ReAst::Leaf => {
            assert(views_of(out@).to_set() =~= views_of(out@).to_set().union(names_of(*a)));
        }
        ReAst::Repetition(b) => {
            flatten_into(b, out);
        }
        ReAst::CaptureNamed(n, b) => {
            let ghost pre = views_of(out@).to_set();
            if !contains_string(out, n) {
                out.push(n.clone());
                assert(views_of(out@) =~= views_of(old(out)@).push(n@));
                assert(views_of(out@).to_set() =~= pre.insert(n@));
            } else {
                assert(views_of(out@).to_set() =~= pre.insert(n@));
            }
            flatten_into(b, out);
            assert(views_of(out@).to_set() =~= views_of(old(out)@).to_set().union(names_of(*a)));
        }
        ReAst::CaptureIndexed(b) => {
            flatten_into(b, out);
        }
        ReAst::NonCapturing(b) => {
            flatten_into(b, out);
        }
        ReAst::Concat(cs) => {
            flatten_list_into(cs, out);
        }
        ReAst::Alternation(cs) => {
            flatten_list_into(cs, out);
        }
    }
}

/// Appends the named capture groups of every element of `cs` to `out`.
fn flatten_list_into(cs: &Vec<ReAst>, out: &mut Vec<String>)
    ensures
        views_of(final(out)@).to_set() == views_of(old(out)@).to_set().union(names_of_list(cs@)),
        distinct_views(views_of(old(out)@)) ==> distinct_views(views_of(final(out)@)),
    decreases cs@,
{
    let mut i: usize = 0;
    while i < cs.len()
        invariant
            0 <= i <= cs.len(),
            views_of(out@).to_set() == views_of(old(out)@).to_set().union(names_of_list(cs@.take(i as int))),
            distinct_views(views_of(old(out)@)) ==> distinct_views(views_of(out@)),
        decreases cs.len() - i,
    {
        flatten_into(&cs[i], out);
        proof {
            assert(cs@.take(i + 1).drop_last() =~= cs@.take(i as int));
            assert(cs@.take(i + 1).last() == cs@[i as int]);
            assert(views_of(out@).to_set() =~= views_of(old(out)@).to_set().union(
                names_of_list(cs@.take(i + 1)),
            ));
        }
        i += 1;
    }
    assert(cs@.take(cs@.len() as int) =~= cs@);
}

/// The abstract syntax tree type of the outside regex parser; opaque here,
/// carried only between its parser and `convert_ast`.
#[verifier::external_type_specification]
#[verifier::external_body]
pub struct ExOutsideAst(rast::Ast);

/// Whether `p` is a well-formed regular expression under the grammar of the
/// regex parser in use. Names the success of
/// `regex_syntax::ast::parse::Parser::parse`, which depends on the pattern
/// text alone.
pub uninterp spec fn parse_ok(p: Seq<char>) -> bool;

/// The set of named capture groups of the tree that
/// `regex_syntax::ast::parse::Parser::parse` returns for `p`. The parser is
/// deterministic in the pattern text alone, so this names one aspect of its
/// result: which group names the pattern declares, at any nesting depth.
pub uninterp spec fn captures_of(p: Seq<char>) -> Set<Seq<char>>;

/// Relies on `regex_syntax::ast::parse::Parser::parse`: it returns `Ok` iff
/// the pattern is a well-formed regex, its result is determined by the
/// pattern text alone, and the tree it returns is the pattern's abstract
/// syntax, handed over node for node by `convert_ast` — in particular its
/// named-capture set is the pattern's own, `captures_of(p@)`.
#[verifier::external_body]
pub(crate) fn parse_pattern(p: &str) -> (r: Option<ReAst>)
    ensures
        r is Some <==> parse_ok(p@),
        r matches Some(a) ==> names_of(a) == captures_of(p@),
{
    rast::parse::Parser::new().parse(p).ok().map(|a| convert_ast(&a))
}

/// Relies on the shape of `regex_syntax::ast::Ast`: each node is carried over
/// one for one, keeping group structure and capture names; every node kind
/// that declares no capture group and holds no sub-expression becomes `Leaf`.
#[verifier::external_body]
fn convert_ast(a: &Ast) -> (r: ReAst) {
    match a {
        Ast::Repetition(p) => ReAst::Repetition(Box::new(convert_ast(&p.ast))),
        Ast::Group(g) => {
            let c = Box::new(convert_ast(&g.ast));
            match &g.kind {
                GroupKind::CaptureName { name, .. } => ReAst::CaptureNamed(name.name.clone(), c),
                GroupKind::CaptureIndex(_) => ReAst::CaptureIndexed(c),
                GroupKind::NonCapturing(_) => ReAst::NonCapturing(c),
            }
        }
        Ast::Concat(c) => ReAst::Concat(c.asts.iter().map(convert_ast).collect()),
        Ast::Alternation(c) => ReAst::Alternation(c.asts.iter().map(convert_ast).collect()),
        _ => ReAst::Leaf,
    }
}

/// The flattened capture set of one pattern structure: exactly the named
/// groups of `a`, each listed once.
pub fn flatten(a: &ReAst) -> (r: Vec<String>)
    ensures
        views_of(r@).to_set() == names_of(*a),
        distinct_views(views_of(r@)),
{
    let mut out: Vec<String> = Vec::new();
    flatten_into(a, &mut out);
    proof {
        assert(views_of(out@).to_set() =~= names_of(*a));
    }
    out
}

/// The error of the pattern analyzer: the pattern is not a well-formed
/// regular expression.
#[derive(Debug, PartialEq, Eq, Structural)]
pub struct PatternError;

/// The pattern analyzer: parses `pattern` and returns its flattened capture
/// set — every named group the pattern declares, at any nesting depth, each
/// listed once. Fails exactly when `pattern` is not a well-formed regex.
pub fn analyze(pattern: &str) -> (r: Result<Vec<String>, PatternError>)
    ensures
        r is Ok <==> parse_ok(pattern@),
        r matches Ok(names) ==> views_of(names@).to_set() == captures_of(pattern@)
            && distinct_views(views_of(names@)),
{
    match parse_pattern(pattern) {
        Some(a) => Ok(flatten(&a)),
        None => Err(PatternError),
    }
}

} // verus!
