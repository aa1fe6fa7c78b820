//! The capture binder: a binding set maps capture-group names to the
//! substrings they matched, and a handler template is rendered against one
//! binding set.

use vstd::prelude::*;
use vstd::string::StringExecFns;
use crate::arms::Piece;

verus! {

/// The character sequences of a sequence of (name, value) string pairs.
pub open spec fn binding_views(b: Seq<(String, String)>) -> Seq<(Seq<char>, Seq<char>)> {
    b.map_values(|p: (String, String)| (p.0@, p.1@))
}

/// The value bound to `n`: the value of the first pair whose name is `n`,
/// or empty when no pair names it.
pub open spec fn lookup_spec(b: Seq<(Seq<char>, Seq<char>)>, n: Seq<char>) -> Seq<char>
    decreases b.len(),
{
    if b.len() == 0 {
        Seq::empty()
    } else if b[0].0 == n {
        b[0].1
    } else {
        lookup_spec(b.drop_first(), n)
    }
}

/// The text one template piece contributes: literal text itself, a capture
/// reference the value bound to its name.
pub open spec fn piece_value(p: Piece, b: Seq<(Seq<char>, Seq<char>)>) -> Seq<char> {
    match p {
        Piece::Lit(s) => s@,
        Piece::Var(n) => lookup_spec(b, n@),
    }
}

/// A handler template rendered against a binding set: the concatenation of
/// its pieces' texts, in order.
pub open spec fn render_spec(pieces: Seq<Piece>, b: Seq<(Seq<char>, Seq<char>)>) -> Seq<char>
    decreases pieces.len(),
{
    if pieces.len() == 0 {
        Seq::empty()
    } else {
        render_spec(pieces.drop_last(), b) + piece_value(pieces.last(), b)
    }
}

/// Looking a name up in a tabulated binding set — each name paired with a
/// value computed from that name — gives the computed value when the name is
/// present and the empty string when it is not.
pub proof fn lemma_lookup_tabulated(
    names: Seq<Seq<char>>,
    f: spec_fn(Seq<char>) -> Seq<char>,
    n: Seq<char>,
)
    ensures
        lookup_spec(Seq::new(names.len(), |j: int| (names[j], f(names[j]))), n) == if names.contains(
            n,
        ) {
            f(n)
        } else {
            Seq::<char>::empty()
        },
    decreases names.len(),
{
    let b = Seq::new(names.len(), |j: int| (names[j], f(names[j])));
    if names.len() == 0 {
        assert(!names.contains(n));
    } else if names[0] == n {
        assert(names.contains(n));
    } else {
        let rest = names.drop_first();
        lemma_lookup_tabulated(rest, f, n);
        assert(b.drop_first() =~= Seq::new(rest.len(), |j: int| (rest[j], f(rest[j]))));
        if names.contains(n) {
            let w = choose|w: int| 0 <= w < names.len() && names[w] == n;
            assert(rest[w - 1] == n);
            assert(rest.contains(n));
        }
        if rest.contains(n) {
            let w = choose|w: int| 0 <= w < rest.len() && rest[w] == n;
            assert(names[w + 1] == n);
            assert(names.contains(n));
        }
    }
}

/// The value bound to `name` in `bindings`, or the empty string.
pub fn lookup(bindings: &Vec<(String, String)>, name: &String) -> (r: String)
    ensures
        r@ == lookup_spec(binding_views(bindings@), name@),
{
    let ghost all = binding_views(bindings@);
    assert(all.skip(0) =~= all);
    let mut i: usize = 0;
    while i < bindings.len()
        invariant
            0 <= i <= bindings.len(),
            all == binding_views(bindings@),
            lookup_spec(all, name@) == lookup_spec(all.skip(i as int), name@),
        decreases bindings.len() - i,
    {
        proof {
            assert(all.skip(i as int)[0] == all[i as int]);
            assert(all.skip(i as int).drop_first() =~= all.skip(i + 1));
        }
        if bindings[i].0 == *name {
            return bindings[i].1.clone();
        }
        i += 1;
    }
    assert(all.skip(bindings@.len() as int) =~= Seq::<(Seq<char>, Seq<char>)>::empty());
    String::new()
}

/// Renders a handler template against a binding set: literal pieces are
/// copied through, capture pieces contribute the value bound to their name,
/// the empty string when the name is unbound.
pub fn render(pieces: &Vec<Piece>, bindings: &Vec<(String, String)>) -> (r: String)
    ensures
        r@ == render_spec(pieces@, binding_views(bindings@)),
{
    let ghost b = binding_views(bindings@);
    let mut acc = String::new();
    let mut i: usize = 0;
    while i < pieces.len()
        invariant
            0 <= i <= pieces.len(),
            b == binding_views(bindings@),
            acc@ == render_spec(pieces@.take(i as int), b),
        decreases pieces.len() - i,
    {
        proof {
            assert(pieces@.take(i + 1).drop_last() =~= pieces@.take(i as int));
            assert(pieces@.take(i + 1).last() == pieces@[i as int]);
        }
        match &pieces[i] {
            Piece::Lit(s) => {
                acc.append(s.as_str());
            }
            Piece::Var(n) => {
                let v = lookup(bindings, n);
                acc.append(v.as_str());
            }
        }
        i += 1;
    }
    assert(pieces@.take(pieces@.len() as int) =~= pieces@);
    acc
}

} // verus!
