//! The regex engine boundary: compiling a pattern once into its engine form,
//! and attempting a compiled pattern against a subject text.

use vstd::prelude::*;
use crate::analyzer::views_of;

verus! {

/// The engine's compiled regex type; opaque to verification.
#[verifier::external_type_specification]
#[verifier::external_body]
pub struct ExRegex(regex::Regex);

/// Whether the regex engine accepts `p` as a pattern. Names the success of
/// `regex::Regex::new`, which depends on the pattern text alone.
pub uninterp spec fn compiles_ok(p: Seq<char>) -> bool;

/// The engine's answer for pattern `p` against text `t`: `None` when `p` does
/// not match `t`, otherwise the table of the named capture groups that
/// participated in the match, each mapped to the substring it matched. Names
/// the result of `regex::Regex::captures`, which depends on the pattern and
/// the text alone.
pub uninterp spec fn regex_match(p: Seq<char>, t: Seq<char>) -> Option<Map<Seq<char>, Seq<char>>>;

/// The substring bound to group `n` when `p` matches `t`: empty when the
/// group did not participate in the match (or is no group of `p` at all).
pub open spec fn capture_value(p: Seq<char>, t: Seq<char>, n: Seq<char>) -> Seq<char> {
    match regex_match(p, t) {
        Some(table) => {
            if table.contains_key(n) {
                table[n]
            } else {
                Seq::empty()
            }
        }
        None => Seq::empty(),
    }
}

/// A pattern string together with its one-time-compiled engine form.
pub struct CompiledPattern {
    source: String,
    engine: regex::Regex,
}

impl CompiledPattern {
    /// The pattern text this value was compiled from.
    pub closed spec fn source_chars(self) -> Seq<char> {
        self.source@
    }
}

/// Relies on `regex::Regex::new`: it succeeds or fails on the pattern text
/// alone, and the compiled value matches as that pattern.
#[verifier::external_body]
pub(crate) fn compile_pattern(p: &str) -> (r: Option<CompiledPattern>)
    ensures
        r is Some <==> compiles_ok(p@),
        r matches Some(c) ==> c.source_chars() == p@,
{
    match regex::Regex::new(p) {
        Ok(engine) => Some(CompiledPattern { source: p.to_owned(), engine }),
        Err(_) => None,
    }
}

/// Relies on `regex::Regex::captures`, which answers `Some` exactly when the
/// pattern matches the text, and on `regex::Captures::name`, which gives the
/// substring of a participating named group and `None` for an absent one;
/// an absent group is read back here as the empty string.
#[verifier::external_body]
pub(crate) fn read_captures(c: &CompiledPattern, text: &str, names: &Vec<String>) -> (r: Option<
    Vec<String>,
>)
    ensures
        r is Some <==> regex_match(c.source_chars(), text@) is Some,
        r matches Some(vals) ==> vals@.len() == names@.len() && forall|i: int|
            0 <= i < names@.len() ==> views_of(vals@)[i] == capture_value(
                c.source_chars(),
                text@,
                views_of(names@)[i],
            ),
{
    let caps = c.engine.captures(text)?;
    Some(names.iter().map(|n| caps.name(n).map_or("", |m| m.as_str()).to_owned()).collect())
}

} // verus!
