//! The arm list handed to the dispatcher builder: pattern arms, the default
//! marker arm, handler templates, and the structural rules an arm list must
//! meet.

use vstd::prelude::*;
use crate::analyzer::parse_ok;
use crate::engine::compiles_ok;

verus! {

/// A piece of a handler template: literal text, or the value bound to a
/// named capture group of the arm's own pattern (empty if the group is
/// absent from the match).
pub enum Piece {
    Lit(String),
    Var(String),
}

/// One arm of a dispatch unit: a regular-expression pattern with a handler
/// template, or the default marker with its handler template.
pub enum Arm {
    Pattern(String, Vec<Piece>),
    DefaultMarker(Vec<Piece>),
}

/// Why an arm list was rejected when a dispatch unit was built. Each error
/// is raised at construction time, before any subject text is processed.
#[derive(Debug, PartialEq, Eq, Structural)]
pub enum BuildError {
    /// No arm is a default marker.
    MissingDefault,
    /// The arm at this position is a default marker but is not the final arm.
    MisplacedDefault(usize),
    /// The pattern of the arm at this position is rejected by the regex
    /// engine.
    PatternSyntax(usize),
}

/// Whether the arm is the default marker.
pub open spec fn is_default_arm(a: Arm) -> bool {
    a is DefaultMarker
}

/// The pattern text of a pattern arm (the default marker has none).
pub open spec fn arm_pattern(a: Arm) -> Seq<char> {
    match a {
        Arm::Pattern(p, _) => p@,
        Arm::DefaultMarker(_) => Seq::empty(),
    }
}

/// The handler template of the arm.
pub open spec fn arm_pieces(a: Arm) -> Seq<Piece> {
    match a {
        Arm::Pattern(_, h) => h@,
        Arm::DefaultMarker(h) => h@,
    }
}

/// The structural rule on an arm list: exactly one default marker, in the
/// final position.
pub open spec fn structure_ok(arms: Seq<Arm>) -> bool {
    &&& arms.len() >= 1
    &&& is_default_arm(arms.last())
    &&& forall|i: int| 0 <= i < arms.len() - 1 ==> !is_default_arm(#[trigger] arms[i])
}

/// Whether the regex grammar and the regex engine both accept the pattern.
pub open spec fn pattern_ok(p: Seq<char>) -> bool {
    parse_ok(p) && compiles_ok(p)
}

/// A buildable arm list: well-structured, with every pattern accepted.
pub open spec fn arms_ok(arms: Seq<Arm>) -> bool {
    &&& structure_ok(arms)
    &&& forall|i: int| 0 <= i < arms.len() - 1 ==> pattern_ok(arm_pattern(#[trigger] arms[i]))
}

/// The condition under which building an arm list reports error `e`: the
/// first structural fault, or else the first rejected pattern.
pub open spec fn build_error_spec(arms: Seq<Arm>, e: BuildError) -> bool {
    match e {
        BuildError::MissingDefault => forall|i: int|
            0 <= i < arms.len() ==> !is_default_arm(#[trigger] arms[i]),
        BuildError::MisplacedDefault(i) => {
            &&& 0 <= (i as int) < arms.len() - 1
            &&& is_default_arm(arms[i as int])
            &&& forall|k: int| 0 <= k < (i as int) ==> !is_default_arm(#[trigger] arms[k])
        },
        BuildError::PatternSyntax(i) => {
            &&& structure_ok(arms)
            &&& 0 <= (i as int) < arms.len() - 1
            &&& !pattern_ok(arm_pattern(arms[i as int]))
            &&& forall|k: int| 0 <= k < (i as int) ==> pattern_ok(arm_pattern(#[trigger] arms[k]))
        },
    }
}

/// Whether the arm is the default marker.
pub(crate) fn arm_is_default(a: &Arm) -> (r: bool)
    ensures
        r == is_default_arm(*a),
{
    match a {
        Arm::DefaultMarker(_) => true,
        Arm::Pattern(_, _) => false,
    }
}

} // verus!
