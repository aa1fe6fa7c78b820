//! A regex-dispatch construct: an ordered list of (pattern, handler) arms
//! with a mandatory trailing default arm is built once into a `DispatchUnit`,
//! which matches a subject text against each pattern in order, binds the
//! named capture groups of the first pattern that matches, and renders that
//! arm's handler as the result.

mod analyzer;
mod arms;
mod binder;
mod dispatch;
mod engine;

pub use analyzer::{
    analyze, captures_of, distinct_views, flatten, names_of, names_of_list, parse_ok, views_of,
    PatternError, ReAst,
};
pub use arms::{
    arm_pattern, arm_pieces, arms_ok, build_error_spec, is_default_arm, pattern_ok, structure_ok,
    Arm, BuildError, Piece,
};
pub use binder::{binding_views, lookup, lookup_spec, piece_value, render, render_spec};
pub use dispatch::{reg_match, DispatchUnit, Selection};
pub use engine::{capture_value, compiles_ok, regex_match, CompiledPattern};
