//! The dispatcher: building a validated dispatch unit from an arm list, and
//! evaluating it against a subject text with first-match-wins semantics.

use vstd::prelude::*;
use crate::analyzer::{captures_of, distinct_views, flatten, parse_pattern, views_of};
use crate::arms::{
    arm_is_default, arm_pattern, arm_pieces, arms_ok, build_error_spec, is_default_arm, pattern_ok,
    structure_ok, Arm, BuildError, Piece,
};
use crate::binder::{binding_views, lemma_lookup_tabulated, lookup_spec, render, render_spec};
use crate::engine::{capture_value, compile_pattern, read_captures, regex_match, CompiledPattern};

verus! {

/// One try-step of a dispatch unit: a pattern arm with its one-time-compiled
/// pattern, its flattened capture names, and its handler template.
struct TryStep {
    pattern: String,
    compiled: CompiledPattern,
    names: Vec<String>,
    pieces: Vec<Piece>,
}

impl TryStep {
    /// The step's stored compiled form and names belong to its pattern: the
    /// names are exactly the named capture groups the pattern declares.
    spec fn wf_step(self) -> bool {
        &&& self.compiled.source_chars() == self.pattern@
        &&& views_of(self.names@).to_set() == captures_of(self.pattern@)
        &&& distinct_views(views_of(self.names@))
        &&& pattern_ok(self.pattern@)
    }
}

/// A validated dispatch unit: an ordered chain of try-steps and the handler
/// template of the trailing default arm. Every pattern is compiled exactly
/// once, when the unit is built; evaluation reuses the stored compiled
/// patterns and never compiles again.
pub struct DispatchUnit {
    steps: Vec<TryStep>,
    fallback: Vec<Piece>,
}

/// The outcome of selecting an arm for one subject text: the index of the
/// winning arm (the number of pattern arms when the default arm wins) and
/// the binding set of the winning pattern's capture names.
pub struct Selection {
    pub index: usize,
    pub bindings: Vec<(String, String)>,
}

impl DispatchUnit {
    /// How many pattern arms the unit holds.
    pub closed spec fn n_steps(self) -> int {
        self.steps@.len() as int
    }

    /// The pattern text of pattern arm `i`.
    pub closed spec fn pattern_at(self, i: int) -> Seq<char> {
        self.steps@[i].pattern@
    }

    /// The capture names pattern arm `i` binds, each listed once.
    pub closed spec fn names_at(self, i: int) -> Seq<Seq<char>> {
        views_of(self.steps@[i].names@)
    }

    /// The handler template of pattern arm `i`.
    pub closed spec fn pieces_at(self, i: int) -> Seq<Piece> {
        self.steps@[i].pieces@
    }

    /// The handler template of the default arm.
    pub closed spec fn fallback_pieces(self) -> Seq<Piece> {
        self.fallback@
    }

    /// Every step's stored data belongs to its pattern.
    pub closed spec fn wf(self) -> bool {
        forall|i: int| 0 <= i < self.steps@.len() ==> (#[trigger] self.steps@[i]).wf_step()
    }

    /// The unit holds exactly the arms of `arms`: one try-step per pattern
    /// arm, in order, and the last arm's handler as the default template.
    pub open spec fn models(self, arms: Seq<Arm>) -> bool {
        &&& arms_ok(arms)
        &&& self.n_steps() == arms.len() - 1
        &&& forall|i: int|
            0 <= i < self.n_steps() ==> #[trigger] self.pattern_at(i) == arm_pattern(arms[i])
                && self.pieces_at(i) == arm_pieces(arms[i])
        &&& self.fallback_pieces() == arm_pieces(arms.last())
    }

    /// In a well-formed unit, arm `i`'s binding names are distinct and are
    /// exactly the named capture groups its own pattern declares, and both
    /// the regex grammar and the engine accept that pattern.
    pub proof fn lemma_wf_names(self, i: int)
        requires
            self.wf(),
            0 <= i < self.n_steps(),
        ensures
            distinct_views(self.names_at(i)),
            self.names_at(i).to_set() == captures_of(self.pattern_at(i)),
            pattern_ok(self.pattern_at(i)),
    {
    }

    /// The first matching arm at or after `i`: the least `k >= i` whose
    /// pattern matches `t`, or the index of the default arm when none does.
    pub open spec fn winner_from(self, t: Seq<char>, i: int) -> int
        decreases self.n_steps() - i,
    {
        if i < 0 || i >= self.n_steps() {
            self.n_steps()
        } else if regex_match(self.pattern_at(i), t) is Some {
            i
        } else {
            self.winner_from(t, i + 1)
        }
    }

    /// The arm that wins for subject `t`: the first pattern arm whose
    /// pattern matches, or the default arm when none matches.
    pub open spec fn winner(self, t: Seq<char>) -> int {
        self.winner_from(t, 0)
    }

    /// The binding set of pattern arm `i` for subject `t`: each capture
    /// name paired with the substring the engine bound it to (empty for a
    /// group absent from the match).
    pub open spec fn bindings_at(self, t: Seq<char>, i: int) -> Seq<(Seq<char>, Seq<char>)> {
        Seq::new(
            self.names_at(i).len(),
            |j: int| (self.names_at(i)[j], capture_value(self.pattern_at(i), t, self.names_at(i)[j])),
        )
    }

    /// What a handler sees for capture name `n` at pattern arm `i`: the
    /// engine's value for `n` when the arm's pattern declares that group,
    /// and the empty string when it does not.
    pub proof fn lemma_bindings_value(self, t: Seq<char>, i: int, n: Seq<char>)
        requires
            0 <= i < self.n_steps(),
        ensures
            lookup_spec(self.bindings_at(t, i), n) == if self.names_at(i).contains(n) {
                capture_value(self.pattern_at(i), t, n)
            } else {
                Seq::<char>::empty()
            },
    {
        let f = |m: Seq<char>| capture_value(self.pattern_at(i), t, m);
        lemma_lookup_tabulated(self.names_at(i), f, n);
        assert(self.bindings_at(t, i) =~= Seq::new(
            self.names_at(i).len(),
            |j: int| (self.names_at(i)[j], f(self.names_at(i)[j])),
        ));
    }

    /// The dispatch result for subject `t`: the winning arm's handler
    /// template rendered against that arm's binding set; the default arm's
    /// template renders with no bindings.
    pub open spec fn dispatch_result(self, t: Seq<char>) -> Seq<char> {
        let w = self.winner(t);
        if w < self.n_steps() {
            render_spec(self.pieces_at(w), self.bindings_at(t, w))
        } else {
            render_spec(self.fallback_pieces(), Seq::empty())
        }
    }

    /// Skipping arms that do not match does not change the winner.
    proof fn lemma_winner_advance(self, t: Seq<char>, i: int)
        requires
            0 <= i <= self.n_steps(),
            forall|k: int| 0 <= k < i ==> regex_match(#[trigger] self.pattern_at(k), t) is None,
        ensures
            self.winner(t) == self.winner_from(t, i),
        decreases i,
    {
        if i > 0 {
            self.lemma_winner_advance(t, i - 1);
        }
    }

    /// The selected arm is the first whose pattern matches the subject:
    /// every arm before it fails to match, and when it is not the default
    /// arm its own pattern matches.
    pub proof fn lemma_winner_props(self, t: Seq<char>)
        ensures
            0 <= self.winner(t) <= self.n_steps(),
            forall|k: int|
                0 <= k < self.winner(t) ==> regex_match(#[trigger] self.pattern_at(k), t) is None,
            self.winner(t) < self.n_steps() ==> regex_match(
                self.pattern_at(self.winner(t)),
                t,
            ) is Some,
    {
        self.lemma_winner_from_props(t, 0);
    }

    proof fn lemma_winner_from_props(self, t: Seq<char>, i: int)
        requires
            0 <= i <= self.n_steps(),
        ensures
            i <= self.winner_from(t, i) <= self.n_steps(),
            forall|k: int|
                i <= k < self.winner_from(t, i) ==> regex_match(
                    #[trigger] self.pattern_at(k),
                    t,
                ) is None,
            self.winner_from(t, i) < self.n_steps() ==> regex_match(
                self.pattern_at(self.winner_from(t, i)),
                t,
            ) is Some,
        decreases self.n_steps() - i,
    {
        if i < self.n_steps() && !(regex_match(self.pattern_at(i), t) is Some) {
            self.lemma_winner_from_props(t, i + 1);
        }
    }

    /// First-match-wins: when the pattern of arm `i` matches the subject,
    /// the dispatch selects an arm no later than `i` — never an arm after
    /// `i` — and the result is the selected arm's handler rendered against
    /// that arm's own binding set.
    pub proof fn lemma_first_match_wins(self, t: Seq<char>, i: int)
        requires
            0 <= i < self.n_steps(),
            regex_match(self.pattern_at(i), t) is Some,
        ensures
            self.winner(t) <= i,
            regex_match(self.pattern_at(self.winner(t)), t) is Some,
            self.dispatch_result(t) == render_spec(
                self.pieces_at(self.winner(t)),
                self.bindings_at(t, self.winner(t)),
            ),
    {
        self.lemma_winner_props(t);
        if self.winner(t) > i {
            assert(regex_match(self.pattern_at(i), t) is None);
        }
    }

    /// Builds a dispatch unit from an ordered arm list. Succeeds exactly
    /// when the list ends with its only default marker and every pattern is
    /// accepted by the regex grammar and the regex engine; otherwise reports
    /// the first fault, structural faults first.
    #[verifier::loop_isolation(false)]
    pub fn build(arms: Vec<Arm>) -> (r: Result<DispatchUnit, BuildError>)
        ensures
            r is Ok <==> arms_ok(arms@),
            r matches Ok(u) ==> u.wf() && u.models(arms@),
            r matches Err(e) ==> build_error_spec(arms@, e),
            (forall|i: int| 0 <= i < arms@.len() ==> !is_default_arm(#[trigger] arms@[i])) ==> r
                == Result::<DispatchUnit, BuildError>::Err(BuildError::MissingDefault),
            (exists|i: int| 0 <= i < arms@.len() - 1 && is_default_arm(#[trigger] arms@[i]))
                ==> (r matches Err(e) && e is MisplacedDefault),
    {
        let ghost arms0 = arms@;
        let n = arms.len();
        if n == 0 {
            return Err(BuildError::MissingDefault);
        }
        let mut i: usize = 0;
        while i + 1 < n
            invariant
                0 <= i < n,
                n == arms0.len(),
                arms@ == arms0,
                forall|k: int| 0 <= k < i ==> !is_default_arm(#[trigger] arms0[k]),
            decreases n - i,
        {
            if arm_is_default(&arms[i]) {
                return Err(BuildError::MisplacedDefault(i));
            }
            i += 1;
        }
        if !arm_is_default(&arms[n - 1]) {
            return Err(BuildError::MissingDefault);
        }
        assert(structure_ok(arms0));

        let mut steps: Vec<TryStep> = Vec::new();
        let mut rest = arms;
        let mut idx: usize = 0;
        proof {
            assert(rest@ =~= arms0.skip(0));
        }
        while idx + 1 < n
            invariant
                0 <= idx < n,
                n == arms0.len(),
                structure_ok(arms0),
                rest@ == arms0.skip(idx as int),
                steps@.len() == idx,
                forall|j: int| 0 <= j < idx ==> (#[trigger] steps@[j]).wf_step(),
                forall|j: int|
                    0 <= j < idx ==> (#[trigger] steps@[j]).pattern@ == arm_pattern(arms0[j])
                        && steps@[j].pieces@ == arm_pieces(arms0[j]),
                forall|j: int| 0 <= j < idx ==> pattern_ok(arm_pattern(#[trigger] arms0[j])),
            decreases n - idx,
        {
            proof {
                assert(rest@[0] == arms0[idx as int]);
                assert(rest@.remove(0) =~= arms0.skip(idx + 1));
            }
            let arm = rest.remove(0);
            match arm {
                Arm::Pattern(p, h) => {
                    match parse_pattern(p.as_str()) {
                        None => {
                            return Err(BuildError::PatternSyntax(idx));
                        }
                        Some(tree) => {
                            let names = flatten(&tree);
                            match compile_pattern(p.as_str()) {
                                None => {
                                    return Err(BuildError::PatternSyntax(idx));
                                }
                                Some(compiled) => {
                                    steps.push(
                                        TryStep { pattern: p, compiled, names, pieces: h },
                                    );
                                }
                            }
                        }
                    }
                }
                Arm::DefaultMarker(_) => {
                    proof {
                        assert(false);
                    }
                }
            }
            idx += 1;
        }
        proof {
            assert(rest@[0] == arms0[idx as int]);
            assert(arms0[idx as int] == arms0.last());
        }
        let last = rest.remove(0);
        let fallback = match last {
            Arm::DefaultMarker(h) => h,
            Arm::Pattern(_, _) => vstd::pervasive::unreached(),
        };
        let unit = DispatchUnit { steps, fallback };
        assert(unit.models(arms0));
        Ok(unit)
    }

    /// Selects the arm for one subject text: tries each pattern arm in
    /// order against `text` and stops at the first whose pattern matches,
    /// returning its index and its binding set; when none matches, returns
    /// the default arm's index with no bindings.
    pub fn select(&self, text: &str) -> (r: Selection)
        requires
            self.wf(),
        ensures
            r.index as int == self.winner(text@),
            (r.index as int) <= self.n_steps(),
            (r.index as int) < self.n_steps() ==> binding_views(r.bindings@) == self.bindings_at(
                text@,
                r.index as int,
            ) && regex_match(self.pattern_at(r.index as int), text@) is Some,
            forall|k: int|
                0 <= k < self.winner(text@) ==> regex_match(
                    #[trigger] self.pattern_at(k),
                    text@,
                ) is None,
            (r.index as int) == self.n_steps() ==> r.bindings@ == Seq::<(String, String)>::empty(),
    {
        let mut i: usize = 0;
        while i < self.steps.len()
            invariant
                self.wf(),
                0 <= i <= self.n_steps(),
                forall|k: int|
                    0 <= k < i ==> regex_match(#[trigger] self.pattern_at(k), text@) is None,
            decreases self.steps.len() - i,
        {
            let step = &self.steps[i];
            match read_captures(&step.compiled, text, &step.names) {
                Some(vals) => {
                    let bindings = zip_bindings(&step.names, &vals);
                    proof {
                        self.lemma_winner_advance(text@, i as int);
                        assert(binding_views(bindings@) =~= self.bindings_at(text@, i as int));
                    }
                    return Selection { index: i, bindings };
                }
                None => {
                }
            }
            i += 1;
        }
        proof {
            self.lemma_winner_advance(text@, self.n_steps());
        }
        Selection { index: i, bindings: Vec::new() }
    }

    /// Evaluates the unit on one subject text: the winning arm's handler
    /// template rendered against its binding set. A built unit always
    /// produces a result: when no pattern matches, the default arm's
    /// handler renders with no bindings.
    pub fn eval(&self, text: &str) -> (r: String)
        requires
            self.wf(),
        ensures
            r@ == self.dispatch_result(text@),
    {
        let sel = self.select(text);
        if sel.index < self.steps.len() {
            render(&self.steps[sel.index].pieces, &sel.bindings)
        } else {
            let none: Vec<(String, String)> = Vec::new();
            let out = render(&self.fallback, &none);
            proof {
                assert(binding_views(none@) =~= Seq::<(Seq<char>, Seq<char>)>::empty());
            }
            out
        }
    }

    /// How many pattern compilations this unit ever performs: one per
    /// pattern arm, all done when the unit was built. Evaluation never
    /// compiles, so the count is the same however often `eval` runs.
    pub fn compilations(&self) -> (r: usize)
        ensures
            r as int == self.n_steps(),
    {
        self.steps.len()
    }
}

/// Pairs each capture name with the value the engine bound it to.
fn zip_bindings(names: &Vec<String>, vals: &Vec<String>) -> (r: Vec<(String, String)>)
    requires
        vals@.len() == names@.len(),
    ensures
        r@.len() == names@.len(),
        forall|j: int|
            0 <= j < names@.len() ==> (#[trigger] r@[j]).0@ == views_of(names@)[j] && r@[j].1@
                == views_of(vals@)[j],
{
    let mut r: Vec<(String, String)> = Vec::new();
    let mut j: usize = 0;
    while j < names.len()
        invariant
            0 <= j <= names@.len(),
            vals@.len() == names@.len(),
            r@.len() == j,
            forall|k: int|
                0 <= k < j ==> (#[trigger] r@[k]).0@ == views_of(names@)[k] && r@[k].1@
                    == views_of(vals@)[k],
        decreases names.len() - j,
    {
        r.push((names[j].clone(), vals[j].clone()));
        j += 1;
    }
    r
}

/// Builds a dispatch unit from `arms` and evaluates it once on `subject`.
/// Construction faults are reported exactly as from `DispatchUnit::build`;
/// on success the result is the built unit's dispatch result for `subject`.
pub fn reg_match(subject: &str, arms: Vec<Arm>) -> (r: Result<String, BuildError>)
    ensures
        r is Ok <==> arms_ok(arms@),
        r matches Err(e) ==> build_error_spec(arms@, e),
        r matches Ok(s) ==> exists|u: DispatchUnit|
            u.wf() && u.models(arms@) && s@ == u.dispatch_result(subject@),
{
    let ghost arms0 = arms@;
    match DispatchUnit::build(arms) {
        Ok(unit) => {
            let out = unit.eval(subject);
            proof {
                assert(unit.wf() && unit.models(arms0) && out@ == unit.dispatch_result(subject@));
                assert(exists|u: DispatchUnit|
                    u.wf() && u.models(arms0) && out@ == u.dispatch_result(subject@));
            }
            Ok(out)
        }
        Err(e) => Err(e),
    }
}

} // verus!
