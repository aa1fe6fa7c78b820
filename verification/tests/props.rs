use reg_match::{analyze, flatten, reg_match, Arm, BuildError, DispatchUnit, Piece, ReAst};

fn pat(p: &str, pieces: Vec<Piece>) -> Arm {
    Arm::Pattern(p.to_string(), pieces)
}

fn lit(s: &str) -> Piece {
    Piece::Lit(s.to_string())
}

fn var(n: &str) -> Piece {
    Piece::Var(n.to_string())
}

#[test]
fn valid_arm_list_builds() {
    let r = DispatchUnit::build(vec![
        pat(r"\d+", vec![lit("number")]),
        pat(r"[a-z]+", vec![lit("word")]),
        Arm::DefaultMarker(vec![lit("other")]),
    ]);
    assert!(r.is_ok());
}

#[test]
fn default_only_builds() {
    let unit = DispatchUnit::build(vec![Arm::DefaultMarker(vec![lit("d")])]).unwrap();
    assert_eq!("d", unit.eval("anything"));
    assert_eq!(0, unit.compilations());
}

#[test]
fn empty_arm_list_missing_default() {
    let r = DispatchUnit::build(vec![]);
    assert!(matches!(r, Err(BuildError::MissingDefault)));
}

#[test]
fn misplaced_default_first() {
    let r = DispatchUnit::build(vec![
        Arm::DefaultMarker(vec![lit("0")]),
        pat("2", vec![lit("2")]),
    ]);
    assert!(matches!(r, Err(BuildError::MisplacedDefault(0))));
}

#[test]
fn misplaced_default_middle() {
    let r = DispatchUnit::build(vec![
        pat("1", vec![lit("1")]),
        Arm::DefaultMarker(vec![lit("0")]),
        pat("2", vec![lit("2")]),
    ]);
    assert!(matches!(r, Err(BuildError::MisplacedDefault(1))));
}

#[test]
fn two_defaults_rejected() {
    let r = DispatchUnit::build(vec![
        Arm::DefaultMarker(vec![lit("a")]),
        Arm::DefaultMarker(vec![lit("b")]),
    ]);
    assert!(matches!(r, Err(BuildError::MisplacedDefault(0))));
}

#[test]
fn bad_pattern_rejected_at_build() {
    let r = DispatchUnit::build(vec![
        pat("ok", vec![lit("x")]),
        pat("(?<b>", vec![var("b")]),
        Arm::DefaultMarker(vec![lit("0")]),
    ]);
    assert!(matches!(r, Err(BuildError::PatternSyntax(1))));
}

#[test]
fn first_match_wins_when_both_match() {
    let unit = DispatchUnit::build(vec![
        pat("a", vec![lit("first")]),
        pat("ab", vec![lit("second")]),
        Arm::DefaultMarker(vec![lit("none")]),
    ])
    .unwrap();
    assert_eq!("first", unit.eval("ab"));
}

#[test]
fn memoized_compilation_count_stable() {
    let unit = DispatchUnit::build(vec![
        pat(r"(?<b>\d)", vec![var("b")]),
        pat("2", vec![lit("2")]),
        Arm::DefaultMarker(vec![lit("0")]),
    ])
    .unwrap();
    assert_eq!(2, unit.compilations());
    let first = unit.eval("1");
    for _ in 0..10 {
        assert_eq!(first, unit.eval("1"));
        unit.eval("zzz");
        assert_eq!(2, unit.compilations());
    }
}

#[test]
fn analyze_nested_groups() {
    let names = analyze(r"(?<b>\d+(?<c>.+))").unwrap();
    assert_eq!(vec!["b".to_string(), "c".to_string()], names);
}

#[test]
fn analyze_rejects_bad_pattern() {
    assert!(analyze("(").is_err());
}

#[test]
fn flatten_walks_every_construct() {
    let tree = ReAst::Concat(vec![
        ReAst::CaptureNamed(
            "a".to_string(),
            Box::new(ReAst::Repetition(Box::new(ReAst::CaptureNamed(
                "b".to_string(),
                Box::new(ReAst::Leaf),
            )))),
        ),
        ReAst::Alternation(vec![
            ReAst::CaptureIndexed(Box::new(ReAst::CaptureNamed(
                "c".to_string(),
                Box::new(ReAst::Leaf),
            ))),
            ReAst::NonCapturing(Box::new(ReAst::CaptureNamed(
                "a".to_string(),
                Box::new(ReAst::Leaf),
            ))),
        ]),
        ReAst::Leaf,
    ]);
    let names = flatten(&tree);
    assert_eq!(
        vec!["a".to_string(), "b".to_string(), "c".to_string()],
        names
    );
}

#[test]
fn non_participating_group_is_empty() {
    let unit = DispatchUnit::build(vec![
        pat(r"(?<x>foo)|(?<y>bar)", vec![var("x"), lit("|"), var("y")]),
        Arm::DefaultMarker(vec![lit("none")]),
    ])
    .unwrap();
    assert_eq!("|bar", unit.eval("bar"));
    assert_eq!("foo|", unit.eval("foo"));
    assert_eq!("none", unit.eval("quux"));
}

#[test]
fn unknown_capture_renders_empty() {
    let unit = DispatchUnit::build(vec![
        pat("x", vec![lit("<"), var("nope"), lit(">")]),
        Arm::DefaultMarker(vec![lit("d")]),
    ])
    .unwrap();
    assert_eq!("<>", unit.eval("x"));
}

#[test]
fn select_reports_default_index() {
    let unit = DispatchUnit::build(vec![
        pat("a", vec![]),
        pat("b", vec![]),
        Arm::DefaultMarker(vec![]),
    ])
    .unwrap();
    let sel = unit.select("zzz");
    assert_eq!(2, sel.index);
    assert!(sel.bindings.is_empty());
}

#[test]
fn one_shot_dispatch() {
    let r = reg_match(
        "1",
        vec![
            pat(r"(?<b>\d)", vec![var("b")]),
            pat("2", vec![lit("2")]),
            Arm::DefaultMarker(vec![lit("0")]),
        ],
    );
    assert_eq!(Ok("1".to_string()), r);
}

#[test]
fn one_shot_reports_build_errors() {
    let r = reg_match("1", vec![pat("2", vec![lit("2")])]);
    assert_eq!(Err(BuildError::MissingDefault), r);
}
