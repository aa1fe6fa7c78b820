use reg_match::{Arm, BuildError, DispatchUnit, Piece};

fn pat(p: &str, pieces: Vec<Piece>) -> Arm {
    Arm::Pattern(p.to_string(), pieces)
}

fn lit(s: &str) -> Piece {
    Piece::Lit(s.to_string())
}

fn var(n: &str) -> Piece {
    Piece::Var(n.to_string())
}

#[test]
fn one_group() {
    let e = "1";
    let unit = DispatchUnit::build(vec![
        pat(r"(?<b>\d)", vec![var("b")]),
        pat("2", vec![lit("2")]),
        Arm::DefaultMarker(vec![lit("0")]),
    ])
    .unwrap();
    let a = unit.eval(e);
    assert_eq!("1", a);
}

#[test]
fn two_group() {
    let input = "123abc";
    let unit = DispatchUnit::build(vec![
        pat(
            r"(?<digits>\d+)(?<letters>.+)",
            vec![var("letters"), lit("-"), var("digits")],
        ),
        Arm::DefaultMarker(vec![lit("")]),
    ])
    .unwrap();
    let output = unit.eval(input);
    assert_eq!("abc-123", output);
}

#[test]
fn nested_group() {
    let e = "123abc";
    let unit = DispatchUnit::build(vec![
        pat(r"(?<b>\d+(?<c>.+))", vec![var("b"), lit("-"), var("c")]),
        pat("2", vec![lit("2")]),
        Arm::DefaultMarker(vec![lit("0")]),
    ])
    .unwrap();
    let a = unit.eval(e);
    assert_eq!("123abc-abc", a);
}

#[test]
fn second_arm() {
    let e = "123abc";
    let unit = DispatchUnit::build(vec![
        pat("4", vec![lit("4")]),
        pat(r"(?<b>\d+(?<c>.+))", vec![var("b"), lit("-"), var("c")]),
        Arm::DefaultMarker(vec![lit("0")]),
    ])
    .unwrap();
    let a = unit.eval(e);
    assert_eq!("123abc-abc", a);
}

#[test]
fn no_default_arm() {
    let r = DispatchUnit::build(vec![
        pat("4", vec![lit("4")]),
        pat(r"(?<b>\d+(?<c>.+))", vec![var("b"), lit("-"), var("c")]),
    ]);
    assert!(matches!(r, Err(BuildError::MissingDefault)));
}

#[derive(PartialEq, Debug)]
struct Email {
    username: String,
    domain: String,
}

#[derive(PartialEq, Debug)]
enum Account {
    Phone(String),
    Email(Email),
    Invalid,
}

fn bound(bindings: &[(String, String)], name: &str) -> String {
    bindings
        .iter()
        .find(|(n, _)| n == name)
        .map(|(_, v)| v.clone())
        .unwrap_or_default()
}

fn match_account(input: &str) -> Account {
    let unit = DispatchUnit::build(vec![
        pat(r"(?<name>.+)@(?<domain>.+)", vec![]),
        pat(r"(?<phone>\d{6,11})", vec![]),
        Arm::DefaultMarker(vec![]),
    ])
    .unwrap();
    let sel = unit.select(input);
    match sel.index {
        0 => Account::Email(Email {
            username: bound(&sel.bindings, "name"),
            domain: bound(&sel.bindings, "domain"),
        }),
        1 => Account::Phone(bound(&sel.bindings, "phone")),
        _ => Account::Invalid,
    }
}

#[test]
fn match_enum() {
    assert_eq!(
        Account::Email(Email {
            username: "abc".to_string(),
            domain: "email.com".to_string()
        }),
        match_account("abc@email.com")
    );
    assert_eq!(
        Account::Phone("66668888".to_string()),
        match_account("66668888")
    );
    assert_eq!(Account::Invalid, match_account("abc123"));
}
