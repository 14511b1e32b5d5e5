use adder::compiler::{compile_expr, compile_instrs};
use adder::datatypes::{BuildError, Expr, SVal};
use adder::interpreter::{eval, parse_expr};
use adder::machine::{run_instrs, Instr};

fn sym(name: &str) -> SVal {
    SVal::Sym(name.to_string())
}

/// Executes the compiled instruction sequence of `expr` from several
/// starting accumulator values and checks that each run ends on exactly
/// the evaluator's result.
fn assert_round_trip(expr: &Expr) {
    let prog = compile_instrs(expr);
    let expected = eval(expr);
    for start in [0, 1, -1, 12345, i32::MIN, i32::MAX] {
        assert_eq!(run_instrs(&prog, start), expected);
    }
}

#[test]
fn test_round_trip_each_node_kind() {
    assert_round_trip(&Expr::Num(42));
    assert_round_trip(&Expr::Add1(Box::new(Expr::Num(-1))));
    assert_round_trip(&Expr::Sub1(Box::new(Expr::Num(0))));
    assert_round_trip(&Expr::Negate(Box::new(Expr::Num(8))));
}

#[test]
fn test_round_trip_nested() {
    let expr = Expr::Negate(Box::new(Expr::Sub1(Box::new(Expr::Add1(Box::new(
        Expr::Negate(Box::new(Expr::Num(100))),
    ))))));
    assert_round_trip(&expr);
}

#[test]
fn test_round_trip_wrapping() {
    assert_round_trip(&Expr::Add1(Box::new(Expr::Num(i32::MAX))));
    assert_round_trip(&Expr::Sub1(Box::new(Expr::Num(i32::MIN))));
    assert_round_trip(&Expr::Negate(Box::new(Expr::Num(i32::MIN))));
}

#[test]
fn test_machine_empty_program_keeps_start() {
    let prog: Vec<Instr> = vec![];
    assert_eq!(run_instrs(&prog, 37), 37);
}

#[test]
fn test_machine_single_steps() {
    assert_eq!(run_instrs(&vec![Instr::MovRax(7), Instr::AddRax1], 99), 8);
    assert_eq!(run_instrs(&vec![Instr::MovRax(7), Instr::SubRax1], 99), 6);
    assert_eq!(run_instrs(&vec![Instr::MovRax(7), Instr::NegRax], 99), -7);
}

#[test]
fn test_scenario_literal() {
    // Input 5: a literal, evaluating to 5, compiling to one load.
    let parsed = parse_expr(&SVal::Int(5)).unwrap();
    assert_eq!(parsed, Expr::Num(5));
    assert_eq!(eval(&parsed), 5);
    assert_eq!(compile_instrs(&parsed), vec![Instr::MovRax(5)]);
    assert_eq!(compile_expr(&parsed), "mov rax, 5");
}

#[test]
fn test_scenario_add1() {
    let input = SVal::List(vec![sym("add1"), SVal::Int(5)]);
    let parsed = parse_expr(&input).unwrap();
    assert_eq!(parsed, Expr::Add1(Box::new(Expr::Num(5))));
    assert_eq!(eval(&parsed), 6);
    assert_eq!(
        compile_instrs(&parsed),
        vec![Instr::MovRax(5), Instr::AddRax1]
    );
    assert_eq!(compile_expr(&parsed), "mov rax, 5\nadd rax, 1");
}

#[test]
fn test_scenario_negate_add1() {
    let input = SVal::List(vec![
        sym("negate"),
        SVal::List(vec![sym("add1"), SVal::Int(3)]),
    ]);
    let parsed = parse_expr(&input).unwrap();
    assert_eq!(eval(&parsed), -4);
    assert_eq!(
        compile_instrs(&parsed),
        vec![Instr::MovRax(3), Instr::AddRax1, Instr::NegRax]
    );
    assert_eq!(compile_expr(&parsed), "mov rax, 3\nadd rax, 1\nneg rax");
    assert_round_trip(&parsed);
}

#[test]
fn test_scenario_double_negate() {
    let input = SVal::List(vec![
        sym("negate"),
        SVal::List(vec![sym("negate"), SVal::Int(9)]),
    ]);
    let parsed = parse_expr(&input).unwrap();
    assert_eq!(eval(&parsed), 9);
    assert_eq!(compile_expr(&parsed), "mov rax, 9\nneg rax\nneg rax");
    assert_round_trip(&parsed);
}

#[test]
fn test_scenario_arity_error() {
    let input = SVal::List(vec![sym("add1")]);
    assert!(matches!(
        parse_expr(&input),
        Err(BuildError::ParseError(_))
    ));
}

#[test]
fn test_scenario_unknown_operator() {
    let input = SVal::List(vec![sym("unknown"), SVal::Int(3)]);
    assert!(matches!(
        parse_expr(&input),
        Err(BuildError::ParseError(_))
    ));
}

#[test]
fn test_parse_error_carries_description() {
    let input = SVal::List(vec![sym("add1")]);
    match parse_expr(&input) {
        Err(BuildError::ParseError(message)) => assert!(!message.is_empty()),
        _ => panic!("expected a parse failure"),
    }
}
