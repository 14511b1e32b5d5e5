use vstd::prelude::*;

use crate::datatypes::Expr;
use crate::interpreter::eval_spec;
use crate::machine::{lemma_run_append, run_spec, step_spec, Instr};

verus! {

/// The instruction sequence an expression compiles to: bottom-up and
/// depth-first, the operand's instructions always precede the operator's
/// own instruction.
pub open spec fn compile_spec(e: Expr) -> Seq<Instr>
    decreases e,
{
    match e {
        Expr::Num(n) => seq![Instr::MovRax(n)],
        Expr::Add1(e1) => compile_spec(*e1).push(Instr::AddRax1),
        Expr::Sub1(e1) => compile_spec(*e1).push(Instr::SubRax1),
        Expr::Negate(e1) => compile_spec(*e1).push(Instr::NegRax),
    }
}

/// Round-trip equivalence, the law the whole pipeline exists to satisfy:
/// executing an expression's compiled instruction sequence against a
/// single-accumulator machine leaves the accumulator holding exactly what
/// the reference evaluator gives, from any starting accumulator value.
pub proof fn lemma_compiled_matches_eval(e: Expr, start: int)
    ensures
        run_spec(compile_spec(e), start) == eval_spec(e),
    decreases e,
{
    match e {
        Expr::Num(n) => {
            assert(seq![Instr::MovRax(n)].drop_first() =~= Seq::<Instr>::empty());
            assert(run_spec(Seq::<Instr>::empty(), n as int) == n as int);
            assert(run_spec(seq![Instr::MovRax(n)], start) == n as int);
        },
        Expr::Add1(e1) => {
            lemma_compiled_matches_eval(*e1, start);
            lemma_unary_step(compile_spec(*e1), Instr::AddRax1, start);
        },
        Expr::Sub1(e1) => {
            lemma_compiled_matches_eval(*e1, start);
            lemma_unary_step(compile_spec(*e1), Instr::SubRax1, start);
        },
        Expr::Negate(e1) => {
            lemma_compiled_matches_eval(*e1, start);
            lemma_unary_step(compile_spec(*e1), Instr::NegRax, start);
        },
    }
}

/// Appending one instruction to a sequence applies that instruction's step
/// to whatever the sequence leaves in the accumulator.
proof fn lemma_unary_step(prog: Seq<Instr>, i: Instr, start: int)
    ensures
        run_spec(prog.push(i), start) == step_spec(run_spec(prog, start), i),
{
    assert(prog.push(i) =~= prog + seq![i]);
    lemma_run_append(prog, seq![i], start);
    let mid = run_spec(prog, start);
    assert(seq![i].drop_first() =~= Seq::<Instr>::empty());
    assert(run_spec(Seq::<Instr>::empty(), step_spec(mid, i)) == step_spec(mid, i));
    assert(run_spec(seq![i], mid) == step_spec(mid, i));
}

/// Compiles an expression to the instruction sequence the model gives.
pub fn compile_instrs(e: &Expr) -> (r: Vec<Instr>)
    ensures
        r@ == compile_spec(*e),
    decreases *e,
{
    match e {
        Expr::Num(n) => {
            let mut prog: Vec<Instr> = Vec::new();
            prog.push(Instr::MovRax(*n));
            proof {
                assert(prog@ =~= seq![Instr::MovRax(*n)]);
            }
            prog
        },
        Expr::Add1(e1) => {
            let mut prog = compile_instrs(&**e1);
            prog.push(Instr::AddRax1);
            prog
        },
        Expr::Sub1(e1) => {
            let mut prog = compile_instrs(&**e1);
            prog.push(Instr::SubRax1);
            prog
        },
        Expr::Negate(e1) => {
            let mut prog = compile_instrs(&**e1);
            prog.push(Instr::NegRax);
            prog
        },
    }
}

/// The character of one decimal digit.
pub open spec fn digit_char(d: int) -> char
    recommends
        0 <= d <= 9,
{
    if d == 0 {
        '0'
    } else if d == 1 {
        '1'
    } else if d == 2 {
        '2'
    } else if d == 3 {
        '3'
    } else if d == 4 {
        '4'
    } else if d == 5 {
        '5'
    } else if d == 6 {
        '6'
    } else if d == 7 {
        '7'
    } else if d == 8 {
        '8'
    } else {
        '9'
    }
}

/// The decimal digits of a non-negative integer, most significant first,
/// with no leading zero except for zero itself.
pub open spec fn dec_digits(n: int) -> Seq<char>
    recommends
        n >= 0,
    decreases n,
{
    if n < 10 {
        seq![digit_char(n)]
    } else {
        dec_digits(n / 10).push(digit_char(n % 10))
    }
}

/// The decimal rendering of an integer: a minus sign before the digits of
/// its magnitude when it is negative.
pub open spec fn dec_str(n: int) -> Seq<char> {
    if n < 0 {
        seq!['-'] + dec_digits(-n)
    } else {
        dec_digits(n)
    }
}

/// The textual rendering of one instruction.
pub open spec fn instr_str(i: Instr) -> Seq<char> {
    match i {
        Instr::MovRax(n) => "mov rax, "@ + dec_str(n as int),
        Instr::AddRax1 => "add rax, 1"@,
        Instr::SubRax1 => "sub rax, 1"@,
        Instr::NegRax => "neg rax"@,
    }
}

/// The textual rendering of an instruction sequence: one instruction per
/// line, the lines joined by single newlines, with no trailing newline.
pub open spec fn render_spec(prog: Seq<Instr>) -> Seq<char>
    decreases prog.len(),
{
    if prog.len() == 0 {
        Seq::empty()
    } else if prog.len() == 1 {
        instr_str(prog[0])
    } else {
        render_spec(prog.drop_last()) + seq!['\n'] + instr_str(prog.last())
    }
}

/// Appends the character of one decimal digit.
fn push_digit(out: &mut String, d: u32)
    requires
        d < 10,
    ensures
        final(out)@ == old(out)@ + seq![digit_char(d as int)],
{
    let s: &str = if d == 0 {
        "0"
    } else if d == 1 {
        "1"
    } else if d == 2 {
        "2"
    } else if d == 3 {
        "3"
    } else if d == 4 {
        "4"
    } else if d == 5 {
        "5"
    } else if d == 6 {
        "6"
    } else if d == 7 {
        "7"
    } else if d == 8 {
        "8"
    } else {
        "9"
    };
    proof {
        reveal_strlit("0");
        reveal_strlit("1");
        reveal_strlit("2");
        reveal_strlit("3");
        reveal_strlit("4");
        reveal_strlit("5");
        reveal_strlit("6");
        reveal_strlit("7");
        reveal_strlit("8");
        reveal_strlit("9");
        assert(s@ =~= seq![digit_char(d as int)]);
    }
    out.append(s);
}

/// Appends the decimal digits of a non-negative integer.
fn push_dec_u32(out: &mut String, n: u32)
    ensures
        final(out)@ == old(out)@ + dec_digits(n as int),
    decreases n,
{
    if n < 10 {
        push_digit(out, n);
    } else {
        push_dec_u32(out, n / 10);
        push_digit(out, n % 10);
        proof {
            assert(out@ =~= old(out)@ + dec_digits(n as int));
        }
    }
}

/// Appends the decimal rendering of a signed 32-bit integer.
fn push_dec_i32(out: &mut String, n: i32)
    ensures
        final(out)@ == old(out)@ + dec_str(n as int),
{
    if n < 0 {
        out.append("-");
        let magnitude = -(n as i64);
        push_dec_u32(out, magnitude as u32);
        proof {
            reveal_strlit("-");
            assert(out@ =~= old(out)@ + dec_str(n as int));
        }
    } else {
        push_dec_u32(out, n as u32);
    }
}

/// Appends the textual rendering of one instruction.
fn push_instr(out: &mut String, i: &Instr)
    ensures
        final(out)@ == old(out)@ + instr_str(*i),
{
    match i {
        Instr::MovRax(n) => {
            out.append("mov rax, ");
            push_dec_i32(out, *n);
            proof {
                assert(out@ =~= old(out)@ + instr_str(*i));
            }
        },
        Instr::AddRax1 => out.append("add rax, 1"),
        Instr::SubRax1 => out.append("sub rax, 1"),
        Instr::NegRax => out.append("neg rax"),
    }
}

/// Renders an instruction sequence as assembly text, one instruction per
/// line.
pub fn render_instrs(prog: &Vec<Instr>) -> (r: String)
    ensures
        r@ == render_spec(prog@),
{
    let mut out = String::new();
    let mut idx: usize = 0;
    while idx < prog.len()
        invariant
            idx <= prog.len(),
            out@ == render_spec(prog@.take(idx as int)),
        decreases prog.len() - idx,
    {
        if idx > 0 {
            out.append("\n");
        }
        push_instr(&mut out, &prog[idx]);
        proof {
            reveal_strlit("\n");
            assert(prog@.take(idx as int + 1).drop_last() =~= prog@.take(idx as int));
            assert(out@ =~= render_spec(prog@.take(idx as int + 1)));
        }
        idx += 1;
    }
    proof {
        assert(prog@.take(prog@.len() as int) =~= prog@);
    }
    out
}

/// Compiles an expression to its assembly text: the instruction sequence
/// the model gives, rendered one instruction per line. Total over the
/// AST: code generation has no failure path.
pub fn compile_expr(e: &Expr) -> (r: String)
    ensures
        r@ == render_spec(compile_spec(*e)),
{
    let prog = compile_instrs(e);
    render_instrs(&prog)
}

/// The fixed assembly template the driver wraps generated instruction
/// text in.
pub open spec fn program_text_spec(body: Seq<char>) -> Seq<char> {
    "\nsection .text\nglobal our_code_starts_here\nour_code_starts_here:\n  "@ + body
        + "\n  ret\n"@
}

/// Embeds generated instruction text in the fixed assembly template.
pub fn assemble_program(body: &str) -> (r: String)
    ensures
        r@ == program_text_spec(body@),
{
    let mut out = "\nsection .text\nglobal our_code_starts_here\nour_code_starts_here:\n  ".to_owned();
    out.append(body);
    out.append("\n  ret\n");
    proof {
        assert(out@ =~= program_text_spec(body@));
    }
    out
}

} // verus!
