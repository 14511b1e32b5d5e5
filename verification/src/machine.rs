use vstd::prelude::*;

use crate::interpreter::{add1_wrapping, negate_wrapping, sub1_wrapping, wrap_i32};

verus! {

/// One instruction of the single-accumulator target machine. Every
/// instruction reads and writes the one implicit working register; there
/// is no other storage and no branching.
#[derive(Clone, Copy, Debug, PartialEq, Eq, Structural)]
pub enum Instr {
    /// `mov rax, n`: set the accumulator to exactly `n`.
    MovRax(i32),
    /// `add rax, 1`: add one to the accumulator.
    AddRax1,
    /// `sub rax, 1`: subtract one from the accumulator.
    SubRax1,
    /// `neg rax`: negate the accumulator.
    NegRax,
}

/// What one instruction leaves in the accumulator, given what the
/// accumulator held before it. Arithmetic wraps around the signed 32-bit
/// range, the same policy the evaluator uses.
pub open spec fn step_spec(acc: int, i: Instr) -> int {
    match i {
        Instr::MovRax(n) => n as int,
        Instr::AddRax1 => wrap_i32(acc + 1),
        Instr::SubRax1 => wrap_i32(acc - 1),
        Instr::NegRax => wrap_i32(-acc),
    }
}

/// What a whole instruction sequence, executed in order, leaves in the
/// accumulator, given what the accumulator held at the start.
pub open spec fn run_spec(prog: Seq<Instr>, acc: int) -> int
    decreases prog.len(),
{
    if prog.len() == 0 {
        acc
    } else {
        run_spec(prog.drop_first(), step_spec(acc, prog[0]))
    }
}

/// Running one sequence after another runs the second from wherever the
/// first left the accumulator.
pub proof fn lemma_run_append(p1: Seq<Instr>, p2: Seq<Instr>, acc: int)
    ensures
        run_spec(p1 + p2, acc) == run_spec(p2, run_spec(p1, acc)),
    decreases p1.len(),
{
    if p1.len() == 0 {
        assert(p1 + p2 =~= p2);
    } else {
        assert((p1 + p2).drop_first() =~= p1.drop_first() + p2);
        lemma_run_append(p1.drop_first(), p2, step_spec(acc, p1[0]));
    }
}

/// Executes one instruction against the accumulator.
pub fn step(acc: i32, i: &Instr) -> (r: i32)
    ensures
        r as int == step_spec(acc as int, *i),
{
    match i {
        Instr::MovRax(n) => *n,
        Instr::AddRax1 => add1_wrapping(acc),
        Instr::SubRax1 => sub1_wrapping(acc),
        Instr::NegRax => negate_wrapping(acc),
    }
}

/// Executes an instruction sequence in order against a single-accumulator
/// machine whose accumulator starts at `start`, and returns what the
/// accumulator holds at the end.
pub fn run_instrs(prog: &Vec<Instr>, start: i32) -> (r: i32)
    ensures
        r as int == run_spec(prog@, start as int),
{
    let mut acc = start;
    let mut idx: usize = 0;
    proof {
        assert(prog@.skip(0) =~= prog@);
    }
    while idx < prog.len()
        invariant
            idx <= prog.len(),
            run_spec(prog@, start as int) == run_spec(prog@.skip(idx as int), acc as int),
        decreases prog.len() - idx,
    {
        proof {
            assert(prog@.skip(idx as int).drop_first() =~= prog@.skip(idx as int + 1));
        }
        acc = step(acc, &prog[idx]);
        idx += 1;
    }
    acc
}

} // verus!
