//! General properties of the style-stack discipline.
//!
//! The operations a context performs are modelled as a sequence of abstract
//! push/pop steps, each with the same meaning as the corresponding
//! [`crate::context::ColorContext`] method. Two laws are proved here: no
//! sequence of operations ever empties a stack that holds the sentinel, and
//! any balanced nest of style applications leaves the stack — and with it
//! the current style — exactly as it found it.

use vstd::prelude::*;
use crate::context::current_of;
use crate::context::pop_effect;
use crate::context::push_effect;

verus! {

/// One primitive operation on a style stack.
pub enum StackOp {
    /// Push the given style code.
    Push(Seq<char>),
    /// Remove the innermost style code (a no-op on the sentinel alone).
    Pop,
}

/// The stack reached from `s` by one operation.
pub open spec fn step(s: Seq<Seq<char>>, op: StackOp) -> Seq<Seq<char>> {
    match op {
        StackOp::Push(code) => push_effect(s, code),
        StackOp::Pop => pop_effect(s),
    }
}

/// The stack reached from `s` by a whole sequence of operations.
pub open spec fn run(s: Seq<Seq<char>>, ops: Seq<StackOp>) -> Seq<Seq<char>>
    decreases ops.len(),
{
    if ops.len() == 0 {
        s
    } else {
        run(step(s, ops[0]), ops.drop_first())
    }
}

/// A stack that holds at least one entry keeps at least one entry under
/// every sequence of push and pop operations: the sentinel cannot be lost.
pub proof fn lemma_stack_never_empty(s: Seq<Seq<char>>, ops: Seq<StackOp>)
    requires
        s.len() >= 1,
    ensures
        run(s, ops).len() >= 1,
    decreases ops.len(),
{
    if ops.len() > 0 {
        lemma_stack_never_empty(step(s, ops[0]), ops.drop_first());
    }
}

/// A balanced nest of style applications: `Done` performs no operation,
/// while `Styled(code, inner, rest)` pushes `code`, performs the balanced
/// nest `inner`, pops, and then performs the balanced nest `rest`.
pub enum StyleTrace {
    Done,
    Styled(Seq<char>, Box<StyleTrace>, Box<StyleTrace>),
}

/// The push/pop operations a balanced trace performs, in order.
pub open spec fn ops_of(t: StyleTrace) -> Seq<StackOp>
    decreases t,
{
    match t {
        StyleTrace::Done => Seq::empty(),
        StyleTrace::Styled(code, inner, rest) => seq![StackOp::Push(code)] + ops_of(*inner)
            + seq![StackOp::Pop] + ops_of(*rest),
    }
}

proof fn lemma_run_concat(s: Seq<Seq<char>>, a: Seq<StackOp>, b: Seq<StackOp>)
    ensures
        run(s, a + b) == run(run(s, a), b),
    decreases a.len(),
{
    if a.len() == 0 {
        assert(a + b =~= b);
    } else {
        assert((a + b).drop_first() =~= a.drop_first() + b);
        assert((a + b)[0] == a[0]);
        lemma_run_concat(step(s, a[0]), a.drop_first(), b);
    }
}

proof fn lemma_run_single(s: Seq<Seq<char>>, op: StackOp)
    ensures
        run(s, seq![op]) == step(s, op),
{
    assert(seq![op].drop_first() =~= Seq::<StackOp>::empty());
    assert(run(s, seq![op]) == run(step(s, op), Seq::<StackOp>::empty()));
}

/// LIFO restoration: a balanced nest of style applications leaves the stack
/// exactly as it found it. In particular, when an inner application pops,
/// the code it then finds on top is the one its directly enclosing
/// application pushed, and after the whole nest the stack — and so the
/// current style — is the pre-nest one.
pub proof fn lemma_balanced_restores_stack(s: Seq<Seq<char>>, t: StyleTrace)
    requires
        s.len() >= 1,
    ensures
        run(s, ops_of(t)) == s,
    decreases t,
{
    match t {
        StyleTrace::Done => {
        }
        StyleTrace::Styled(code, inner, rest) => {
            let a = seq![StackOp::Push(code)];
            let b = ops_of(*inner);
            let c = seq![StackOp::Pop];
            let d = ops_of(*rest);
            lemma_run_concat(s, a + b + c, d);
            lemma_run_concat(s, a + b, c);
            lemma_run_concat(s, a, b);
            lemma_run_single(s, StackOp::Push(code));
            let pushed = push_effect(s, code);
            lemma_balanced_restores_stack(pushed, *inner);
            lemma_run_single(pushed, StackOp::Pop);
            assert(pop_effect(pushed) =~= s);
            lemma_balanced_restores_stack(s, *rest);
        }
    }
}

/// After a balanced nest of style applications, the current style equals
/// the current style before the first application.
pub proof fn lemma_balanced_restores_current(s: Seq<Seq<char>>, t: StyleTrace)
    requires
        s.len() >= 1,
    ensures
        current_of(run(s, ops_of(t))) == current_of(s),
{
    lemma_balanced_restores_stack(s, t);
}

} // verus!
