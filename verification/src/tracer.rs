//! The operations themselves, and the program that invokes them in turn.

use vstd::prelude::*;
use crate::operation::Operation;
use crate::transcript::Transcript;

verus! {

/// The lines of one run of the program: the first five operations and then
/// the sixth, each invoked once, in that order.
pub open spec fn program_trace() -> Seq<Operation> {
    Operation::A.trace() + Operation::B.trace() + Operation::C.trace() + Operation::D.trace()
        + Operation::E.trace() + Operation::F.trace()
}

/// Announces itself and delegates to nothing: exactly one line is added.
pub fn func_e(out: &mut Transcript)
    ensures
        final(out)@ == old(out)@.push(Operation::E),
        final(out)@ == old(out)@ + Operation::E.trace(),
{
    out.record(Operation::E);
    proof {
        assert(old(out)@.push(Operation::E) == old(out)@ + seq![Operation::E]);
    }
}

/// Delegates to `func_e`, then announces itself.
pub fn func_d(out: &mut Transcript)
    ensures
        final(out)@ == old(out)@.push(Operation::E).push(Operation::D),
        final(out)@ == old(out)@ + Operation::D.trace(),
{
    func_e(out);
    out.record(Operation::D);
    proof {
        lemma_appended_then_pushed(old(out)@, Operation::E.trace(), Operation::D);
    }
}

/// Delegates to `func_d`, then announces itself.
pub fn func_c(out: &mut Transcript)
    ensures
        final(out)@ == old(out)@ + Operation::C.trace(),
{
    func_d(out);
    out.record(Operation::C);
    proof {
        lemma_appended_then_pushed(old(out)@, Operation::D.trace(), Operation::C);
    }
}

/// Delegates to `func_c`, then announces itself.
pub fn func_b(out: &mut Transcript)
    ensures
        final(out)@ == old(out)@ + Operation::B.trace(),
{
    func_c(out);
    out.record(Operation::B);
    proof {
        lemma_appended_then_pushed(old(out)@, Operation::C.trace(), Operation::B);
    }
}

/// Delegates to `func_b`, then announces itself.
pub fn func_a(out: &mut Transcript)
    ensures
        final(out)@ == old(out)@ + Operation::A.trace(),
{
    func_b(out);
    out.record(Operation::A);
    proof {
        lemma_appended_then_pushed(old(out)@, Operation::B.trace(), Operation::A);
    }
}

/// Announces itself first, and only then delegates to `func_e`: the one
/// operation whose own line comes before its callee's.
pub fn func_f(out: &mut Transcript)
    ensures
        final(out)@ == old(out)@.push(Operation::F).push(Operation::E),
        final(out)@ == old(out)@ + Operation::F.trace(),
{
    out.record(Operation::F);
    func_e(out);
    proof {
        assert(old(out)@.push(Operation::F) + Operation::E.trace() == old(out)@ + (seq![
            Operation::F,
        ] + Operation::E.trace()));
    }
}

/// One run of the program: invokes `func_a`, `func_b`, `func_c`, `func_d`,
/// `func_e` and `func_f`, in that order.
pub fn run(out: &mut Transcript)
    ensures
        final(out)@ == old(out)@ + program_trace(),
{
    func_a(out);
    func_b(out);
    func_c(out);
    func_d(out);
    func_e(out);
    func_f(out);
    proof {
        let start = old(out)@;
        let a = Operation::A.trace();
        let b = Operation::B.trace();
        let c = Operation::C.trace();
        let d = Operation::D.trace();
        let e = Operation::E.trace();
        let f = Operation::F.trace();
        assert(start + a + b + c + d + e + f == start + (a + b + c + d + e + f));
    }
}

/// Pushing a line after appending some lines is appending those lines with
/// the new one at their end.
proof fn lemma_appended_then_pushed(start: Seq<Operation>, middle: Seq<Operation>, op: Operation)
    ensures
        (start + middle).push(op) == start + middle.push(op),
{
}

} // verus!
