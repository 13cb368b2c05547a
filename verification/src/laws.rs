//! What holds of the traces: their lines one by one, the order in which a
//! caller and its callee announce themselves, and the text of a whole run.

use vstd::prelude::*;
use crate::operation::Operation;
use crate::tracer::program_trace;
use crate::transcript::{lemma_rendered_concat, lemma_rendered_single, rendered};

verus! {

/// Every occurrence of `first` among the lines comes before every occurrence
/// of `second`, and each of the two occurs.
pub open spec fn precedes(lines: Seq<Operation>, first: Operation, second: Operation) -> bool {
    &&& lines.contains(first)
    &&& lines.contains(second)
    &&& forall|i: int, j: int|
        0 <= i < lines.len() && 0 <= j < lines.len() && lines[i] == first && lines[j] == second
            ==> i < j
}

/// The trace of each operation, line by line.
pub proof fn lemma_trace_lines()
    ensures
        Operation::E.trace() == seq![Operation::E],
        Operation::D.trace() == seq![Operation::E, Operation::D],
        Operation::C.trace() == seq![Operation::E, Operation::D, Operation::C],
        Operation::B.trace() == seq![Operation::E, Operation::D, Operation::C, Operation::B],
        Operation::A.trace() == seq![
            Operation::E,
            Operation::D,
            Operation::C,
            Operation::B,
            Operation::A,
        ],
        Operation::F.trace() == seq![Operation::F, Operation::E],
{
    reveal_with_fuel(Operation::trace, 6);
    assert(Operation::E.trace() =~= seq![Operation::E]);
    assert(Operation::D.trace() =~= seq![Operation::E, Operation::D]);
    assert(Operation::C.trace() =~= seq![Operation::E, Operation::D, Operation::C]);
    assert(Operation::B.trace() =~= seq![Operation::E, Operation::D, Operation::C, Operation::B]);
    assert(Operation::A.trace() =~= seq![
        Operation::E,
        Operation::D,
        Operation::C,
        Operation::B,
        Operation::A,
    ]);
    assert(Operation::F.trace() =~= seq![Operation::F, Operation::E]);
}

/// An invocation emits one line for each operation on the chain of
/// delegations that starts at it, and no operation's label twice: its own
/// label stands in its trace exactly once.
pub proof fn lemma_own_label_once(op: Operation)
    ensures
        op.trace().len() == op.depth() + 1,
        op.trace().contains(op),
        op.trace().no_duplicates(),
{
    lemma_trace_lines();
    let lines = op.trace();
    match op {
        Operation::A => {
            assert(lines[4] == op);
        },
        Operation::B => {
            assert(lines[3] == op);
        },
        Operation::C => {
            assert(lines[2] == op);
        },
        Operation::D => {
            assert(lines[1] == op);
        },
        Operation::E => {
            assert(lines[0] == op);
        },
        Operation::F => {
            assert(lines[0] == op);
        },
    }
}

/// The terminal operation emits exactly one line, its own label.
pub proof fn lemma_terminal_emits_one_line()
    ensures
        Operation::E.callee().is_none(),
        Operation::E.trace() == seq![Operation::E],
        rendered(Operation::E.trace()) == "func_e\n"@,
{
    lemma_trace_lines();
    lemma_rendered_single(Operation::E);
    reveal_strlit("func_e");
    reveal_strlit("func_e\n");
    assert(Operation::E.label() + seq!['\n'] =~= "func_e\n"@);
}

/// The sixth operation announces itself before its callee does. Every other
/// operation that delegates announces itself after its callee has.
pub proof fn lemma_announcement_order(op: Operation)
    requires
        op.callee().is_some(),
    ensures
        op.announces_first() <==> op == Operation::F,
        op.announces_first() ==> precedes(op.trace(), op, op.callee().unwrap()),
        !op.announces_first() ==> precedes(op.trace(), op.callee().unwrap(), op),
{
    lemma_trace_lines();
    let lines = op.trace();
    match op {
        Operation::A => {
            assert(lines[3] == Operation::B && lines[4] == op);
        },
        Operation::B => {
            assert(lines[2] == Operation::C && lines[3] == op);
        },
        Operation::C => {
            assert(lines[1] == Operation::D && lines[2] == op);
        },
        Operation::D => {
            assert(lines[0] == Operation::E && lines[1] == op);
        },
        Operation::E => {},
        Operation::F => {
            assert(lines[0] == op && lines[1] == Operation::E);
        },
    }
}

/// One run of the program emits these seventeen lines, and this text: the
/// traces of the first five operations, each one line shorter than the one
/// before it, and then the two lines of the sixth.
pub proof fn lemma_program_transcript()
    ensures
        program_trace() == seq![
            Operation::E,
            Operation::D,
            Operation::C,
            Operation::B,
            Operation::A,
            Operation::E,
            Operation::D,
            Operation::C,
            Operation::B,
            Operation::E,
            Operation::D,
            Operation::C,
            Operation::E,
            Operation::D,
            Operation::E,
            Operation::F,
            Operation::E,
        ],
        rendered(program_trace())
            == "func_e\nfunc_d\nfunc_c\nfunc_b\nfunc_a\nfunc_e\nfunc_d\nfunc_c\nfunc_b\nfunc_e\nfunc_d\nfunc_c\nfunc_e\nfunc_d\nfunc_e\nfunc_f\nfunc_e\n"@,
{
    lemma_trace_lines();
    let lines = seq![
        Operation::E,
        Operation::D,
        Operation::C,
        Operation::B,
        Operation::A,
        Operation::E,
        Operation::D,
        Operation::C,
        Operation::B,
        Operation::E,
        Operation::D,
        Operation::C,
        Operation::E,
        Operation::D,
        Operation::E,
        Operation::F,
        Operation::E,
    ];
    assert(program_trace() =~= lines);
    reveal_with_fuel(rendered, 18);
    reveal_strlit("func_a");
    reveal_strlit("func_b");
    reveal_strlit("func_c");
    reveal_strlit("func_d");
    reveal_strlit("func_e");
    reveal_strlit("func_f");
    reveal_strlit(
        "func_e\nfunc_d\nfunc_c\nfunc_b\nfunc_a\nfunc_e\nfunc_d\nfunc_c\nfunc_b\nfunc_e\nfunc_d\nfunc_c\nfunc_e\nfunc_d\nfunc_e\nfunc_f\nfunc_e\n",
    );
    assert(rendered(lines)
        =~= "func_e\nfunc_d\nfunc_c\nfunc_b\nfunc_a\nfunc_e\nfunc_d\nfunc_c\nfunc_b\nfunc_e\nfunc_d\nfunc_c\nfunc_e\nfunc_d\nfunc_e\nfunc_f\nfunc_e\n"@);
}

/// Two runs leave the same lines and the same text, whatever was run
/// before: what a run emits depends on nothing.
pub proof fn lemma_runs_agree(
    before_one: Seq<Operation>,
    after_one: Seq<Operation>,
    before_other: Seq<Operation>,
    after_other: Seq<Operation>,
)
    requires
        after_one == before_one + program_trace(),
        after_other == before_other + program_trace(),
    ensures
        after_one.skip(before_one.len() as int) == after_other.skip(before_other.len() as int),
        rendered(after_one.skip(before_one.len() as int)) == rendered(
            after_other.skip(before_other.len() as int),
        ),
        rendered(after_one) == rendered(before_one) + rendered(program_trace()),
        rendered(after_other) == rendered(before_other) + rendered(program_trace()),
{
    assert(after_one.skip(before_one.len() as int) =~= program_trace());
    assert(after_other.skip(before_other.len() as int) =~= program_trace());
    lemma_rendered_concat(before_one, program_trace());
    lemma_rendered_concat(before_other, program_trace());
}

} // verus!
