//! The six operations, the call graph that links them, and the lines that an
//! invocation of each one emits.

use vstd::prelude::*;

verus! {

/// One of the six named operations of the tracer.
#[derive(Clone, Copy, Debug, PartialEq, Eq, Structural)]
pub enum Operation {
    A,
    B,
    C,
    D,
    E,
    F,
}

impl Operation {
    /// The text of the line by which the operation announces itself.
    pub open spec fn label(self) -> Seq<char> {
        match self {
            Operation::A => "func_a"@,
            Operation::B => "func_b"@,
            Operation::C => "func_c"@,
            Operation::D => "func_d"@,
            Operation::E => "func_e"@,
            Operation::F => "func_f"@,
        }
    }

    /// The operation that this one delegates to, if it delegates at all.
    pub open spec fn callee(self) -> Option<Operation> {
        match self {
            Operation::A => Some(Operation::B),
            Operation::B => Some(Operation::C),
            Operation::C => Some(Operation::D),
            Operation::D => Some(Operation::E),
            Operation::E => None,
            Operation::F => Some(Operation::E),
        }
    }

    /// Whether the operation announces itself before it delegates. All but
    /// one announce themselves afterwards.
    pub open spec fn announces_first(self) -> bool {
        self == Operation::F
    }

    /// The length of the chain of delegations that starts at the operation.
    pub open spec fn depth(self) -> nat {
        match self {
            Operation::A => 4,
            Operation::B => 3,
            Operation::C => 2,
            Operation::D => 1,
            Operation::E => 0,
            Operation::F => 1,
        }
    }

    /// The lines that one invocation of the operation emits, in order: its
    /// own label, with everything its callee emits before or after it.
    pub open spec fn trace(self) -> Seq<Operation>
        decreases self.depth(),
    {
        match self.callee() {
            None => seq![self],
            Some(next) => if self.announces_first() {
                seq![self] + next.trace()
            } else {
                next.trace().push(self)
            },
        }
    }

    /// The label of the operation, as text.
    pub fn name(self) -> (text: &'static str)
        ensures
            text@ == self.label(),
    {
        match self {
            Operation::A => "func_a",
            Operation::B => "func_b",
            Operation::C => "func_c",
            Operation::D => "func_d",
            Operation::E => "func_e",
            Operation::F => "func_f",
        }
    }
}

} // verus!
