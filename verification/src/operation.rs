//! The operations of the shell, and the order in which they are searched.

use vstd::prelude::*;

verus! {

/// An action the shell can perform. The set is closed; `CommandRun` is the
/// fallback that runs the request as an external command.
#[derive(Copy, Clone, Debug, PartialEq, Eq, Structural)]
pub enum Operation {
    Nothing,
    FileRead,
    FileCopy,
    CommandRun,
}

impl Operation {
    /// Every operation, in the order in which aliases are searched.
    pub open spec fn all() -> Seq<Operation> {
        seq![Operation::Nothing, Operation::FileRead, Operation::FileCopy, Operation::CommandRun]
    }

    /// Where the operation stands in the search order.
    pub open spec fn position(self) -> int {
        match self {
            Operation::Nothing => 0,
            Operation::FileRead => 1,
            Operation::FileCopy => 2,
            Operation::CommandRun => 3,
        }
    }

    /// Each operation stands in the search order, once, at its position.
    pub proof fn lemma_all_is_complete()
        ensures
            forall|operation: Operation|
                0 <= #[trigger] operation.position() < Self::all().len() && Self::all()[operation.position()]
                    == operation,
            forall|i: int| 0 <= i < Self::all().len() ==> (#[trigger] Self::all()[i]).position() == i,
    {
    }

    /// The operation chosen when no alias matches.
    pub open spec fn fallback() -> Operation {
        Operation::CommandRun
    }

    /// The operations in search order.
    pub fn iter() -> (operations: Vec<Operation>)
        ensures
            operations@ == Self::all(),
    {
        let mut operations: Vec<Operation> = Vec::new();
        operations.push(Operation::Nothing);
        operations.push(Operation::FileRead);
        operations.push(Operation::FileCopy);
        operations.push(Operation::CommandRun);
        operations
    }
}

} // verus!
