//! The alias table: which words select which operation.

use crate::operation::Operation;
use vstd::prelude::*;
use vstd::string::StringExecFns;

verus! {

/// A table from each operation to the words that select it.
pub trait Mapping {
    /// The aliases of `operation`, in order. The list may be empty.
    spec fn aliases(&self, operation: Operation) -> Seq<Seq<char>>;

    /// Lists the aliases of `operation`.
    fn get_operation_aliases(&self, operation: Operation) -> (aliases: Vec<String>)
        ensures
            aliases.deep_view() == self.aliases(operation),
    ;
}

/// The table the shell starts with.
#[derive(Debug)]
pub struct MappingDefault {}

impl Mapping for MappingDefault {
    open spec fn aliases(&self, operation: Operation) -> Seq<Seq<char>> {
        match operation {
            Operation::FileRead => seq!["file-read"@],
            Operation::FileCopy => seq!["file-copy"@],
            Operation::Nothing | Operation::CommandRun => Seq::empty(),
        }
    }

    fn get_operation_aliases(&self, operation: Operation) -> (aliases: Vec<String>) {
        let mut aliases: Vec<String> = Vec::new();
        match operation {
            Operation::FileRead => {
                aliases.push(String::from_str("file-read"));
            },
            Operation::FileCopy => {
                aliases.push(String::from_str("file-copy"));
            },
            Operation::Nothing | Operation::CommandRun => {},
        }
        assert(aliases.deep_view() =~= self.aliases(operation));
        aliases
    }
}

/// The aliases of an operation are fixed: whenever they are asked for, the
/// same words come back in the same order.
pub proof fn lemma_aliases_are_fixed<M: Mapping>(
    mapping: M,
    operation: Operation,
    first: Vec<String>,
    second: Vec<String>,
)
    requires
        first.deep_view() == mapping.aliases(operation),
        second.deep_view() == mapping.aliases(operation),
    ensures
        first.deep_view() == second.deep_view(),
        first.len() == second.len(),
{
    assert(first.deep_view().len() == first.len());
    assert(second.deep_view().len() == second.len());
}

} // verus!
