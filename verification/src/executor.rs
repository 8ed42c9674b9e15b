//! The executor: it resolves a request to an operation and runs one request
//! at a time.
//!
//! The executor does no work outside the program itself. `handle_request`
//! says what is to be run; whoever runs it reports the outcome to `complete`,
//! and until then no other request is taken.

use crate::mapping::{Mapping, MappingDefault};
use crate::operation::Operation;
use crate::request::{parsed, Request, RequestView};
use crate::response::{Response, ResponseStatus};
use crate::text::words;
use vstd::prelude::*;

verus! {

/// The first operation at or after position `from` of the search order that
/// has `key` among its aliases.
pub open spec fn first_match(
    table: spec_fn(Operation) -> Seq<Seq<char>>,
    key: Seq<char>,
    from: int,
) -> Option<Operation>
    decreases Operation::all().len() - from,
{
    if from < 0 || from >= Operation::all().len() {
        None
    } else if table(Operation::all()[from]).contains(key) {
        Some(Operation::all()[from])
    } else {
        first_match(table, key, from + 1)
    }
}

/// The operation that has `key` as an alias; the first in search order if
/// there are several, none if there is none.
pub open spec fn matched(table: spec_fn(Operation) -> Seq<Seq<char>>, key: Seq<char>) -> Option<
    Operation,
> {
    first_match(table, key, 0)
}

/// The operation that a request with this key is executed as: the one that
/// has the key as an alias, or the fallback.
pub open spec fn resolution(table: spec_fn(Operation) -> Seq<Seq<char>>, key: Seq<char>) -> Operation {
    match matched(table, key) {
        Some(operation) => operation,
        None => Operation::fallback(),
    }
}

/// The alias table of the default mapping.
pub open spec fn default_table() -> spec_fn(Operation) -> Seq<Seq<char>> {
    |operation: Operation| (MappingDefault {}).aliases(operation)
}

/// What has to happen outside the executor for a request.
#[derive(Debug)]
pub enum Step {
    /// Nothing: the operation is not available, and the execution has failed.
    Finished(Response),
    /// `program` is to be run with `args`, on the shell's own terminal, and
    /// its end reported to `Executor::complete`.
    Spawn { program: String, args: Vec<String> },
}

/// How the executor took a request.
#[derive(Debug)]
pub struct Dispatch {
    /// The operation the request was resolved to.
    pub operation: Operation,
    /// Whether no alias matched, so that the fallback was chosen.
    pub fallback: bool,
    /// What is to be done.
    pub step: Step,
}

/// How a spawned command ended.
#[derive(Copy, Clone, Debug, PartialEq, Eq, Structural)]
pub enum Outcome {
    /// The command could not be started.
    SpawnFailed,
    /// The command was started, but waiting for its end failed.
    WaitFailed,
    /// The command ended, with this exit code if it was not ended by a signal.
    Exited { code: Option<i32> },
}

/// The status that an outcome is reported as: only a command that ended with
/// exit code 0 has succeeded.
pub open spec fn status_of(outcome: Outcome) -> ResponseStatus {
    if outcome == (Outcome::Exited { code: Some(0i32) }) {
        ResponseStatus::Success
    } else {
        ResponseStatus::Error
    }
}

/// What is to be done for `operation`: only the fallback runs anything.
pub open spec fn spawns(operation: Operation) -> bool {
    operation == Operation::CommandRun
}

/// `step` is what executing a request as `operation` asks for.
pub open spec fn planned(operation: Operation, request: RequestView, step: Step) -> bool {
    if spawns(operation) {
        &&& step matches Step::Spawn { program, args }
        &&& program@ == request.key
        &&& args.deep_view() == request.args
    } else {
        &&& step matches Step::Finished(response)
        &&& response.status() == ResponseStatus::Error
    }
}

/// Resolves requests with the aliases of `M`, and lets one command run at a
/// time.
pub struct Executor<M: Mapping> {
    mapping: M,
    running: bool,
}

impl Executor<MappingDefault> {
    /// An idle executor with the default aliases.
    pub fn new() -> (executor: Self)
        ensures
            !executor.busy(),
            executor.table() == default_table(),
    {
        let executor = Executor { mapping: MappingDefault {  }, running: false };
        assert(executor.table() =~= default_table());
        executor
    }
}

impl<M: Mapping> Executor<M> {
    /// The aliases under which the executor knows `operation`.
    pub closed spec fn aliases(&self, operation: Operation) -> Seq<Seq<char>> {
        self.mapping.aliases(operation)
    }

    /// The alias table the executor resolves with.
    pub open spec fn table(&self) -> spec_fn(Operation) -> Seq<Seq<char>> {
        |operation: Operation| self.aliases(operation)
    }

    /// Whether an execution is in flight.
    pub closed spec fn busy(&self) -> bool {
        self.running
    }

    /// An idle executor with the aliases of `mapping`.
    pub fn with_mapping(mapping: M) -> (executor: Self)
        ensures
            !executor.busy(),
            forall|operation: Operation|
                executor.aliases(operation) == #[trigger] mapping.aliases(operation),
    {
        Executor { mapping, running: false }
    }

    /// Whether a command runs.
    pub fn is_busy(&self) -> (busy: bool)
        ensures
            busy == self.busy(),
    {
        self.running
    }

    /// Looks the key of `request` up in the alias table.
    pub fn get_operation_from_request(&self, request: &Request) -> (operation: Option<Operation>)
        ensures
            operation == matched(self.table(), request@.key),
    {
        let key = String::from_str(request.get_key());
        let operations = Operation::iter();
        let mut i: usize = 0;
        while i < operations.len()
            invariant
                i <= operations.len(),
                operations@ == Operation::all(),
                key@ == request@.key,
                matched(self.table(), key@) == first_match(self.table(), key@, i as int),
            decreases operations.len() - i,
        {
            let operation = operations[i];
            let aliases = self.mapping.get_operation_aliases(operation);
            let mut j: usize = 0;
            while j < aliases.len()
                invariant
                    j <= aliases.len(),
                    0 <= i < Operation::all().len(),
                    operation == Operation::all()[i as int],
                    aliases.deep_view() == self.aliases(operation),
                    key@ == request@.key,
                    matched(self.table(), key@) == first_match(self.table(), key@, i as int),
                    forall|k: int| 0 <= k < j ==> aliases.deep_view()[k] != key@,
                decreases aliases.len() - j,
            {
                if aliases[j] == key {
                    assert(aliases.deep_view()[j as int] == key@);
                    assert((self.table())(operation).contains(key@));
                    return Some(operation);
                }
                j = j + 1;
            }
            assert(!aliases.deep_view().contains(key@));
            i = i + 1;
        }
        None
    }

    /// The operation that `request` is executed as.
    pub fn resolve(&self, request: &Request) -> (operation: Operation)
        ensures
            operation == resolution(self.table(), request@.key),
    {
        match self.get_operation_from_request(request) {
            Some(operation) => operation,
            None => Operation::CommandRun,
        }
    }

    /// Says what executing `request` as `operation` asks for. Only the
    /// fallback runs anything: the key is the program, the arguments are its
    /// arguments. Every other operation is not available and fails.
    pub fn execute(&self, operation: Operation, request: Request) -> (step: Step)
        ensures
            planned(operation, request@, step),
    {
        match operation {
            Operation::CommandRun => {
                let (program, args) = request.into_parts();
                Step::Spawn { program, args }
            },
            Operation::Nothing | Operation::FileRead | Operation::FileCopy => Step::Finished(
                Response::new(ResponseStatus::Error),
            ),
        }
    }

    /// Takes `request` if no execution is in flight, and hands it back if one
    /// is. A request that was taken is resolved and planned; if a command is
    /// to be run, the executor is busy until `complete` is called.
    pub fn handle_request(&mut self, request: Request) -> (taken: Result<Dispatch, Request>)
        ensures
            handled(*old(self), request@, *final(self), taken),
    {
        if self.running {
            return Err(request);
        }
        let found = self.get_operation_from_request(&request);
        let (operation, fallback) = match found {
            Some(operation) => (operation, false),
            None => (Operation::CommandRun, true),
        };
        let step = self.execute(operation, request);
        self.running = operation == Operation::CommandRun;
        Ok(Dispatch { operation, fallback, step })
    }

    /// Ends the execution in flight with the outcome of its command. Without
    /// an execution in flight there is nothing to end, and no response.
    pub fn complete(&mut self, outcome: Outcome) -> (response: Option<Response>)
        ensures
            completed(*old(self), outcome, *final(self), response),
    {
        if !self.running {
            return None;
        }
        self.running = false;
        let status = match outcome {
            Outcome::Exited { code: Some(0) } => ResponseStatus::Success,
            _ => ResponseStatus::Error,
        };
        Some(Response::new(status))
    }
}

/// `handle_request` leads from `before` to `after` with the result `taken`.
pub open spec fn handled<M: Mapping>(
    before: Executor<M>,
    request: RequestView,
    after: Executor<M>,
    taken: Result<Dispatch, Request>,
) -> bool {
    &&& forall|operation: Operation| #[trigger] after.aliases(operation) == before.aliases(operation)
    &&& if before.busy() {
        &&& after.busy()
        &&& taken matches Err(back)
        &&& back@ == request
    } else {
        &&& taken matches Ok(dispatch)
        &&& dispatch.operation == resolution(before.table(), request.key)
        &&& dispatch.fallback == (matched(before.table(), request.key) is None)
        &&& planned(dispatch.operation, request, dispatch.step)
        &&& after.busy() == spawns(dispatch.operation)
    }
}

/// `complete` leads from `before` to `after` with the result `response`.
pub open spec fn completed<M: Mapping>(
    before: Executor<M>,
    outcome: Outcome,
    after: Executor<M>,
    response: Option<Response>,
) -> bool {
    &&& forall|operation: Operation| #[trigger] after.aliases(operation) == before.aliases(operation)
    &&& !after.busy()
    &&& if before.busy() {
        &&& response matches Some(r)
        &&& r.status() == status_of(outcome)
    } else {
        response is None
    }
}

/// What `first_match` finds from a position on: the first operation from
/// there that has the key as an alias.
proof fn lemma_first_match(table: spec_fn(Operation) -> Seq<Seq<char>>, key: Seq<char>, from: int)
    requires
        0 <= from <= Operation::all().len(),
    ensures
        match first_match(table, key, from) {
            Some(operation) => from <= operation.position() && table(operation).contains(key)
                && forall|other: Operation|
                from <= #[trigger] other.position() < operation.position() ==> !table(other).contains(
                    key,
                ),
            None => forall|other: Operation|
                from <= #[trigger] other.position() ==> !table(other).contains(key),
        },
    decreases Operation::all().len() - from,
{
    Operation::lemma_all_is_complete();
    if from < Operation::all().len() && !table(Operation::all()[from]).contains(key) {
        lemma_first_match(table, key, from + 1);
    }
}

/// An operation is matched exactly when the key is one of its aliases and of
/// no operation before it in the search order; none is matched exactly when
/// the key is an alias of none.
pub proof fn lemma_matched(table: spec_fn(Operation) -> Seq<Seq<char>>, key: Seq<char>)
    ensures
        forall|operation: Operation|
            matched(table, key) == Some(operation) <==> #[trigger] table(operation).contains(key)
                && forall|other: Operation|
                #[trigger] other.position() < operation.position() ==> !table(other).contains(key),
        matched(table, key) is None <==> forall|operation: Operation|
            !(#[trigger] table(operation)).contains(key),
{
    Operation::lemma_all_is_complete();
    lemma_first_match(table, key, 0);
}

/// A line whose first word is an alias of `operation`, and of no operation
/// before it in the search order, is resolved to `operation`.
pub proof fn lemma_alias_selects_operation(
    table: spec_fn(Operation) -> Seq<Seq<char>>,
    line: Seq<char>,
    operation: Operation,
)
    requires
        words(line).len() > 0,
        table(operation).contains(words(line)[0]),
        forall|other: Operation|
            #[trigger] other.position() < operation.position() ==> !table(other).contains(words(line)[0]),
    ensures
        parsed(line) is Some,
        resolution(table, parsed(line)->0.key) == operation,
{
    lemma_matched(table, words(line)[0]);
}

/// A line whose first word is an alias of no operation is resolved to the
/// fallback.
pub proof fn lemma_unknown_word_falls_back(table: spec_fn(Operation) -> Seq<Seq<char>>, line: Seq<char>)
    requires
        words(line).len() > 0,
        forall|operation: Operation| !(#[trigger] table(operation)).contains(words(line)[0]),
    ensures
        parsed(line) is Some,
        matched(table, parsed(line)->0.key) is None,
        resolution(table, parsed(line)->0.key) == Operation::fallback(),
{
    lemma_matched(table, words(line)[0]);
}

/// Where the fallback has no alias of its own, it is chosen if and only if no
/// alias matches.
pub proof fn lemma_fallback_iff_unmatched(table: spec_fn(Operation) -> Seq<Seq<char>>, key: Seq<char>)
    requires
        table(Operation::fallback()).len() == 0,
    ensures
        resolution(table, key) == Operation::fallback() <==> forall|operation: Operation|
            !(#[trigger] table(operation)).contains(key),
{
    lemma_matched(table, key);
}

/// With the default aliases, `file-read` and `file-copy` select their
/// operations, and every other key matches nothing and falls back to running
/// a command.
pub proof fn lemma_default_resolution(key: Seq<char>)
    ensures
        matched(default_table(), key) == if key == "file-read"@ {
            Some(Operation::FileRead)
        } else if key == "file-copy"@ {
            Some(Operation::FileCopy)
        } else {
            None
        },
        resolution(default_table(), key) == if key == "file-read"@ {
            Operation::FileRead
        } else if key == "file-copy"@ {
            Operation::FileCopy
        } else {
            Operation::CommandRun
        },
{
    let table = default_table();
    lemma_matched(table, key);
    reveal_strlit("file-read");
    reveal_strlit("file-copy");
    assert("file-read"@[5] != "file-copy"@[5]);
    assert(table(Operation::FileRead)[0] == "file-read"@);
    assert(table(Operation::FileCopy)[0] == "file-copy"@);
    assert(Operation::Nothing.position() < Operation::FileRead.position());
    assert(Operation::FileRead.position() < Operation::FileCopy.position());
}

/// Resolution reads the alias table and the key, and nothing else: executors
/// with the same aliases resolve a key to the same operation. `handle_request`
/// and `complete` leave the aliases as they are.
pub proof fn lemma_resolution_is_stable<M: Mapping>(
    before: Executor<M>,
    after: Executor<M>,
    key: Seq<char>,
)
    requires
        forall|operation: Operation| #[trigger] after.aliases(operation) == before.aliases(operation),
    ensures
        matched(after.table(), key) == matched(before.table(), key),
        resolution(after.table(), key) == resolution(before.table(), key),
{
    assert(after.table() =~= before.table());
}

/// While a command runs, another request is not taken: it comes back, and
/// the executor stays busy.
pub proof fn lemma_running_command_excludes_requests<M: Mapping>(
    idle: Executor<M>,
    first: RequestView,
    running: Executor<M>,
    started: Result<Dispatch, Request>,
    second: RequestView,
    after: Executor<M>,
    refused: Result<Dispatch, Request>,
)
    requires
        handled(idle, first, running, started),
        started is Ok,
        started->Ok_0.step is Spawn,
        handled(running, second, after, refused),
    ensures
        running.busy(),
        refused is Err,
        after.busy(),
{
}

/// Once the running command is reported as ended, the next request is taken.
pub proof fn lemma_request_is_taken_after_completion<M: Mapping>(
    running: Executor<M>,
    outcome: Outcome,
    idle: Executor<M>,
    response: Option<Response>,
    next: RequestView,
    after: Executor<M>,
    taken: Result<Dispatch, Request>,
)
    requires
        running.busy(),
        completed(running, outcome, idle, response),
        handled(idle, next, after, taken),
    ensures
        response is Some,
        taken is Ok,
{
}

} // verus!
