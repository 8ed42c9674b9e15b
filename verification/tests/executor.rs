use neo::executor::{Dispatch, Executor, Outcome, Step};
use neo::mapping::{Mapping, MappingDefault};
use neo::operation::Operation;
use neo::request::{request_from_line, Request};
use neo::response::ResponseStatus;

fn request(line: &str) -> Request {
    request_from_line(line).unwrap()
}

fn taken(executor: &mut Executor<MappingDefault>, line: &str) -> Dispatch {
    match executor.handle_request(request(line)) {
        Ok(dispatch) => dispatch,
        Err(_) => panic!("the request was not taken"),
    }
}

#[test]
fn operations_come_in_search_order() {
    assert_eq!(
        Operation::iter(),
        vec![Operation::Nothing, Operation::FileRead, Operation::FileCopy, Operation::CommandRun]
    );
}

#[test]
fn default_aliases() {
    let mapping = MappingDefault {};
    assert_eq!(mapping.get_operation_aliases(Operation::FileRead), vec!["file-read"]);
    assert_eq!(mapping.get_operation_aliases(Operation::FileCopy), vec!["file-copy"]);
    assert!(mapping.get_operation_aliases(Operation::Nothing).is_empty());
    assert!(mapping.get_operation_aliases(Operation::CommandRun).is_empty());
}

#[test]
fn aliases_are_the_same_each_time() {
    let mapping = MappingDefault {};
    for operation in Operation::iter() {
        assert_eq!(
            mapping.get_operation_aliases(operation),
            mapping.get_operation_aliases(operation)
        );
    }
}

#[test]
fn alias_selects_its_operation() {
    let executor = Executor::new();
    assert_eq!(
        executor.get_operation_from_request(&request("file-read")),
        Some(Operation::FileRead)
    );
    assert_eq!(
        executor.get_operation_from_request(&request("file-copy a b")),
        Some(Operation::FileCopy)
    );
    assert_eq!(executor.resolve(&request("file-read x")), Operation::FileRead);
    assert_eq!(executor.resolve(&request("file-copy")), Operation::FileCopy);
}

#[test]
fn unknown_key_falls_back() {
    let executor = Executor::new();
    assert_eq!(executor.get_operation_from_request(&request("echo hello")), None);
    assert_eq!(executor.resolve(&request("echo hello")), Operation::CommandRun);
    assert_eq!(executor.resolve(&request("file-reads")), Operation::CommandRun);
    assert_eq!(executor.resolve(&request("File-Read")), Operation::CommandRun);
    assert_eq!(executor.resolve(&request("file")), Operation::CommandRun);
}

#[test]
fn resolving_again_gives_the_same_operation() {
    let mut executor = Executor::new();
    let line = request("file-copy a b");
    let first = executor.resolve(&line);
    let second = executor.resolve(&line);
    assert_eq!(first, second);
    let _ = taken(&mut executor, "ls");
    assert_eq!(executor.resolve(&line), first);
    let _ = executor.complete(Outcome::Exited { code: Some(0) });
    assert_eq!(executor.resolve(&line), first);
}

struct Overlapping {}

impl Mapping for Overlapping {
    fn aliases(&self, _: Operation) -> vstd::seq::Seq<vstd::seq::Seq<char>> {
        unreachable!()
    }

    fn get_operation_aliases(&self, operation: Operation) -> Vec<String> {
        match operation {
            Operation::Nothing => vec![],
            Operation::FileRead => vec!["read".to_string(), "both".to_string()],
            Operation::FileCopy => vec!["both".to_string(), "copy".to_string()],
            Operation::CommandRun => vec!["run".to_string()],
        }
    }
}

#[test]
fn first_operation_in_order_wins() {
    let mut executor = Executor::with_mapping(Overlapping {});
    assert_eq!(executor.resolve(&request("both")), Operation::FileRead);
    assert_eq!(executor.resolve(&request("copy")), Operation::FileCopy);
    assert_eq!(executor.resolve(&request("read")), Operation::FileRead);
    assert_eq!(executor.resolve(&request("other")), Operation::CommandRun);
    assert_eq!(
        executor.get_operation_from_request(&request("run")),
        Some(Operation::CommandRun)
    );
    match executor.handle_request(request("run fast")) {
        Ok(dispatch) => {
            assert_eq!(dispatch.operation, Operation::CommandRun);
            assert!(!dispatch.fallback);
        }
        Err(_) => panic!("the request was not taken"),
    }
}

#[test]
fn file_read_is_not_available() {
    let mut executor = Executor::new();
    let dispatch = taken(&mut executor, "file-read");
    assert_eq!(dispatch.operation, Operation::FileRead);
    assert!(!dispatch.fallback);
    match dispatch.step {
        Step::Finished(response) => assert_eq!(response.get_status(), ResponseStatus::Error),
        Step::Spawn { .. } => panic!("nothing is to be run"),
    }
    assert!(!executor.is_busy());
    let dispatch = taken(&mut executor, "file-copy a b");
    assert_eq!(dispatch.operation, Operation::FileCopy);
    assert!(matches!(dispatch.step, Step::Finished(_)));
    assert!(!executor.is_busy());
}

#[test]
fn echo_hello_runs_and_succeeds() {
    let mut executor = Executor::new();
    let dispatch = taken(&mut executor, "echo hello");
    assert_eq!(dispatch.operation, Operation::CommandRun);
    assert!(dispatch.fallback);
    match dispatch.step {
        Step::Spawn { program, args } => {
            assert_eq!(program, "echo");
            assert_eq!(args, vec!["hello"]);
        }
        Step::Finished(_) => panic!("a command is to be run"),
    }
    assert!(executor.is_busy());
    let response = executor.complete(Outcome::Exited { code: Some(0) }).unwrap();
    assert_eq!(response.get_status(), ResponseStatus::Success);
    assert!(!executor.is_busy());
}

#[test]
fn false_runs_and_fails() {
    let mut executor = Executor::new();
    let dispatch = taken(&mut executor, "false");
    assert!(dispatch.fallback);
    match dispatch.step {
        Step::Spawn { program, args } => {
            assert_eq!(program, "false");
            assert!(args.is_empty());
        }
        Step::Finished(_) => panic!("a command is to be run"),
    }
    let response = executor.complete(Outcome::Exited { code: Some(1) }).unwrap();
    assert_eq!(response.get_status(), ResponseStatus::Error);
}

#[test]
fn every_failure_is_an_error() {
    let outcomes = vec![
        Outcome::SpawnFailed,
        Outcome::WaitFailed,
        Outcome::Exited { code: None },
        Outcome::Exited { code: Some(1) },
        Outcome::Exited { code: Some(-1) },
        Outcome::Exited { code: Some(255) },
    ];
    for outcome in outcomes {
        let mut executor = Executor::new();
        let _ = taken(&mut executor, "ls");
        let response = executor.complete(outcome).unwrap();
        assert_eq!(response.get_status(), ResponseStatus::Error, "{:?}", outcome);
    }
}

#[test]
fn execute_plans_by_operation() {
    for operation in [Operation::Nothing, Operation::FileRead, Operation::FileCopy] {
        match Executor::new().execute(operation, request("ls -l")) {
            Step::Finished(response) => assert_eq!(response.get_status(), ResponseStatus::Error),
            Step::Spawn { .. } => panic!("nothing is to be run"),
        }
    }
    match Executor::new().execute(Operation::CommandRun, request("ls -l")) {
        Step::Spawn { program, args } => {
            assert_eq!(program, "ls");
            assert_eq!(args, vec!["-l"]);
        }
        Step::Finished(_) => panic!("a command is to be run"),
    }
}

#[test]
fn second_request_waits_for_the_first() {
    let mut executor = Executor::new();
    let _ = taken(&mut executor, "sleep 1");
    assert!(executor.is_busy());
    let back = match executor.handle_request(request("echo second")) {
        Ok(_) => panic!("two executions overlap"),
        Err(back) => back,
    };
    assert_eq!(back.get_key(), "echo");
    assert_eq!(back.get_args(), &vec!["second".to_string()]);
    assert!(executor.is_busy());
    assert!(executor.complete(Outcome::Exited { code: Some(0) }).is_some());
    assert!(!executor.is_busy());
    match executor.handle_request(back) {
        Ok(dispatch) => match dispatch.step {
            Step::Spawn { program, args } => {
                assert_eq!(program, "echo");
                assert_eq!(args, vec!["second"]);
            }
            Step::Finished(_) => panic!("a command is to be run"),
        },
        Err(_) => panic!("the request was not taken"),
    }
}

#[test]
fn nothing_to_complete_when_idle() {
    let mut executor = Executor::new();
    assert!(executor.complete(Outcome::Exited { code: Some(0) }).is_none());
    assert!(!executor.is_busy());
    let _ = taken(&mut executor, "file-read");
    assert!(executor.complete(Outcome::Exited { code: Some(0) }).is_none());
}
