//! The judging core of an online judge: sandbox invocation and meta-report
//! parsing, the language registry, the worker's judging state machine and
//! the dispatcher's bookkeeping.
pub mod text;
pub mod contest_package;
pub mod dispatcher;
pub mod isolate;
pub mod job;
pub mod language;
pub mod pattern;
pub mod problem_package;
pub mod template;
pub mod test_path;
pub mod worker;
