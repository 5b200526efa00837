//! The exercise records the dashboard works on, and the command line that
//! tests one of them.

use crate::text::{str_eq, views};
use vstd::prelude::*;

verus! {

/// One graded exercise. The records come from the registry in the order
/// that defines navigation and the grouping by module in list views; the
/// dashboard never changes them.
#[derive(Debug, Clone)]
pub struct Exercise {
    /// The name shown to the user.
    pub name: String,
    /// The stable identifier: the package that the test command is run for.
    pub package: String,
    /// Where the source of the exercise lies.
    pub path: String,
    /// The module, or group, that the exercise belongs to.
    pub module: String,
    /// One line that says what the exercise is about.
    pub description: String,
    /// The hint text, possibly of several lines.
    pub hint: String,
}

/// What one run of an exercise's tests gave: whether they passed, and the
/// combined output that was captured. The dashboard keeps the last outcome
/// of the exercise on display and nothing older.
#[derive(Debug, Clone)]
pub struct TestOutcome {
    pub passed: bool,
    pub output: String,
}

/// An outcome as specifications see it.
pub struct OutcomeView {
    pub passed: bool,
    pub output: Seq<char>,
}

impl View for TestOutcome {
    type V = OutcomeView;

    open spec fn view(&self) -> OutcomeView {
        OutcomeView { passed: self.passed, output: self.output@ }
    }
}

/// The view of an outcome that may be missing.
pub open spec fn outcome_view(o: Option<TestOutcome>) -> Option<OutcomeView> {
    match o {
        Some(t) => Some(t@),
        None => None,
    }
}

/// The target that the context-switch exercises are built and run for.
pub const RISCV64_TARGET: &'static str = "riscv64gc-unknown-linux-gnu";

/// Whether `package` is one of the exercises that run on the riscv64 target.
pub open spec fn riscv64_package(package: Seq<char>) -> bool {
    package == "stack_coroutine"@ || package == "green_threads"@
}

/// Whether the tests of `package` need the riscv64 target.
pub fn need_riscv64_target(package: &str) -> (r: bool)
    ensures
        r == riscv64_package(package@),
{
    str_eq(package, "stack_coroutine") || str_eq(package, "green_threads")
}

/// The arguments of the test command for `package`. The quiet form is used
/// to probe many exercises at once; the other one keeps the coloured output
/// for the failure panel.
pub open spec fn test_command_args(package: Seq<char>, quiet: bool) -> Seq<Seq<char>> {
    let head = seq!["test"@, "-p"@, package];
    let target = if riscv64_package(package) {
        seq!["--target"@, RISCV64_TARGET@]
    } else {
        Seq::empty()
    };
    let tail = if quiet {
        if riscv64_package(package) {
            seq!["--quiet"@, "--"@, "--nocapture"@]
        } else {
            seq!["--quiet"@]
        }
    } else {
        if riscv64_package(package) {
            seq!["--"@, "--color=always"@, "--nocapture"@]
        } else {
            seq!["--"@, "--color=always"@]
        }
    };
    head + target + tail
}

fn push_arg(args: &mut Vec<String>, s: &str)
    ensures
        views(final(args)@) == views(old(args)@).push(s@),
{
    let owned = String::from_str(s);
    args.push(owned);
}

/// Builds the arguments that the test runner hands to `cargo` for `package`.
pub fn test_args(package: &str, quiet: bool) -> (args: Vec<String>)
    ensures
        views(args@) == test_command_args(package@, quiet),
{
    let riscv = need_riscv64_target(package);
    let mut args: Vec<String> = Vec::new();
    push_arg(&mut args, "test");
    push_arg(&mut args, "-p");
    push_arg(&mut args, package);
    if riscv {
        push_arg(&mut args, "--target");
        push_arg(&mut args, RISCV64_TARGET);
    }
    if quiet {
        push_arg(&mut args, "--quiet");
        if riscv {
            push_arg(&mut args, "--");
            push_arg(&mut args, "--nocapture");
        }
    } else {
        push_arg(&mut args, "--");
        push_arg(&mut args, "--color=always");
        if riscv {
            push_arg(&mut args, "--nocapture");
        }
    }
    args
}

/// The place of the first exercise whose package is `name`.
pub fn find_exercise(exercises: &[Exercise], name: &str) -> (r: Option<usize>)
    ensures
        match r {
            Some(i) => {
                &&& i < exercises.len()
                &&& exercises[i as int].package@ == name@
                &&& forall|j: int| 0 <= j < i ==> exercises[j].package@ != name@
            },
            None => forall|j: int| 0 <= j < exercises.len() ==> exercises[j].package@ != name@,
        },
{
    let mut i: usize = 0;
    while i < exercises.len()
        invariant
            i <= exercises.len(),
            forall|j: int| 0 <= j < i ==> exercises[j].package@ != name@,
        decreases exercises.len() - i,
    {
        if str_eq(exercises[i].package.as_str(), name) {
            return Some(i);
        }
        i += 1;
    }
    None
}

} // verus!
