//! The texts of the subcommands that run once and print a report, and of
//! what the program says when it cannot go on. These are printed while the
//! terminal is in its normal mode: their lines end in `"\n"`.

use crate::exercise::Exercise;
use crate::render::{module_before, progress_bar, progress_bar_text, BAR_WIDTH};
use crate::style::{BLUE, BOLD, DIM, GREEN, RED, RESET, YELLOW};
use crate::text::{
    decimal, left_aligned, push_decimal, push_decimal_right, push_left_aligned, right_aligned,
    str_eq,
};
use vstd::prelude::*;

verus! {

/// What the program was asked to do.
#[derive(Debug, Clone, Copy, PartialEq, Eq, Structural)]
pub enum Subcommand {
    /// The interactive session. It is also what no argument means.
    Watch,
    /// The list of all exercises with their state.
    List,
    /// The check of all exercises.
    Check,
    /// The test run of one exercise.
    Run,
    /// The hint of one exercise.
    Hint,
    /// The usage text.
    Help,
    /// Something the program does not know.
    Unknown,
}

/// The subcommand that the first argument names.
pub open spec fn subcommand_of(arg: Option<Seq<char>>) -> Subcommand {
    match arg {
        None => Subcommand::Watch,
        Some(a) => if a == "watch"@ {
            Subcommand::Watch
        } else if a == "list"@ {
            Subcommand::List
        } else if a == "check"@ {
            Subcommand::Check
        } else if a == "run"@ {
            Subcommand::Run
        } else if a == "hint"@ {
            Subcommand::Hint
        } else if a == "help"@ || a == "--help"@ || a == "-h"@ {
            Subcommand::Help
        } else {
            Subcommand::Unknown
        },
    }
}

/// The first argument as specifications see it.
pub open spec fn arg_view(arg: Option<&str>) -> Option<Seq<char>> {
    match arg {
        Some(a) => Some(a@),
        None => None,
    }
}

/// Reads the subcommand from the first argument of the program.
pub fn parse_subcommand(arg: Option<&str>) -> (sub: Subcommand)
    ensures
        sub == subcommand_of(arg_view(arg)),
{
    match arg {
        None => Subcommand::Watch,
        Some(a) => {
            if str_eq(a, "watch") {
                Subcommand::Watch
            } else if str_eq(a, "list") {
                Subcommand::List
            } else if str_eq(a, "check") {
                Subcommand::Check
            } else if str_eq(a, "run") {
                Subcommand::Run
            } else if str_eq(a, "hint") {
                Subcommand::Hint
            } else if str_eq(a, "help") || str_eq(a, "--help") || str_eq(a, "-h") {
                Subcommand::Help
            } else {
                Subcommand::Unknown
            }
        },
    }
}

/// Why the program cannot go on.
#[derive(Debug, Clone, Copy, PartialEq, Eq, Structural)]
pub enum ErrorKind {
    /// The registry of exercises was not found.
    RegistryUnreadable,
    /// The registry of exercises does not have the expected form.
    RegistryMalformed,
    /// The terminal could not be put into raw mode.
    TerminalUnavailable,
    /// The file watcher could not be started.
    WatcherUnavailable,
    /// The test command could not be started.
    SpawnFailed,
    /// No exercise has the package that was named.
    ExerciseNotFound,
    /// The subcommand is not known.
    UnknownCommand,
    /// `run` was given without a package.
    RunWithoutPackage,
    /// `hint` was given without a package.
    HintWithoutPackage,
}

/// The exit code of the program after an error. What goes wrong in the
/// surroundings of the program (a registry that cannot be parsed, a terminal
/// or a watcher that cannot be had, a test command that cannot be started)
/// ends it the way a panic does, with 101; what the user got wrong ends it
/// with 1.
pub open spec fn exit_code_of(kind: ErrorKind) -> int {
    match kind {
        ErrorKind::RegistryMalformed => 101,
        ErrorKind::TerminalUnavailable => 101,
        ErrorKind::WatcherUnavailable => 101,
        ErrorKind::SpawnFailed => 101,
        ErrorKind::RegistryUnreadable => 1,
        ErrorKind::ExerciseNotFound => 1,
        ErrorKind::UnknownCommand => 1,
        ErrorKind::RunWithoutPackage => 1,
        ErrorKind::HintWithoutPackage => 1,
    }
}

/// The exit code of the program after an error of this kind. It is never 0.
pub fn exit_code(kind: ErrorKind) -> (code: i32)
    ensures
        code == exit_code_of(kind),
        code != 0,
{
    match kind {
        ErrorKind::RegistryMalformed => 101,
        ErrorKind::TerminalUnavailable => 101,
        ErrorKind::WatcherUnavailable => 101,
        ErrorKind::SpawnFailed => 101,
        ErrorKind::RegistryUnreadable => 1,
        ErrorKind::ExerciseNotFound => 1,
        ErrorKind::UnknownCommand => 1,
        ErrorKind::RunWithoutPackage => 1,
        ErrorKind::HintWithoutPackage => 1,
    }
}

/// The diagnostic for an error. `detail` is the package or the subcommand
/// that the error is about, for the kinds that are about one.
pub open spec fn diagnostic_text(kind: ErrorKind, detail: Seq<char>) -> Seq<char> {
    match kind {
        ErrorKind::RegistryUnreadable => RED@ + "Error:"@ + RESET@
            + " Could not find exercises.toml, please run in project root directory\n"@,
        ErrorKind::RegistryMalformed => "exercises.toml format error\n"@,
        ErrorKind::TerminalUnavailable => "Failed to enable terminal raw mode\n"@,
        ErrorKind::WatcherUnavailable => "Failed to create file watcher\n"@,
        ErrorKind::SpawnFailed => "Failed to run cargo test\n"@,
        ErrorKind::ExerciseNotFound => "Exercise not found: "@ + detail
            + "\nUse 'oscamp list' to see all exercises\n"@,
        ErrorKind::UnknownCommand => "Unknown command: "@ + detail + "\n"@,
        ErrorKind::RunWithoutPackage => "Usage: oscamp run <package>\n"@,
        ErrorKind::HintWithoutPackage => "Usage: oscamp hint <package>\n"@,
    }
}

/// Writes the diagnostic for an error.
pub fn diagnostic(kind: ErrorKind, detail: &str) -> (text: String)
    ensures
        text@ == diagnostic_text(kind, detail@),
{
    match kind {
        ErrorKind::RegistryUnreadable => {
            let mut text = String::from_str(RED);
            text.append("Error:");
            text.append(RESET);
            text.append(" Could not find exercises.toml, please run in project root directory\n");
            text
        },
        ErrorKind::RegistryMalformed => String::from_str("exercises.toml format error\n"),
        ErrorKind::TerminalUnavailable => String::from_str("Failed to enable terminal raw mode\n"),
        ErrorKind::WatcherUnavailable => String::from_str("Failed to create file watcher\n"),
        ErrorKind::SpawnFailed => String::from_str("Failed to run cargo test\n"),
        ErrorKind::ExerciseNotFound => {
            let mut text = String::from_str("Exercise not found: ");
            text.append(detail);
            text.append("\nUse 'oscamp list' to see all exercises\n");
            text
        },
        ErrorKind::UnknownCommand => {
            let mut text = String::from_str("Unknown command: ");
            text.append(detail);
            text.append("\n");
            text
        },
        ErrorKind::RunWithoutPackage => String::from_str("Usage: oscamp run <package>\n"),
        ErrorKind::HintWithoutPackage => String::from_str("Usage: oscamp hint <package>\n"),
    }
}

/// The usage text.
pub open spec fn usage_text() -> Seq<char> {
    BOLD@ + BLUE@ + "OS Camp"@ + RESET@ + " - Rust & OS Advanced Experiments\n\n"@
        + "Usage: oscamp [command]\n\n"@ + "Commands:\n"@ + "  "@ + BOLD@ + "watch"@ + RESET@
        + "    Interactive exercise mode (default) - real-time file monitoring\n"@ + "  "@ + BOLD@
        + "list"@ + RESET@ + "     View completion status of all exercises\n"@ + "  "@ + BOLD@
        + "check"@ + RESET@ + "    Check all exercises in batch\n"@ + "  "@ + BOLD@ + "run"@
        + RESET@ + "      Run specified exercise  (oscamp run <package>)\n"@ + "  "@ + BOLD@
        + "hint"@ + RESET@ + "     View exercise hint  (oscamp hint <package>)\n"@ + "  "@ + BOLD@
        + "help"@ + RESET@ + "     Show this help message\n"@
}

fn push_usage_entry(text: &mut String, name: &str, what: &str)
    ensures
        final(text)@ == old(text)@ + "  "@ + BOLD@ + name@ + RESET@ + what@,
{
    text.append("  ");
    text.append(BOLD);
    text.append(name);
    text.append(RESET);
    text.append(what);
}

/// Writes the usage text.
pub fn usage() -> (text: String)
    ensures
        text@ == usage_text(),
{
    let mut text = String::from_str(BOLD);
    text.append(BLUE);
    text.append("OS Camp");
    text.append(RESET);
    text.append(" - Rust & OS Advanced Experiments\n\n");
    text.append("Usage: oscamp [command]\n\n");
    text.append("Commands:\n");
    push_usage_entry(
        &mut text,
        "watch",
        "    Interactive exercise mode (default) - real-time file monitoring\n",
    );
    push_usage_entry(&mut text, "list", "     View completion status of all exercises\n");
    push_usage_entry(&mut text, "check", "    Check all exercises in batch\n");
    push_usage_entry(
        &mut text,
        "run",
        "      Run specified exercise  (oscamp run <package>)\n",
    );
    push_usage_entry(&mut text, "hint", "     View exercise hint  (oscamp hint <package>)\n");
    push_usage_entry(&mut text, "help", "     Show this help message\n");
    text
}

/// The mark of an exercise in a report: a tick if it passes, a cross if not.
pub open spec fn verdict_mark(passed: bool) -> Seq<char> {
    if passed {
        GREEN@ + "✅"@ + RESET@
    } else {
        RED@ + "❌"@ + RESET@
    }
}

/// The line that opens the list of all exercises.
pub fn list_heading() -> (text: String)
    ensures
        text@ == BOLD@ + BLUE@ + "OS Camp - Exercise list"@ + RESET@ + "\n\n"@,
{
    let mut text = String::from_str(BOLD);
    text.append(BLUE);
    text.append("OS Camp - Exercise list");
    text.append(RESET);
    text.append("\n\n");
    text
}

/// The entry of the exercise at `at` in the list of all exercises: its
/// mark, number, name and test command, under the heading of its module if
/// the exercise before it is of another one.
pub open spec fn list_entry_text(exercises: Seq<Exercise>, at: int, passed: bool) -> Seq<char> {
    let ex = exercises[at];
    (if ex.module@ != module_before(exercises, at) {
        "\n  "@ + YELLOW@ + "["@ + ex.module@ + "]"@ + RESET@ + "\n"@
    } else {
        Seq::empty()
    }) + ("  "@ + verdict_mark(passed) + " "@ + right_aligned(decimal((at + 1) as nat), 2) + ". "@
        + left_aligned(ex.name@, 22) + " ("@ + DIM@ + "cargo test -p "@ + ex.package@ + RESET@
        + ")\n"@)
}

/// Writes the entry of the exercise at `at` in the list of all exercises.
pub fn list_entry(exercises: &[Exercise], at: usize, passed: bool) -> (text: String)
    requires
        at < exercises.len(),
    ensures
        text@ == list_entry_text(exercises@, at as int, passed),
{
    let ex = &exercises[at];
    let new_module = if at == 0 {
        assert(""@ == Seq::<char>::empty()) by {
            reveal_strlit("");
        }
        !str_eq(ex.module.as_str(), "")
    } else {
        !str_eq(ex.module.as_str(), exercises[at - 1].module.as_str())
    };
    let mut text = String::new();
    if new_module {
        text.append("\n  ");
        text.append(YELLOW);
        text.append("[");
        text.append(ex.module.as_str());
        text.append("]");
        text.append(RESET);
        text.append("\n");
    }
    let mut row = String::from_str("  ");
    if passed {
        row.append(GREEN);
        row.append("✅");
        row.append(RESET);
    } else {
        row.append(RED);
        row.append("❌");
        row.append(RESET);
    }
    row.append(" ");
    push_decimal_right(&mut row, at + 1, 2);
    row.append(". ");
    push_left_aligned(&mut row, ex.name.as_str(), 22);
    row.append(" (");
    row.append(DIM);
    row.append("cargo test -p ");
    row.append(ex.package.as_str());
    row.append(RESET);
    row.append(")\n");
    text.append(row.as_str());
    text
}

/// The progress bar that closes the list of all exercises.
pub fn list_footer(done: usize, total: usize) -> (text: String)
    requires
        done <= total,
    ensures
        text@ == "\n  Progress: "@ + progress_bar_text(done as nat, total as nat, BAR_WIDTH as nat)
            + "\n\n"@,
{
    let bar = progress_bar(done, total, BAR_WIDTH);
    let mut text = String::from_str("\n  Progress: ");
    text.append(bar.as_str());
    text.append("\n\n");
    text
}

/// The line that opens the check of all exercises.
pub fn check_heading() -> (text: String)
    ensures
        text@ == BOLD@ + BLUE@ + "OS Camp - Check all exercises"@ + RESET@ + "\n\n"@,
{
    let mut text = String::from_str(BOLD);
    text.append(BLUE);
    text.append("OS Camp - Check all exercises");
    text.append(RESET);
    text.append("\n\n");
    text
}

/// What is printed before the exercise at `at` of `total` is checked: its
/// number and its name. The verdict follows on the same line.
pub fn check_entry(at: usize, total: usize, name: &str) -> (text: String)
    requires
        at < total,
    ensures
        text@ == "  ["@ + right_aligned(decimal((at + 1) as nat), 2) + "/"@ + decimal(total as nat)
            + "] "@ + left_aligned(name@, 22) + " "@,
{
    let mut text = String::from_str("  [");
    push_decimal_right(&mut text, at + 1, 2);
    text.append("/");
    push_decimal(&mut text, total);
    text.append("] ");
    push_left_aligned(&mut text, name, 22);
    text.append(" ");
    text
}

/// The verdict on one exercise in the check of all exercises.
pub fn check_verdict(passed: bool) -> (text: String)
    ensures
        text@ == if passed {
            GREEN@ + "✅ PASS"@ + RESET@ + "\n"@
        } else {
            RED@ + "❌ FAIL"@ + RESET@ + "\n"@
        },
{
    if passed {
        let mut text = String::from_str(GREEN);
        text.append("✅ PASS");
        text.append(RESET);
        text.append("\n");
        text
    } else {
        let mut text = String::from_str(RED);
        text.append("❌ FAIL");
        text.append(RESET);
        text.append("\n");
        text
    }
}

/// The result of the check of all exercises: how many of them pass, and a
/// cheer if all do.
pub open spec fn check_summary_text(done: nat, total: nat) -> Seq<char> {
    "\n  "@ + BOLD@ + "Result: "@ + decimal(done) + "/"@ + decimal(total) + " passed"@ + RESET@
        + "\n"@ + (if done == total {
        "  "@ + GREEN@ + "🎉 All passed!"@ + RESET@ + "\n"@
    } else {
        Seq::empty()
    })
}

/// Writes the result of the check of all exercises.
pub fn check_summary(done: usize, total: usize) -> (text: String)
    ensures
        text@ == check_summary_text(done as nat, total as nat),
{
    let mut text = String::from_str("\n  ");
    text.append(BOLD);
    text.append("Result: ");
    push_decimal(&mut text, done);
    text.append("/");
    push_decimal(&mut text, total);
    text.append(" passed");
    text.append(RESET);
    text.append("\n");
    if done == total {
        text.append("  ");
        text.append(GREEN);
        text.append("🎉 All passed!");
        text.append(RESET);
        text.append("\n");
    }
    text
}

/// What is printed before the test run of one exercise: its name, what it
/// is about, and where it lies.
pub fn run_heading(ex: &Exercise) -> (text: String)
    ensures
        text@ == BOLD@ + "▶ "@ + ex.name@ + " - "@ + ex.description@ + RESET@ + "\n"@ + "  📄 "@
            + ex.path@ + "\n\n"@,
{
    let mut text = String::from_str(BOLD);
    text.append("▶ ");
    text.append(ex.name.as_str());
    text.append(" - ");
    text.append(ex.description.as_str());
    text.append(RESET);
    text.append("\n");
    text.append("  📄 ");
    text.append(ex.path.as_str());
    text.append("\n\n");
    text
}

/// What is printed after the test run of the exercise of `package`: the
/// verdict, and after a failure how to get the hint.
pub open spec fn run_verdict_text(passed: bool, package: Seq<char>) -> Seq<char> {
    if passed {
        "\n"@ + BOLD@ + GREEN@ + "✅ Test passed!"@ + RESET@ + "\n"@
    } else {
        "\n"@ + BOLD@ + RED@ + "❌ Test failed"@ + RESET@ + "\n"@ + "  💡 Use 'oscamp hint "@
            + package + "' to view hint\n"@
    }
}

/// Writes the verdict on the test run of one exercise.
pub fn run_verdict(passed: bool, package: &str) -> (text: String)
    ensures
        text@ == run_verdict_text(passed, package@),
{
    let mut text = String::from_str("\n");
    text.append(BOLD);
    if passed {
        text.append(GREEN);
        text.append("✅ Test passed!");
        text.append(RESET);
        text.append("\n");
    } else {
        text.append(RED);
        text.append("❌ Test failed");
        text.append(RESET);
        text.append("\n");
        text.append("  💡 Use 'oscamp hint ");
        text.append(package);
        text.append("' to view hint\n");
    }
    text
}

/// The hint of one exercise under a heading with its name.
pub fn hint_report(ex: &Exercise) -> (text: String)
    ensures
        text@ == BOLD@ + YELLOW@ + "💡 "@ + ex.name@ + " - Hint:"@ + RESET@ + "\n\n"@ + ex.hint@
            + "\n"@,
{
    let mut text = String::from_str(BOLD);
    text.append(YELLOW);
    text.append("💡 ");
    text.append(ex.name.as_str());
    text.append(" - Hint:");
    text.append(RESET);
    text.append("\n\n");
    text.append(ex.hint.as_str());
    text.append("\n");
    text
}

} // verus!
