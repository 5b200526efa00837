//! The text of the dashboard: what is drawn, after the screen has been
//! cleared and the cursor sent home, for a given exercise, progress, last
//! outcome and pair of display toggles. Every function appends to a string
//! and says exactly which characters it appends; all line endings are the
//! `"\r\n"` that a raw terminal needs.

use crate::exercise::{outcome_view, Exercise, OutcomeView, TestOutcome};
use crate::style::{BAR_EMPTY, BAR_FULL, BLUE, BOLD, CYAN, DIM, GREEN, RED, RESET, YELLOW};
use crate::text::{
    crlf_only, decimal, left_aligned, lemma_crlf_only_concat, lemma_raw_line_crlf_only, lines,
    push_decimal, push_decimal_right, push_left_aligned, push_repeated, raw_line, repeated,
    right_aligned, rprintln, split_lines, str_eq, views,
};
use vstd::prelude::*;

verus! {

/// The width of the progress bar in the header, in segments.
pub const BAR_WIDTH: usize = 20;

/// How many lines of a failing test's output the failure panel shows at most.
pub const FAILURE_TAIL_LINES: usize = 30;

/// The number of filled segments of a bar of `width` segments when `done`
/// of `total` exercises pass: the whole part of `done * width / total`, and
/// none while there are no exercises.
pub open spec fn bar_filled(done: nat, total: nat, width: nat) -> nat {
    if total > 0 {
        done * width / total
    } else {
        0
    }
}

/// The percentage shown beside the bar: the whole part of
/// `done * 100 / total`, and 0 while there are no exercises.
pub open spec fn percent(done: nat, total: nat) -> nat {
    if total > 0 {
        done * 100 / total
    } else {
        0
    }
}

/// A share of a whole never fills more than the whole bar.
pub proof fn lemma_bar_filled_bound(done: nat, total: nat, width: nat)
    requires
        done <= total,
    ensures
        bar_filled(done, total, width) <= width,
        done == total && total > 0 ==> bar_filled(done, total, width) == width,
        done == 0 ==> bar_filled(done, total, width) == 0,
{
    if total > 0 {
        assert(done * width <= total * width) by (nonlinear_arith)
            requires
                done <= total,
        ;
        vstd::arithmetic::div_mod::lemma_div_is_ordered(
            (done * width) as int,
            (total * width) as int,
            total as int,
        );
        assert(total * width == width * total) by (nonlinear_arith);
        vstd::arithmetic::div_mod::lemma_div_multiples_vanish(width as int, total as int);
        if done == 0 {
            assert(done * width == 0) by (nonlinear_arith)
                requires
                    done == 0,
            ;
        }
    }
}

/// Computes the number of filled segments of the progress bar.
pub fn filled_segments(done: usize, total: usize, width: usize) -> (filled: usize)
    requires
        total == 0 || done <= total,
    ensures
        filled == bar_filled(done as nat, total as nat, width as nat),
        filled <= width,
{
    if total == 0 {
        return 0;
    }
    proof {
        lemma_bar_filled_bound(done as nat, total as nat, width as nat);
        assert(done * width <= usize::MAX * usize::MAX) by (nonlinear_arith)
            requires
                0 <= done <= usize::MAX,
                0 <= width <= usize::MAX,
        ;
    }
    let wide: u128 = (done as u128) * (width as u128) / (total as u128);
    wide as usize
}

/// Computes the percentage of exercises that pass.
pub fn percent_done(done: usize, total: usize) -> (pct: usize)
    requires
        total == 0 || done <= total,
    ensures
        pct == percent(done as nat, total as nat),
        pct <= 100,
{
    if total == 0 {
        return 0;
    }
    proof {
        lemma_bar_filled_bound(done as nat, total as nat, 100);
    }
    let wide: u128 = (done as u128) * 100u128 / (total as u128);
    wide as usize
}

/// The progress bar: the filled segments, the empty ones, then the count and
/// the percentage, all in green.
pub open spec fn progress_bar_text(done: nat, total: nat, width: nat) -> Seq<char> {
    let filled = bar_filled(done, total, width);
    GREEN@ + repeated(BAR_FULL, filled) + repeated(BAR_EMPTY, (width - filled) as nat) + "  "@
        + decimal(done) + "/"@ + decimal(total) + " ("@ + decimal(percent(done, total)) + "%)"@
        + RESET@
}

/// Draws the progress bar for `done` of `total` exercises, `width` segments
/// wide.
pub fn progress_bar(done: usize, total: usize, width: usize) -> (bar: String)
    requires
        total == 0 || done <= total,
    ensures
        bar@ == progress_bar_text(done as nat, total as nat, width as nat),
{
    let filled = filled_segments(done, total, width);
    let pct = percent_done(done, total);
    let mut bar = String::from_str(GREEN);
    push_repeated(&mut bar, BAR_FULL, filled);
    push_repeated(&mut bar, BAR_EMPTY, width - filled);
    bar.append("  ");
    push_decimal(&mut bar, done);
    bar.append("/");
    push_decimal(&mut bar, total);
    bar.append(" (");
    push_decimal(&mut bar, pct);
    bar.append("%)");
    bar.append(RESET);
    bar
}

/// The header that stands at the top of every screen: the title, the
/// progress bar, and the number, name, module, description and path of the
/// exercise at `current`.
pub open spec fn header_text(exercises: Seq<Exercise>, current: int, done: nat) -> Seq<char> {
    let total = exercises.len();
    let ex = exercises[current];
    raw_line(BOLD@ + BLUE@ + "─── OS Camp ─── Rust & OS Advanced Experiments ───"@ + RESET@)
        + raw_line("  Progress: "@ + progress_bar_text(done, total, BAR_WIDTH as nat)) + raw_line(
        Seq::empty(),
    ) + raw_line(
        "  "@ + BOLD@ + "▶ Exercise "@ + decimal((current + 1) as nat) + "/"@ + decimal(total)
            + ": "@ + ex.name@ + RESET@,
    ) + raw_line("    "@ + DIM@ + "Module:"@ + RESET@ + " "@ + ex.module@) + raw_line(
        "    "@ + CYAN@ + ex.description@ + RESET@,
    ) + raw_line("    "@ + DIM@ + "📄 "@ + ex.path@ + RESET@)
}

/// Appends the header for the exercise at `current`, with `done` exercises
/// passing.
pub fn render_header(out: &mut String, exercises: &[Exercise], current: usize, done: usize)
    requires
        current < exercises.len(),
        done <= exercises.len(),
    ensures
        final(out)@ == old(out)@ + header_text(exercises@, current as int, done as nat),
{
    let total = exercises.len();
    let ex = &exercises[current];
    let bar = progress_bar(done, total, BAR_WIDTH);

    let mut title = String::from_str(BOLD);
    title.append(BLUE);
    title.append("─── OS Camp ─── Rust & OS Advanced Experiments ───");
    title.append(RESET);
    rprintln(out, title.as_str());

    let mut progress = String::from_str("  Progress: ");
    progress.append(bar.as_str());
    rprintln(out, progress.as_str());

    rprintln(out, "");
    assert(""@ == Seq::<char>::empty()) by {
        reveal_strlit("");
    }

    let mut which = String::from_str("  ");
    which.append(BOLD);
    which.append("▶ Exercise ");
    push_decimal(&mut which, current + 1);
    which.append("/");
    push_decimal(&mut which, total);
    which.append(": ");
    which.append(ex.name.as_str());
    which.append(RESET);
    rprintln(out, which.as_str());

    let mut module = String::from_str("    ");
    module.append(DIM);
    module.append("Module:");
    module.append(RESET);
    module.append(" ");
    module.append(ex.module.as_str());
    rprintln(out, module.as_str());

    let mut description = String::from_str("    ");
    description.append(CYAN);
    description.append(ex.description.as_str());
    description.append(RESET);
    rprintln(out, description.as_str());

    let mut path = String::from_str("    ");
    path.append(DIM);
    path.append("📄 ");
    path.append(ex.path.as_str());
    path.append(RESET);
    rprintln(out, path.as_str());

}

/// The lines of `ls` from `from` on, each indented by two spaces.
pub open spec fn indented_lines(ls: Seq<Seq<char>>, from: int) -> Seq<char>
    decreases ls.len() - from,
{
    if from < 0 || from >= ls.len() {
        Seq::empty()
    } else {
        raw_line("  "@ + ls[from]) + indented_lines(ls, from + 1)
    }
}

/// Where the shown tail of `count` lines of output begins: the failure
/// panel shows the last `FAILURE_TAIL_LINES` lines at most.
pub open spec fn tail_start(count: nat) -> nat {
    if count > FAILURE_TAIL_LINES {
        (count - FAILURE_TAIL_LINES) as nat
    } else {
        0
    }
}

/// The failure panel: a banner, a note on how many lines were left out if
/// the output is longer than the panel, then the last lines of the output.
pub open spec fn failure_text(output: Seq<char>) -> Seq<char> {
    let ls = lines(output);
    let start = tail_start(ls.len());
    raw_line("\n  "@ + BOLD@ + RED@ + "❌ Test failed"@ + RESET@ + "\n"@) + (if start > 0 {
        raw_line("  "@ + DIM@ + "... omitted "@ + decimal(start) + " lines ..."@ + RESET@)
    } else {
        Seq::empty()
    }) + indented_lines(ls, start as int)
}

/// Appends the failure panel for the captured `output` of a failing test.
pub fn render_failure(out: &mut String, output: &str)
    ensures
        final(out)@ == old(out)@ + failure_text(output@),
{
    let mut banner = String::from_str("\n  ");
    banner.append(BOLD);
    banner.append(RED);
    banner.append("❌ Test failed");
    banner.append(RESET);
    banner.append("\n");
    rprintln(out, banner.as_str());

    let ls = split_lines(output);
    let n = ls.len();
    let start = if n > FAILURE_TAIL_LINES {
        n - FAILURE_TAIL_LINES
    } else {
        0
    };
    if start > 0 {
        let mut note = String::from_str("  ");
        note.append(DIM);
        note.append("... omitted ");
        push_decimal(&mut note, start);
        note.append(" lines ...");
        note.append(RESET);
        rprintln(out, note.as_str());
    }
    let ghost base = out@;
    let mut i: usize = start;
    while i < n
        invariant
            start <= i <= n,
            n == ls.len(),
            views(ls@) == lines(output@),
            out@ + indented_lines(lines(output@), i as int) == base + indented_lines(
                lines(output@),
                start as int,
            ),
        decreases n - i,
    {
        let mut row = String::from_str("  ");
        row.append(ls[i].as_str());
        assert(row@ == "  "@ + lines(output@)[i as int]);
        rprintln(out, row.as_str());
        i += 1;
    }
    assert(out@ =~= old(out)@ + failure_text(output@));
}

/// The key map and the note on file watching that close every screen of the
/// interactive session.
pub open spec fn controls_text() -> Seq<char> {
    raw_line(Seq::empty()) + raw_line(
        DIM@ + "  ─────────────────────────────────────────"@ + RESET@,
    ) + raw_line(
        "  "@ + BOLD@ + "h"@ + RESET@ + " hint  "@ + BOLD@ + "l"@ + RESET@ + " list  "@ + BOLD@
            + "n"@ + RESET@ + "/"@ + BOLD@ + "p"@ + RESET@ + " prev/next  "@ + BOLD@ + "r"@
            + RESET@ + " retest  "@ + BOLD@ + "q"@ + RESET@ + " quit"@,
    ) + raw_line(
        "  "@ + DIM@ + "📡 Watching for file changes, automatically retests after saving"@
            + RESET@,
    )
}

/// Appends the key map.
pub fn render_controls(out: &mut String)
    ensures
        final(out)@ == old(out)@ + controls_text(),
{
    rprintln(out, "");
    assert(""@ == Seq::<char>::empty()) by {
        reveal_strlit("");
    }

    let mut rule = String::from_str(DIM);
    rule.append("  ─────────────────────────────────────────");
    rule.append(RESET);
    rprintln(out, rule.as_str());

    let mut keys = String::from_str("  ");
    keys.append(BOLD);
    keys.append("h");
    keys.append(RESET);
    keys.append(" hint  ");
    keys.append(BOLD);
    keys.append("l");
    keys.append(RESET);
    keys.append(" list  ");
    keys.append(BOLD);
    keys.append("n");
    keys.append(RESET);
    keys.append("/");
    keys.append(BOLD);
    keys.append("p");
    keys.append(RESET);
    keys.append(" prev/next  ");
    keys.append(BOLD);
    keys.append("r");
    keys.append(RESET);
    keys.append(" retest  ");
    keys.append(BOLD);
    keys.append("q");
    keys.append(RESET);
    keys.append(" quit");
    rprintln(out, keys.as_str());

    let mut watching = String::from_str("  ");
    watching.append(DIM);
    watching.append("📡 Watching for file changes, automatically retests after saving");
    watching.append(RESET);
    rprintln(out, watching.as_str());

}

/// The lines of a hint from `from` on, each indented and in yellow.
pub open spec fn hint_lines(ls: Seq<Seq<char>>, from: int) -> Seq<char>
    decreases ls.len() - from,
{
    if from < 0 || from >= ls.len() {
        Seq::empty()
    } else {
        raw_line("  "@ + YELLOW@ + ls[from] + RESET@) + hint_lines(ls, from + 1)
    }
}

/// The hint block: a heading, then the hint line by line.
pub open spec fn hint_text(hint: Seq<char>) -> Seq<char> {
    raw_line("\n  "@ + BOLD@ + YELLOW@ + "💡 Hint:"@ + RESET@) + hint_lines(lines(hint), 0)
}

/// Appends the hint block of `ex`.
pub fn render_hint(out: &mut String, ex: &Exercise)
    ensures
        final(out)@ == old(out)@ + hint_text(ex.hint@),
{
    let mut heading = String::from_str("\n  ");
    heading.append(BOLD);
    heading.append(YELLOW);
    heading.append("💡 Hint:");
    heading.append(RESET);
    rprintln(out, heading.as_str());

    let ls = split_lines(ex.hint.as_str());
    let n = ls.len();
    let ghost base = out@;
    let mut i: usize = 0;
    while i < n
        invariant
            i <= n,
            n == ls.len(),
            views(ls@) == lines(ex.hint@),
            out@ + hint_lines(lines(ex.hint@), i as int) == base + hint_lines(lines(ex.hint@), 0),
        decreases n - i,
    {
        let mut row = String::from_str("  ");
        row.append(YELLOW);
        row.append(ls[i].as_str());
        row.append(RESET);
        assert(row@ == "  "@ + YELLOW@ + lines(ex.hint@)[i as int] + RESET@);
        rprintln(out, row.as_str());
        i += 1;
    }
}

/// The name of the module that the rows before `at` ended in: that of the
/// exercise just before, and the empty name at the top of the list.
pub open spec fn module_before(exercises: Seq<Exercise>, at: int) -> Seq<char> {
    if at <= 0 {
        Seq::empty()
    } else {
        exercises[at - 1].module@
    }
}

/// The row of the exercise at `at` in the list: a mark if it is the current
/// one, a tick if it is done, its number, its name and its package.
pub open spec fn list_row(exercises: Seq<Exercise>, current: int, done: Seq<bool>, at: int) -> Seq<
    char,
> {
    let ex = exercises[at];
    let marker = if at == current {
        "▶"@
    } else {
        " "@
    };
    let status = if done[at] {
        GREEN@ + "✅"@ + RESET@
    } else {
        RED@ + "  "@ + RESET@
    };
    "  "@ + marker + " "@ + status + " "@ + right_aligned(decimal((at + 1) as nat), 2) + ". "@
        + left_aligned(ex.name@, 22) + " ("@ + DIM@ + ex.package@ + RESET@ + ")"@
}

/// The rows of the list from `from` on. A row whose module differs from the
/// one before it is preceded by a heading with the module's name.
pub open spec fn list_rows(
    exercises: Seq<Exercise>,
    current: int,
    done: Seq<bool>,
    from: int,
) -> Seq<char>
    decreases exercises.len() - from,
{
    if from < 0 || from >= exercises.len() {
        Seq::empty()
    } else {
        (if exercises[from].module@ != module_before(exercises, from) {
            raw_line("  "@ + YELLOW@ + "["@ + exercises[from].module@ + "]"@ + RESET@)
        } else {
            Seq::empty()
        }) + raw_line(list_row(exercises, current, done, from)) + list_rows(
            exercises,
            current,
            done,
            from + 1,
        )
    }
}

/// The list of all exercises, grouped by module.
pub open spec fn list_text(exercises: Seq<Exercise>, current: int, done: Seq<bool>) -> Seq<char> {
    raw_line("\n  "@ + BOLD@ + BLUE@ + "Exercise list:"@ + RESET@ + "\n"@) + list_rows(
        exercises,
        current,
        done,
        0,
    )
}

fn list_row_string(exercises: &[Exercise], current: usize, done: &[bool], at: usize) -> (row:
    String)
    requires
        at < exercises.len(),
        done.len() == exercises.len(),
    ensures
        row@ == list_row(exercises@, current as int, done@, at as int),
{
    let ex = &exercises[at];
    let mut row = String::from_str("  ");
    if at == current {
        row.append("▶");
    } else {
        row.append(" ");
    }
    row.append(" ");
    let ghost front = row@;
    if done[at] {
        row.append(GREEN);
        row.append("✅");
        row.append(RESET);
    } else {
        row.append(RED);
        row.append("  ");
        row.append(RESET);
        assert(row@ == front + (RED@ + "  "@ + RESET@));
    }
    row.append(" ");
    push_decimal_right(&mut row, at + 1, 2);
    row.append(". ");
    push_left_aligned(&mut row, ex.name.as_str(), 22);
    row.append(" (");
    row.append(DIM);
    row.append(ex.package.as_str());
    row.append(RESET);
    row.append(")");
    row
}

fn starts_module(exercises: &[Exercise], at: usize) -> (r: bool)
    requires
        at < exercises.len(),
    ensures
        r == (exercises[at as int].module@ != module_before(exercises@, at as int)),
{
    if at == 0 {
        assert(""@ == Seq::<char>::empty()) by {
            reveal_strlit("");
        }
        !str_eq(exercises[at].module.as_str(), "")
    } else {
        !str_eq(exercises[at].module.as_str(), exercises[at - 1].module.as_str())
    }
}

/// Appends the list of all exercises, grouped by module, with the exercise
/// at `current` marked.
pub fn render_list(out: &mut String, exercises: &[Exercise], current: usize, done: &[bool])
    requires
        done.len() == exercises.len(),
    ensures
        final(out)@ == old(out)@ + list_text(exercises@, current as int, done@),
{
    let mut heading = String::from_str("\n  ");
    heading.append(BOLD);
    heading.append(BLUE);
    heading.append("Exercise list:");
    heading.append(RESET);
    heading.append("\n");
    rprintln(out, heading.as_str());

    let n = exercises.len();
    let ghost base = out@;
    let mut i: usize = 0;
    while i < n
        invariant
            i <= n,
            n == exercises.len(),
            n == done.len(),
            out@ + list_rows(exercises@, current as int, done@, i as int) == base + list_rows(
                exercises@,
                current as int,
                done@,
                0,
            ),
        decreases n - i,
    {
        if starts_module(exercises, i) {
            let mut group = String::from_str("  ");
            group.append(YELLOW);
            group.append("[");
            group.append(exercises[i].module.as_str());
            group.append("]");
            group.append(RESET);
            rprintln(out, group.as_str());
        }
        let row = list_row_string(exercises, current, done, i);
        rprintln(out, row.as_str());
        i += 1;
    }
}

/// What stands between the header and the key map when the list is not
/// shown: the panel of the last outcome, if there is one.
pub open spec fn outcome_text(outcome: Option<OutcomeView>) -> Seq<char> {
    match outcome {
        Some(o) => if o.passed {
            raw_line("\n  "@ + BOLD@ + GREEN@ + "✅ Test passed!"@ + RESET@)
        } else {
            failure_text(o.output)
        },
        None => Seq::empty(),
    }
}

/// The whole screen of the idle session. Below the header stands exactly
/// one of two things: the list of exercises, if it is switched on, or else
/// the panel of the last outcome, followed by the hint if that is switched
/// on. The list hides both the outcome and the hint. The key map closes the
/// screen.
pub open spec fn screen_text(
    exercises: Seq<Exercise>,
    current: int,
    done_n: nat,
    outcome: Option<OutcomeView>,
    show_hint: bool,
    show_list: bool,
    done: Seq<bool>,
) -> Seq<char> {
    header_text(exercises, current, done_n) + (if show_list {
        list_text(exercises, current, done)
    } else {
        outcome_text(outcome) + (if show_hint {
            hint_text(exercises[current].hint@)
        } else {
            Seq::empty()
        })
    }) + controls_text()
}

/// Appends the whole screen of the idle session: header, then the list or
/// the last outcome with the optional hint, then the key map.
pub fn full_redraw(
    out: &mut String,
    exercises: &[Exercise],
    current: usize,
    done_n: usize,
    result: &Option<TestOutcome>,
    show_hint: bool,
    show_list: bool,
    done: &[bool],
)
    requires
        current < exercises.len(),
        done_n <= exercises.len(),
        done.len() == exercises.len(),
    ensures
        final(out)@ == old(out)@ + screen_text(
            exercises@,
            current as int,
            done_n as nat,
            outcome_view(*result),
            show_hint,
            show_list,
            done@,
        ),
{
    render_header(out, exercises, current, done_n);
    if show_list {
        render_list(out, exercises, current, done);
    } else {
        match result {
            Some(r) => {
                if r.passed {
                    let mut banner = String::from_str("\n  ");
                    banner.append(BOLD);
                    banner.append(GREEN);
                    banner.append("✅ Test passed!");
                    banner.append(RESET);
                    rprintln(out, banner.as_str());
                } else {
                    render_failure(out, r.output.as_str());
                }
            },
            None => {},
        }
        if show_hint {
            render_hint(out, &exercises[current]);
        }
    }
    render_controls(out);
}

/// The screen while the test of the exercise at `current` runs: the header
/// and a note that names the package under test.
pub open spec fn testing_text(exercises: Seq<Exercise>, current: int, done_n: nat) -> Seq<char> {
    header_text(exercises, current, done_n) + raw_line(Seq::empty()) + raw_line(
        "  "@ + YELLOW@ + "⏳ Testing "@ + exercises[current].package@ + "..."@ + RESET@,
    )
}

/// Appends the screen that stands while the test of the exercise at
/// `current` runs.
pub fn render_testing(out: &mut String, exercises: &[Exercise], current: usize, done_n: usize)
    requires
        current < exercises.len(),
        done_n <= exercises.len(),
    ensures
        final(out)@ == old(out)@ + testing_text(exercises@, current as int, done_n as nat),
{
    render_header(out, exercises, current, done_n);
    rprintln(out, "");
    assert(""@ == Seq::<char>::empty()) by {
        reveal_strlit("");
    }
    let mut note = String::from_str("  ");
    note.append(YELLOW);
    note.append("⏳ Testing ");
    note.append(exercises[current].package.as_str());
    note.append("...");
    note.append(RESET);
    rprintln(out, note.as_str());
}

/// The screen after the exercise at `passed` has passed: the header and the
/// banner that names it.
pub open spec fn passed_text(exercises: Seq<Exercise>, passed: int, done_n: nat) -> Seq<char> {
    header_text(exercises, passed, done_n) + raw_line(
        "\n  "@ + BOLD@ + GREEN@ + "✅ Exercise '"@ + exercises[passed].name@ + "' passed!"@
            + RESET@,
    )
}

/// Appends the header and the banner for the exercise that has passed.
pub fn render_passed(out: &mut String, exercises: &[Exercise], passed: usize, done_n: usize)
    requires
        passed < exercises.len(),
        done_n <= exercises.len(),
    ensures
        final(out)@ == old(out)@ + passed_text(exercises@, passed as int, done_n as nat),
{
    render_header(out, exercises, passed, done_n);
    let mut banner = String::from_str("\n  ");
    banner.append(BOLD);
    banner.append(GREEN);
    banner.append("✅ Exercise '");
    banner.append(exercises[passed].name.as_str());
    banner.append("' passed!");
    banner.append(RESET);
    rprintln(out, banner.as_str());
}

/// The notice of the automatic move to the exercise called `name`.
pub open spec fn advance_text(name: Seq<char>) -> Seq<char> {
    raw_line("\n  ➡  Auto-jump: "@ + CYAN@ + name + RESET@)
}

/// Appends the notice of the automatic move to the exercise called `name`.
pub fn render_advance(out: &mut String, name: &str)
    ensures
        final(out)@ == old(out)@ + advance_text(name@),
{
    let mut notice = String::from_str("\n  ➡  Auto-jump: ");
    notice.append(CYAN);
    notice.append(name);
    notice.append(RESET);
    rprintln(out, notice.as_str());
}

/// The words that congratulate on `total` passing exercises.
pub open spec fn congratulation(total: nat) -> Seq<char> {
    BOLD@ + GREEN@ + "🎉 Congratulations! All "@ + decimal(total) + " exercises passed!"@ + RESET@
}

fn push_congratulation(line: &mut String, total: usize)
    ensures
        final(line)@ == old(line)@ + congratulation(total as nat),
{
    line.append(BOLD);
    line.append(GREEN);
    line.append("🎉 Congratulations! All ");
    push_decimal(line, total);
    line.append(" exercises passed!");
    line.append(RESET);
}

/// The banner that closes a session in which all `total` exercises pass,
/// with the one key that still means something.
pub open spec fn complete_text(total: nat) -> Seq<char> {
    raw_line(Seq::empty()) + raw_line("  "@ + congratulation(total)) + raw_line(
        "\n  Press "@ + BOLD@ + "q"@ + RESET@ + " to quit"@,
    )
}

/// Appends the completion banner.
pub fn render_complete(out: &mut String, total: usize)
    ensures
        final(out)@ == old(out)@ + complete_text(total as nat),
{
    rprintln(out, "");
    assert(""@ == Seq::<char>::empty()) by {
        reveal_strlit("");
    }
    let mut line = String::from_str("  ");
    push_congratulation(&mut line, total);
    rprintln(out, line.as_str());
    let mut press = String::from_str("\n  Press ");
    press.append(BOLD);
    press.append("q");
    press.append(RESET);
    press.append(" to quit");
    rprintln(out, press.as_str());
}

/// The line that opens the first probe of all exercises. It is written
/// before the terminal is put into raw mode, so its lines end in `"\n"`.
pub open spec fn scan_banner_text() -> Seq<char> {
    BOLD@ + BLUE@ + "OS Camp"@ + RESET@ + " - Scanning exercise progress...\n\n"@
}

/// The line that opens the first probe of all exercises.
pub fn scan_banner() -> (s: String)
    ensures
        s@ == scan_banner_text(),
{
    let mut s = String::from_str(BOLD);
    s.append(BLUE);
    s.append("OS Camp");
    s.append(RESET);
    s.append(" - Scanning exercise progress...\n\n");
    s
}

/// The note that the exercise at `index` of `total`, of package `package`,
/// is being probed. It ends in a carriage return, so that the next note
/// overwrites it.
pub open spec fn scan_line_text(index: nat, total: nat, package: Seq<char>) -> Seq<char> {
    "  ["@ + right_aligned(decimal(index + 1), 2) + "/"@ + decimal(total) + "] Checking "@
        + left_aligned(package, 25) + "\r"@
}

/// The note that the exercise at `index` of `total` is being probed.
pub fn scan_line(index: usize, total: usize, package: &str) -> (s: String)
    requires
        index < total,
    ensures
        s@ == scan_line_text(index as nat, total as nat, package@),
{
    let mut s = String::from_str("  [");
    push_decimal_right(&mut s, index + 1, 2);
    s.append("/");
    push_decimal(&mut s, total);
    s.append("] Checking ");
    push_left_aligned(&mut s, package, 25);
    s.append("\r");
    s
}

/// What is printed, in place of the interactive session, when the first
/// probe finds that all `total` exercises pass.
pub open spec fn all_passed_text(total: nat) -> Seq<char> {
    "\n\n  "@ + congratulation(total) + "\n"@
}

/// What is printed when the first probe finds that every exercise passes.
pub fn all_passed(total: usize) -> (s: String)
    ensures
        s@ == all_passed_text(total as nat),
{
    let mut s = String::from_str("\n\n  ");
    push_congratulation(&mut s, total);
    s.append("\n");
    s
}

/// The words printed after the session, once the terminal is back in its
/// normal mode.
pub fn farewell() -> (s: String)
    ensures
        s@ == "Goodbye! Keep up the good work 💪\n"@,
{
    String::from_str("Goodbye! Keep up the good work 💪\n")
}

/// The header holds no bare line feed.
pub proof fn lemma_header_crlf_only(exercises: Seq<Exercise>, current: int, done: nat)
    ensures
        crlf_only(header_text(exercises, current, done)),
{
    let total = exercises.len();
    let ex = exercises[current];
    let l1 = raw_line(BOLD@ + BLUE@ + "─── OS Camp ─── Rust & OS Advanced Experiments ───"@ + RESET@);
    let l2 = raw_line("  Progress: "@ + progress_bar_text(done, total, BAR_WIDTH as nat));
    let l3 = raw_line(Seq::empty());
    let l4 = raw_line(
        "  "@ + BOLD@ + "▶ Exercise "@ + decimal((current + 1) as nat) + "/"@ + decimal(total)
            + ": "@ + ex.name@ + RESET@,
    );
    let l5 = raw_line("    "@ + DIM@ + "Module:"@ + RESET@ + " "@ + ex.module@);
    let l6 = raw_line("    "@ + CYAN@ + ex.description@ + RESET@);
    let l7 = raw_line("    "@ + DIM@ + "📄 "@ + ex.path@ + RESET@);
    lemma_raw_line_crlf_only(
        BOLD@ + BLUE@ + "─── OS Camp ─── Rust & OS Advanced Experiments ───"@ + RESET@,
    );
    lemma_raw_line_crlf_only("  Progress: "@ + progress_bar_text(done, total, BAR_WIDTH as nat));
    lemma_raw_line_crlf_only(Seq::empty());
    lemma_raw_line_crlf_only(
        "  "@ + BOLD@ + "▶ Exercise "@ + decimal((current + 1) as nat) + "/"@ + decimal(total)
            + ": "@ + ex.name@ + RESET@,
    );
    lemma_raw_line_crlf_only("    "@ + DIM@ + "Module:"@ + RESET@ + " "@ + ex.module@);
    lemma_raw_line_crlf_only("    "@ + CYAN@ + ex.description@ + RESET@);
    lemma_raw_line_crlf_only("    "@ + DIM@ + "📄 "@ + ex.path@ + RESET@);
    lemma_crlf_only_concat(l1, l2);
    lemma_crlf_only_concat(l1 + l2, l3);
    lemma_crlf_only_concat(l1 + l2 + l3, l4);
    lemma_crlf_only_concat(l1 + l2 + l3 + l4, l5);
    lemma_crlf_only_concat(l1 + l2 + l3 + l4 + l5, l6);
    lemma_crlf_only_concat(l1 + l2 + l3 + l4 + l5 + l6, l7);
}

proof fn lemma_indented_lines_crlf_only(ls: Seq<Seq<char>>, from: int)
    ensures
        crlf_only(indented_lines(ls, from)),
    decreases ls.len() - from,
{
    if 0 <= from < ls.len() {
        lemma_raw_line_crlf_only("  "@ + ls[from]);
        lemma_indented_lines_crlf_only(ls, from + 1);
        lemma_crlf_only_concat(raw_line("  "@ + ls[from]), indented_lines(ls, from + 1));
    }
}

/// The failure panel holds no bare line feed, whatever the output of the
/// test holds.
pub proof fn lemma_failure_crlf_only(output: Seq<char>)
    ensures
        crlf_only(failure_text(output)),
{
    let ls = lines(output);
    let start = tail_start(ls.len());
    let banner = raw_line("\n  "@ + BOLD@ + RED@ + "❌ Test failed"@ + RESET@ + "\n"@);
    let note = if start > 0 {
        raw_line("  "@ + DIM@ + "... omitted "@ + decimal(start) + " lines ..."@ + RESET@)
    } else {
        Seq::empty()
    };
    lemma_raw_line_crlf_only("\n  "@ + BOLD@ + RED@ + "❌ Test failed"@ + RESET@ + "\n"@);
    lemma_raw_line_crlf_only(
        "  "@ + DIM@ + "... omitted "@ + decimal(start) + " lines ..."@ + RESET@,
    );
    lemma_indented_lines_crlf_only(ls, start as int);
    lemma_crlf_only_concat(banner, note);
    lemma_crlf_only_concat(banner + note, indented_lines(ls, start as int));
}

/// The key map holds no bare line feed.
pub proof fn lemma_controls_crlf_only()
    ensures
        crlf_only(controls_text()),
{
    let a = Seq::<char>::empty();
    let b = DIM@ + "  ─────────────────────────────────────────"@ + RESET@;
    let c = "  "@ + BOLD@ + "h"@ + RESET@ + " hint  "@ + BOLD@ + "l"@ + RESET@ + " list  "@ + BOLD@
        + "n"@ + RESET@ + "/"@ + BOLD@ + "p"@ + RESET@ + " prev/next  "@ + BOLD@ + "r"@ + RESET@
        + " retest  "@ + BOLD@ + "q"@ + RESET@ + " quit"@;
    let d = "  "@ + DIM@ + "📡 Watching for file changes, automatically retests after saving"@
        + RESET@;
    lemma_raw_line_crlf_only(a);
    lemma_raw_line_crlf_only(b);
    lemma_raw_line_crlf_only(c);
    lemma_raw_line_crlf_only(d);
    lemma_crlf_only_concat(raw_line(a), raw_line(b));
    lemma_crlf_only_concat(raw_line(a) + raw_line(b), raw_line(c));
    lemma_crlf_only_concat(raw_line(a) + raw_line(b) + raw_line(c), raw_line(d));
}

proof fn lemma_hint_lines_crlf_only(ls: Seq<Seq<char>>, from: int)
    ensures
        crlf_only(hint_lines(ls, from)),
    decreases ls.len() - from,
{
    if 0 <= from < ls.len() {
        lemma_raw_line_crlf_only("  "@ + YELLOW@ + ls[from] + RESET@);
        lemma_hint_lines_crlf_only(ls, from + 1);
        lemma_crlf_only_concat(
            raw_line("  "@ + YELLOW@ + ls[from] + RESET@),
            hint_lines(ls, from + 1),
        );
    }
}

/// The hint block holds no bare line feed, whatever the hint holds.
pub proof fn lemma_hint_crlf_only(hint: Seq<char>)
    ensures
        crlf_only(hint_text(hint)),
{
    lemma_raw_line_crlf_only("\n  "@ + BOLD@ + YELLOW@ + "💡 Hint:"@ + RESET@);
    lemma_hint_lines_crlf_only(lines(hint), 0);
    lemma_crlf_only_concat(
        raw_line("\n  "@ + BOLD@ + YELLOW@ + "💡 Hint:"@ + RESET@),
        hint_lines(lines(hint), 0),
    );
}

proof fn lemma_list_rows_crlf_only(
    exercises: Seq<Exercise>,
    current: int,
    done: Seq<bool>,
    from: int,
)
    ensures
        crlf_only(list_rows(exercises, current, done, from)),
    decreases exercises.len() - from,
{
    if 0 <= from < exercises.len() {
        let group = if exercises[from].module@ != module_before(exercises, from) {
            raw_line("  "@ + YELLOW@ + "["@ + exercises[from].module@ + "]"@ + RESET@)
        } else {
            Seq::empty()
        };
        let row = raw_line(list_row(exercises, current, done, from));
        lemma_raw_line_crlf_only("  "@ + YELLOW@ + "["@ + exercises[from].module@ + "]"@ + RESET@);
        lemma_raw_line_crlf_only(list_row(exercises, current, done, from));
        lemma_list_rows_crlf_only(exercises, current, done, from + 1);
        lemma_crlf_only_concat(group, row);
        lemma_crlf_only_concat(group + row, list_rows(exercises, current, done, from + 1));
    }
}

/// The list holds no bare line feed.
pub proof fn lemma_list_crlf_only(exercises: Seq<Exercise>, current: int, done: Seq<bool>)
    ensures
        crlf_only(list_text(exercises, current, done)),
{
    lemma_raw_line_crlf_only("\n  "@ + BOLD@ + BLUE@ + "Exercise list:"@ + RESET@ + "\n"@);
    lemma_list_rows_crlf_only(exercises, current, done, 0);
    lemma_crlf_only_concat(
        raw_line("\n  "@ + BOLD@ + BLUE@ + "Exercise list:"@ + RESET@ + "\n"@),
        list_rows(exercises, current, done, 0),
    );
}

/// The idle screen holds no bare line feed: every line of it ends as a raw
/// terminal needs it.
pub proof fn lemma_screen_crlf_only(
    exercises: Seq<Exercise>,
    current: int,
    done_n: nat,
    outcome: Option<OutcomeView>,
    show_hint: bool,
    show_list: bool,
    done: Seq<bool>,
)
    ensures
        crlf_only(screen_text(exercises, current, done_n, outcome, show_hint, show_list, done)),
{
    let head = header_text(exercises, current, done_n);
    lemma_header_crlf_only(exercises, current, done_n);
    lemma_controls_crlf_only();
    if show_list {
        lemma_list_crlf_only(exercises, current, done);
        lemma_crlf_only_concat(head, list_text(exercises, current, done));
        lemma_crlf_only_concat(head + list_text(exercises, current, done), controls_text());
    } else {
        let panel = outcome_text(outcome);
        match outcome {
            Some(o) => {
                if o.passed {
                    lemma_raw_line_crlf_only("\n  "@ + BOLD@ + GREEN@ + "✅ Test passed!"@ + RESET@);
                } else {
                    lemma_failure_crlf_only(o.output);
                }
            },
            None => {},
        }
        let hint = if show_hint {
            hint_text(exercises[current].hint@)
        } else {
            Seq::empty()
        };
        lemma_hint_crlf_only(exercises[current].hint@);
        lemma_crlf_only_concat(panel, hint);
        lemma_crlf_only_concat(head, panel + hint);
        lemma_crlf_only_concat(head + (panel + hint), controls_text());
    }
}

/// The screen of a running test holds no bare line feed.
pub proof fn lemma_testing_crlf_only(exercises: Seq<Exercise>, current: int, done_n: nat)
    ensures
        crlf_only(testing_text(exercises, current, done_n)),
{
    let head = header_text(exercises, current, done_n);
    let note = "  "@ + YELLOW@ + "⏳ Testing "@ + exercises[current].package@ + "..."@ + RESET@;
    lemma_header_crlf_only(exercises, current, done_n);
    lemma_raw_line_crlf_only(Seq::empty());
    lemma_raw_line_crlf_only(note);
    lemma_crlf_only_concat(head, raw_line(Seq::empty()));
    lemma_crlf_only_concat(head + raw_line(Seq::empty()), raw_line(note));
}

/// The banner of a pass holds no bare line feed.
pub proof fn lemma_passed_crlf_only(exercises: Seq<Exercise>, passed: int, done_n: nat)
    ensures
        crlf_only(passed_text(exercises, passed, done_n)),
{
    let banner = "\n  "@ + BOLD@ + GREEN@ + "✅ Exercise '"@ + exercises[passed].name@
        + "' passed!"@ + RESET@;
    lemma_header_crlf_only(exercises, passed, done_n);
    lemma_raw_line_crlf_only(banner);
    lemma_crlf_only_concat(header_text(exercises, passed, done_n), raw_line(banner));
}

/// The completion banner holds no bare line feed.
pub proof fn lemma_complete_crlf_only(total: nat)
    ensures
        crlf_only(complete_text(total)),
{
    let a = Seq::<char>::empty();
    let b = "  "@ + congratulation(total);
    let c = "\n  Press "@ + BOLD@ + "q"@ + RESET@ + " to quit"@;
    lemma_raw_line_crlf_only(a);
    lemma_raw_line_crlf_only(b);
    lemma_raw_line_crlf_only(c);
    lemma_crlf_only_concat(raw_line(a), raw_line(b));
    lemma_crlf_only_concat(raw_line(a) + raw_line(b), raw_line(c));
}

} // verus!
