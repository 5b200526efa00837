use oscamp::exercise::{Exercise, TestOutcome};
use oscamp::render::{
    all_passed, farewell, filled_segments, full_redraw, percent_done, progress_bar,
    render_advance, render_complete, render_controls, render_failure, render_header, render_hint,
    render_list, render_passed, render_testing, scan_banner, scan_line, BAR_WIDTH,
    FAILURE_TAIL_LINES,
};

const GREEN: &str = "\x1b[32m";
const RED: &str = "\x1b[31m";
const YELLOW: &str = "\x1b[33m";
const BLUE: &str = "\x1b[34m";
const CYAN: &str = "\x1b[36m";
const BOLD: &str = "\x1b[1m";
const DIM: &str = "\x1b[2m";
const RESET: &str = "\x1b[0m";

fn exercise(n: usize, module: &str) -> Exercise {
    Exercise {
        name: format!("Exercise number {n}"),
        package: format!("package_{n}"),
        path: format!("exercises/{module}/package_{n}/src/lib.rs"),
        module: module.to_string(),
        description: format!("What exercise {n} is about"),
        hint: format!("First line of hint {n}\nSecond line\r\nThird line\n"),
    }
}

fn registry() -> Vec<Exercise> {
    vec![
        exercise(1, "Concurrency"),
        exercise(2, "Concurrency"),
        exercise(3, "Page tables"),
        exercise(4, "Concurrency"),
    ]
}

// What each part of the screen is expected to hold, written with `format!`.

fn line(out: &mut String, s: &str) {
    out.push_str(&s.replace("\r\n", "\n").replace('\n', "\r\n"));
    out.push_str("\r\n");
}

fn expected_bar(done: usize, total: usize, width: usize) -> String {
    let filled = if total > 0 { done * width / total } else { 0 };
    let empty = width - filled;
    let pct = if total > 0 { done * 100 / total } else { 0 };
    format!("{GREEN}{}{}  {done}/{total} ({pct}%){RESET}", "█".repeat(filled), "░".repeat(empty))
}

fn expected_header(out: &mut String, exercises: &[Exercise], current: usize, done: usize) {
    let total = exercises.len();
    let ex = &exercises[current];
    let bar = expected_bar(done, total, 20);
    line(out, &format!("{BOLD}{BLUE}─── OS Camp ─── Rust & OS Advanced Experiments ───{RESET}"));
    line(out, &format!("  Progress: {bar}"));
    line(out, "");
    line(out, &format!("  {BOLD}▶ Exercise {}/{total}: {}{RESET}", current + 1, ex.name));
    line(out, &format!("    {DIM}Module:{RESET} {}", ex.module));
    line(out, &format!("    {CYAN}{}{RESET}", ex.description));
    line(out, &format!("    {DIM}📄 {}{RESET}", ex.path));
}

fn expected_failure(out: &mut String, output: &str) {
    line(out, &format!("\n  {BOLD}{RED}❌ Test failed{RESET}\n"));
    let lines: Vec<&str> = output.lines().collect();
    let start = lines.len().saturating_sub(30);
    if start > 0 {
        line(out, &format!("  {DIM}... omitted {start} lines ...{RESET}"));
    }
    for l in &lines[start..] {
        line(out, &format!("  {l}"));
    }
}

fn expected_controls(out: &mut String) {
    line(out, "");
    line(out, &format!("{DIM}  ─────────────────────────────────────────{RESET}"));
    line(
        out,
        &format!(
            "  {BOLD}h{RESET} hint  {BOLD}l{RESET} list  \
             {BOLD}n{RESET}/{BOLD}p{RESET} prev/next  \
             {BOLD}r{RESET} retest  {BOLD}q{RESET} quit"
        ),
    );
    line(
        out,
        &format!("  {DIM}📡 Watching for file changes, automatically retests after saving{RESET}"),
    );
}

fn expected_hint(out: &mut String, ex: &Exercise) {
    line(out, &format!("\n  {BOLD}{YELLOW}💡 Hint:{RESET}"));
    for l in ex.hint.lines() {
        line(out, &format!("  {YELLOW}{l}{RESET}"));
    }
}

fn expected_list(out: &mut String, exercises: &[Exercise], current: usize, done: &[bool]) {
    line(out, &format!("\n  {BOLD}{BLUE}Exercise list:{RESET}\n"));
    let mut cur_module = String::new();
    for (i, ex) in exercises.iter().enumerate() {
        if ex.module != cur_module {
            cur_module.clone_from(&ex.module);
            line(out, &format!("  {YELLOW}[{cur_module}]{RESET}"));
        }
        let marker = if i == current { "▶" } else { " " };
        let status = if done[i] { format!("{GREEN}✅{RESET}") } else { format!("{RED}  {RESET}") };
        line(
            out,
            &format!("  {marker} {status} {:2}. {:<22} ({DIM}{}{RESET})", i + 1, ex.name, ex.package),
        );
    }
}

fn expected_screen(
    exercises: &[Exercise],
    current: usize,
    done_n: usize,
    result: &Option<TestOutcome>,
    show_hint: bool,
    show_list: bool,
    done: &[bool],
) -> String {
    let mut out = String::new();
    expected_header(&mut out, exercises, current, done_n);
    if show_list {
        expected_list(&mut out, exercises, current, done);
    } else {
        if let Some(r) = result {
            if r.passed {
                line(&mut out, &format!("\n  {BOLD}{GREEN}✅ Test passed!{RESET}"));
            } else {
                expected_failure(&mut out, &r.output);
            }
        }
        if show_hint {
            expected_hint(&mut out, &exercises[current]);
        }
    }
    expected_controls(&mut out);
    out
}

fn numbered_lines(n: usize) -> String {
    let mut s = String::new();
    for i in 1..=n {
        s.push_str(&format!("line {i}\n"));
    }
    s
}

#[test]
fn bar_arithmetic_for_width_20() {
    for total in [1usize, 2, 3, 7, 20, 21, 48, 100, 1000] {
        for done in 0..=total {
            assert_eq!(filled_segments(done, total, 20), done * 20 / total);
            assert_eq!(percent_done(done, total), done * 100 / total);
        }
    }
}

#[test]
fn bar_arithmetic_exact_values() {
    assert_eq!(filled_segments(1, 3, 20), 6);
    assert_eq!(percent_done(1, 3), 33);
    assert_eq!(filled_segments(2, 3, 20), 13);
    assert_eq!(percent_done(2, 3), 66);
    assert_eq!(filled_segments(19, 20, 20), 19);
    assert_eq!(filled_segments(47, 48, 20), 19);
    assert_eq!(percent_done(47, 48), 97);
    assert_eq!(filled_segments(48, 48, 20), 20);
    assert_eq!(percent_done(48, 48), 100);
    assert_eq!(filled_segments(0, 48, 20), 0);
    assert_eq!(percent_done(0, 48), 0);
}

#[test]
fn bar_arithmetic_without_exercises() {
    assert_eq!(filled_segments(0, 0, 20), 0);
    assert_eq!(percent_done(0, 0), 0);
}

#[test]
fn bar_arithmetic_does_not_overflow() {
    assert_eq!(filled_segments(usize::MAX, usize::MAX, 20), 20);
    assert_eq!(filled_segments(usize::MAX / 2, usize::MAX, 20), 9);
    assert_eq!(percent_done(usize::MAX, usize::MAX), 100);
    assert_eq!(percent_done(usize::MAX - 1, usize::MAX), 99);
}

#[test]
fn bar_text() {
    assert_eq!(
        progress_bar(5, 10, 20),
        "\x1b[32m██████████░░░░░░░░░░  5/10 (50%)\x1b[0m"
    );
    assert_eq!(progress_bar(1, 3, 20), "\x1b[32m██████░░░░░░░░░░░░░░  1/3 (33%)\x1b[0m");
    assert_eq!(progress_bar(0, 0, 20), "\x1b[32m░░░░░░░░░░░░░░░░░░░░  0/0 (0%)\x1b[0m");
    assert_eq!(progress_bar(3, 3, 4), "\x1b[32m████  3/3 (100%)\x1b[0m");
    assert_eq!(BAR_WIDTH, 20);
}

#[test]
fn bar_text_for_every_count() {
    for total in [1usize, 3, 20, 48] {
        for done in 0..=total {
            assert_eq!(progress_bar(done, total, 20), expected_bar(done, total, 20));
        }
    }
}

#[test]
fn header_text() {
    let all = registry();
    let mut out = String::new();
    render_header(&mut out, &all, 1, 1);
    assert_eq!(
        out,
        "\x1b[1m\x1b[34m─── OS Camp ─── Rust & OS Advanced Experiments ───\x1b[0m\r\n\
         \x20 Progress: \x1b[32m█████░░░░░░░░░░░░░░░  1/4 (25%)\x1b[0m\r\n\
         \r\n\
         \x20 \x1b[1m▶ Exercise 2/4: Exercise number 2\x1b[0m\r\n\
         \x20   \x1b[2mModule:\x1b[0m Concurrency\r\n\
         \x20   \x1b[36mWhat exercise 2 is about\x1b[0m\r\n\
         \x20   \x1b[2m📄 exercises/Concurrency/package_2/src/lib.rs\x1b[0m\r\n"
    );
}

#[test]
fn header_appends_to_what_is_there() {
    let all = registry();
    for current in 0..all.len() {
        for done in 0..=all.len() {
            let mut out = String::from("before");
            let mut expected = String::from("before");
            render_header(&mut out, &all, current, done);
            expected_header(&mut expected, &all, current, done);
            assert_eq!(out, expected);
        }
    }
}

#[test]
fn failure_panel_of_short_output() {
    let mut out = String::new();
    render_failure(&mut out, "error: expected 3\r\n  got 4\n");
    assert_eq!(
        out,
        "\r\n  \x1b[1m\x1b[31m❌ Test failed\x1b[0m\r\n\r\n  error: expected 3\r\n    got 4\r\n"
    );
}

#[test]
fn failure_panel_shows_the_last_thirty_lines() {
    assert_eq!(FAILURE_TAIL_LINES, 30);
    let mut out = String::new();
    render_failure(&mut out, &numbered_lines(35));
    let mut expected =
        String::from("\r\n  \x1b[1m\x1b[31m❌ Test failed\x1b[0m\r\n\r\n");
    expected.push_str("  \x1b[2m... omitted 5 lines ...\x1b[0m\r\n");
    for i in 6..=35 {
        expected.push_str(&format!("  line {i}\r\n"));
    }
    assert_eq!(out, expected);
}

#[test]
fn failure_panel_of_exactly_thirty_lines_omits_nothing() {
    let mut out = String::new();
    let mut expected = String::new();
    render_failure(&mut out, &numbered_lines(30));
    expected_failure(&mut expected, &numbered_lines(30));
    assert_eq!(out, expected);
    assert!(!out.contains("omitted"));
    assert!(out.contains("  line 1\r\n"));
}

#[test]
fn failure_panel_of_thirty_one_lines_omits_one() {
    let mut out = String::new();
    render_failure(&mut out, &numbered_lines(31));
    assert!(out.contains("... omitted 1 lines ..."));
    assert!(!out.contains("  line 1\r\n"));
    assert!(out.contains("  line 2\r\n"));
    assert!(out.ends_with("  line 31\r\n"));
}

#[test]
fn failure_panel_for_many_outputs() {
    for output in ["", "\n", "one", "a\n\nb\r\n", "\x1b[31mred\x1b[0m\nplain", "x\ry\n"] {
        let mut out = String::new();
        let mut expected = String::new();
        render_failure(&mut out, output);
        expected_failure(&mut expected, output);
        assert_eq!(out, expected, "for {output:?}");
    }
    for n in [29usize, 30, 31, 32, 100] {
        let mut out = String::new();
        let mut expected = String::new();
        render_failure(&mut out, &numbered_lines(n));
        expected_failure(&mut expected, &numbered_lines(n));
        assert_eq!(out, expected, "for {n} lines");
    }
}

#[test]
fn controls_text() {
    let mut out = String::new();
    render_controls(&mut out);
    assert_eq!(
        out,
        "\r\n\
         \x1b[2m  ─────────────────────────────────────────\x1b[0m\r\n\
         \x20 \x1b[1mh\x1b[0m hint  \x1b[1ml\x1b[0m list  \x1b[1mn\x1b[0m/\x1b[1mp\x1b[0m prev/next  \x1b[1mr\x1b[0m retest  \x1b[1mq\x1b[0m quit\r\n\
         \x20 \x1b[2m📡 Watching for file changes, automatically retests after saving\x1b[0m\r\n"
    );
    let mut expected = String::new();
    expected_controls(&mut expected);
    assert_eq!(out, expected);
}

#[test]
fn hint_block() {
    let all = registry();
    let mut out = String::new();
    render_hint(&mut out, &all[0]);
    assert_eq!(
        out,
        "\r\n  \x1b[1m\x1b[33m💡 Hint:\x1b[0m\r\n\
         \x20 \x1b[33mFirst line of hint 1\x1b[0m\r\n\
         \x20 \x1b[33mSecond line\x1b[0m\r\n\
         \x20 \x1b[33mThird line\x1b[0m\r\n"
    );
}

#[test]
fn hint_block_of_an_empty_hint_is_the_heading() {
    let mut ex = exercise(1, "m");
    ex.hint = String::new();
    let mut out = String::new();
    render_hint(&mut out, &ex);
    assert_eq!(out, "\r\n  \x1b[1m\x1b[33m💡 Hint:\x1b[0m\r\n");
}

#[test]
fn list_groups_by_module() {
    let all = registry();
    let done = [true, false, false, true];
    let mut out = String::new();
    render_list(&mut out, &all, 1, &done);
    assert_eq!(
        out,
        "\r\n  \x1b[1m\x1b[34mExercise list:\x1b[0m\r\n\r\n\
         \x20 \x1b[33m[Concurrency]\x1b[0m\r\n\
         \x20   \x1b[32m✅\x1b[0m  1. Exercise number 1      (\x1b[2mpackage_1\x1b[0m)\r\n\
         \x20 ▶ \x1b[31m  \x1b[0m  2. Exercise number 2      (\x1b[2mpackage_2\x1b[0m)\r\n\
         \x20 \x1b[33m[Page tables]\x1b[0m\r\n\
         \x20   \x1b[31m  \x1b[0m  3. Exercise number 3      (\x1b[2mpackage_3\x1b[0m)\r\n\
         \x20 \x1b[33m[Concurrency]\x1b[0m\r\n\
         \x20   \x1b[32m✅\x1b[0m  4. Exercise number 4      (\x1b[2mpackage_4\x1b[0m)\r\n"
    );
}

#[test]
fn list_for_many_registries() {
    let mut wide = registry();
    wide[2].name = "A name that is longer than the column of names".to_string();
    wide[3].module = String::new();
    let mut nameless = registry();
    nameless[0].module = String::new();
    let mut many: Vec<Exercise> = Vec::new();
    for i in 1..=12 {
        many.push(exercise(i, if i < 7 { "first" } else { "second" }));
    }
    for all in [registry(), wide, nameless, many, Vec::new()] {
        let done: Vec<bool> = (0..all.len()).map(|i| i % 3 == 0).collect();
        for current in 0..=all.len() {
            let mut out = String::new();
            let mut expected = String::new();
            render_list(&mut out, &all, current, &done);
            expected_list(&mut expected, &all, current, &done);
            assert_eq!(out, expected);
        }
    }
}

#[test]
fn screen_shows_the_outcome_and_the_hint_when_asked() {
    let all = registry();
    let done = [false, false, false, false];
    let failed = Some(TestOutcome { passed: false, output: numbered_lines(33) });
    let passed = Some(TestOutcome { passed: true, output: "ok".to_string() });
    for result in [None, failed, passed] {
        for show_hint in [false, true] {
            for show_list in [false, true] {
                let mut out = String::new();
                full_redraw(&mut out, &all, 2, 0, &result, show_hint, show_list, &done);
                assert_eq!(
                    out,
                    expected_screen(&all, 2, 0, &result, show_hint, show_list, &done)
                );
            }
        }
    }
}

#[test]
fn the_list_takes_the_place_of_outcome_and_hint() {
    let all = registry();
    let done = [true, false, false, false];
    let failed = Some(TestOutcome { passed: false, output: "boom\n".to_string() });
    let mut with_both = String::new();
    full_redraw(&mut with_both, &all, 1, 1, &failed, true, true, &done);
    let mut list_only = String::new();
    full_redraw(&mut list_only, &all, 1, 1, &None, false, true, &done);
    assert_eq!(with_both, list_only);
    assert!(with_both.contains("Exercise list:"));
    assert!(!with_both.contains("Test failed"));
    assert!(!with_both.contains("Hint:"));
}

#[test]
fn the_hint_follows_the_outcome() {
    let all = registry();
    let done = [true, false, false, false];
    let failed = Some(TestOutcome { passed: false, output: "boom\n".to_string() });
    let mut out = String::new();
    full_redraw(&mut out, &all, 1, 1, &failed, true, false, &done);
    let failure_at = out.find("Test failed").unwrap();
    let hint_at = out.find("Hint:").unwrap();
    let keys_at = out.find("prev/next").unwrap();
    assert!(failure_at < hint_at && hint_at < keys_at);
    assert!(out.contains("First line of hint 2"));
}

#[test]
fn a_passed_outcome_shows_its_banner() {
    let all = registry();
    let done = [true, true, false, false];
    let passed = Some(TestOutcome { passed: true, output: "ignored".to_string() });
    let mut out = String::new();
    full_redraw(&mut out, &all, 1, 2, &passed, false, false, &done);
    assert!(out.contains("\r\n  \x1b[1m\x1b[32m✅ Test passed!\x1b[0m\r\n"));
    assert!(!out.contains("ignored"));
}

#[test]
fn screen_of_a_running_test() {
    let all = registry();
    let mut out = String::new();
    render_testing(&mut out, &all, 2, 1);
    let mut expected = String::new();
    expected_header(&mut expected, &all, 2, 1);
    expected.push_str("\r\n  \x1b[33m⏳ Testing package_3...\x1b[0m\r\n");
    assert_eq!(out, expected);
}

#[test]
fn banner_of_a_pass_and_notice_of_the_move() {
    let all = registry();
    let mut out = String::new();
    render_passed(&mut out, &all, 0, 1);
    render_advance(&mut out, &all[1].name);
    let mut expected = String::new();
    expected_header(&mut expected, &all, 0, 1);
    expected.push_str("\r\n  \x1b[1m\x1b[32m✅ Exercise 'Exercise number 1' passed!\x1b[0m\r\n");
    expected.push_str("\r\n  ➡  Auto-jump: \x1b[36mExercise number 2\x1b[0m\r\n");
    assert_eq!(out, expected);
}

#[test]
fn completion_banner() {
    let mut out = String::new();
    render_complete(&mut out, 48);
    assert_eq!(
        out,
        "\r\n  \x1b[1m\x1b[32m🎉 Congratulations! All 48 exercises passed!\x1b[0m\r\n\
         \r\n  Press \x1b[1mq\x1b[0m to quit\r\n"
    );
}

#[test]
fn texts_of_the_first_probe() {
    assert_eq!(
        scan_banner(),
        "\x1b[1m\x1b[34mOS Camp\x1b[0m - Scanning exercise progress...\n\n"
    );
    assert_eq!(scan_line(0, 48, "thread_spawn"), "  [ 1/48] Checking thread_spawn             \r");
    assert_eq!(
        scan_line(11, 12, "a_package_name_longer_than_25"),
        "  [12/12] Checking a_package_name_longer_than_25\r"
    );
    assert_eq!(
        all_passed(48),
        "\n\n  \x1b[1m\x1b[32m🎉 Congratulations! All 48 exercises passed!\x1b[0m\n"
    );
    assert_eq!(farewell(), "Goodbye! Keep up the good work 💪\n");
}

#[test]
fn no_screen_holds_a_bare_line_feed() {
    let all = registry();
    let done = [true, false, false, false];
    let failed = Some(TestOutcome { passed: false, output: "a\nb\r\nc\n\n".to_string() });
    for show_hint in [false, true] {
        for show_list in [false, true] {
            let mut out = String::new();
            full_redraw(&mut out, &all, 1, 1, &failed, show_hint, show_list, &done);
            let chars: Vec<char> = out.chars().collect();
            for (i, c) in chars.iter().enumerate() {
                if *c == '\n' {
                    assert!(i > 0 && chars[i - 1] == '\r');
                }
            }
        }
    }
}
