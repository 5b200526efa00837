use oscamp::exercise::{find_exercise, need_riscv64_target, test_args, Exercise, RISCV64_TARGET};

fn exercise(package: &str) -> Exercise {
    Exercise {
        name: format!("Name of {package}"),
        package: package.to_string(),
        path: format!("exercises/{package}/src/lib.rs"),
        module: "module".to_string(),
        description: "description".to_string(),
        hint: "hint".to_string(),
    }
}

#[test]
fn context_switch_exercises_need_the_riscv64_target() {
    assert!(need_riscv64_target("stack_coroutine"));
    assert!(need_riscv64_target("green_threads"));
    assert!(!need_riscv64_target("thread_spawn"));
    assert!(!need_riscv64_target("green_thread"));
    assert!(!need_riscv64_target(""));
    assert_eq!(RISCV64_TARGET, "riscv64gc-unknown-linux-gnu");
}

#[test]
fn arguments_of_a_test_run() {
    assert_eq!(test_args("pte_flags", false), vec!["test", "-p", "pte_flags", "--", "--color=always"]);
    assert_eq!(
        test_args("green_threads", false),
        vec![
            "test",
            "-p",
            "green_threads",
            "--target",
            "riscv64gc-unknown-linux-gnu",
            "--",
            "--color=always",
            "--nocapture"
        ]
    );
}

#[test]
fn arguments_of_a_quiet_probe() {
    assert_eq!(test_args("pte_flags", true), vec!["test", "-p", "pte_flags", "--quiet"]);
    assert_eq!(
        test_args("stack_coroutine", true),
        vec![
            "test",
            "-p",
            "stack_coroutine",
            "--target",
            "riscv64gc-unknown-linux-gnu",
            "--quiet",
            "--",
            "--nocapture"
        ]
    );
}

#[test]
fn an_exercise_is_found_by_its_package() {
    let all = vec![exercise("a"), exercise("b"), exercise("c"), exercise("b")];
    assert_eq!(find_exercise(&all, "a"), Some(0));
    assert_eq!(find_exercise(&all, "b"), Some(1));
    assert_eq!(find_exercise(&all, "c"), Some(2));
}

#[test]
fn an_unknown_package_is_not_found() {
    let all = vec![exercise("a"), exercise("b")];
    assert_eq!(find_exercise(&all, "z"), None);
    assert_eq!(find_exercise(&all, "Name of a"), None);
    assert_eq!(find_exercise(&[], "a"), None);
}
