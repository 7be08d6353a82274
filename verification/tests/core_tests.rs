use plx::check::{all_checks_passed, concat_output, Check, CheckState, CheckStatus, CheckTest,
    Diff};
use plx::dispatch::WorkHandler;
use plx::event::{Event, ExitInfo, RunEvent};
use plx::exo::{get_solution_file, Compiler, Exo, ExoState, ExoStateInfo};
use plx::project::{Project, ProjectState, Skill};
use plx::text::{contains_str, file_name, remove_all, split_name, str_eq};
use plx::work::{Launcher, Work, Worker};

fn joe_check() -> Check {
    Check {
        name: String::from("Joe + 5 legs"),
        args: vec![String::from("Joe"), String::from("5")],
        test: CheckTest::Output { expected: String::from("The dog is Joe and has 5 legs") },
    }
}

fn bare_exo(files: Vec<String>) -> Exo {
    Exo {
        name: String::from("an exercise"),
        instruction: None,
        state: ExoState::Todo,
        files,
        solutions: vec![String::from("dir/main.sol.c")],
        checks: vec![],
        favorite: false,
        folder: String::from("dir"),
    }
}

fn evaluate(check: &Check, lines: Vec<&str>) -> CheckState {
    let mut state = CheckState::new(check);
    state.start_run();
    state.output_captured();
    let owned: Vec<String> = lines.into_iter().map(String::from).collect();
    let actual = concat_output(&owned);
    let expected = match &check.test {
        CheckTest::Output { expected } => expected.clone(),
    };
    let diff = if actual == expected {
        None
    } else {
        Some(Diff { rendered: format!("- {}\n+ {}", expected, actual) })
    };
    state.conclude(actual, diff);
    state
}

#[test]
fn check_passes_on_exact_output() {
    let state = evaluate(&joe_check(), vec!["The dog is Joe and has 5 legs"]);
    assert_eq!(state.status, CheckStatus::Passed);
}

#[test]
fn check_fails_on_wrong_output_with_both_strings_and_diff() {
    let state = evaluate(&joe_check(), vec!["The dog is Joe and has 4 legs"]);
    match state.status {
        CheckStatus::Failed(actual, expected, _diff) => {
            assert_eq!(actual, "The dog is Joe and has 4 legs");
            assert_eq!(expected, "The dog is Joe and has 5 legs");
        },
        other => panic!("expected a Failed status, got {:?}", other),
    }
}

#[test]
fn check_spawn_failure_never_reaches_checking() {
    let mut state = CheckState::new(&joe_check());
    state.run_failed(String::from("No such file or directory"));
    assert_eq!(state.status, CheckStatus::RunFail(String::from("No such file or directory")));
}

#[test]
fn second_check_still_runs_after_first_fails() {
    let first = evaluate(&joe_check(), vec!["wrong output"]);
    assert!(matches!(first.status, CheckStatus::Failed(_, _, _)));
    let second = evaluate(&joe_check(), vec!["The dog is Joe and has 5 legs"]);
    assert_eq!(second.status, CheckStatus::Passed);
    assert!(!all_checks_passed(&vec![first.clone(), second.clone()]));
    assert!(!all_checks_passed(&vec![first]));
    assert!(all_checks_passed(&vec![second]));
}

#[test]
fn all_checks_passed_is_vacuous_on_empty_list() {
    assert!(all_checks_passed(&vec![]));
}

#[test]
fn launcher_translates_a_full_run_under_its_id() {
    let launcher = Launcher::new(7, String::from("bin/app"), vec![String::from("a")]);
    let msgs = vec![
        RunEvent::ProcessCreated,
        RunEvent::ProcessNewOutputLine(String::from("hello")),
        RunEvent::ProcessEnd(ExitInfo { success: true }),
    ];
    let (events, completed) = launcher.run(&msgs);
    assert!(completed);
    assert_eq!(
        events,
        vec![
            Event::RunStart(7),
            Event::RunOutputLine(7, String::from("hello")),
            Event::RunEnd(7),
        ]
    );
}

#[test]
fn launcher_aborts_translation_on_creation_failure() {
    let launcher = Launcher::new(3, String::from("bin/app"), vec![]);
    let msgs = vec![
        RunEvent::ProcessCreationFailed(String::from("no such binary")),
        RunEvent::ProcessNewOutputLine(String::from("never seen")),
    ];
    let (events, completed) = launcher.run(&msgs);
    assert!(!completed);
    assert_eq!(events, vec![Event::RunFail(3, String::from("no such binary"))]);
}

#[test]
fn cancelled_before_spawn_emits_no_events() {
    let launcher = Launcher::new(9, String::from("bin/app"), vec![]);
    let (events, completed) = launcher.run(&vec![]);
    assert!(completed);
    assert!(events.is_empty());
}

#[test]
fn full_command_joins_program_and_arguments() {
    let launcher =
        Launcher::new(1, String::from("bin/app"), vec![String::from("Joe"), String::from("5")]);
    assert_eq!(launcher.get_full_command(), "bin/app Joe 5");
}

#[test]
fn dispatcher_never_reuses_a_pending_id() {
    let mut handler = WorkHandler::new();
    let work = Work::Launch(Launcher::new(0, String::from("bin/app"), vec![]));
    let (first, worker) = handler.submit(work);
    assert_eq!(first, 0);
    let again = Work::Launch(Launcher::new(0, String::from("bin/other"), vec![]));
    let (second, _) = handler.submit(again);
    assert_eq!(second, 1);
    assert_eq!(handler.is_cancelled(first), Some(false));
    handler.cancel(first);
    assert_eq!(handler.is_cancelled(first), Some(true));
    assert_eq!(handler.is_cancelled(5), None);
    handler.on_done(first);
    assert_eq!(handler.is_cancelled(first), None);
    let third = Work::Launch(Launcher::new(0, String::from("bin/third"), vec![]));
    let (id, _) = handler.submit(third);
    assert_eq!(id, 2);
    let msgs = vec![RunEvent::ProcessCreated, RunEvent::ProcessEnd(ExitInfo { success: false })];
    let (events, _) = worker.run(&msgs);
    assert_eq!(events, vec![Event::RunStart(0), Event::RunEnd(0)]);
}

#[test]
fn concat_output_joins_lines_with_newlines() {
    assert_eq!(concat_output(&vec![]), "");
    assert_eq!(concat_output(&vec![String::from("a")]), "a");
    assert_eq!(concat_output(&vec![String::from("a"), String::from("b")]), "a\nb");
}

#[test]
fn text_helpers_follow_path_conventions() {
    assert_eq!(remove_all("main.sol", ".sol"), "main");
    assert_eq!(remove_all("a.sol.sol", ".sol"), "a");
    assert_eq!(remove_all("nothing", ".sol"), "nothing");
    assert!(contains_str("dir/main.sol.c", ".sol."));
    assert!(!contains_str("dir/main.c", ".sol."));
    assert_eq!(file_name("dir/sub/main.c"), "main.c");
    assert_eq!(file_name("main.c"), "main.c");
    let (stem, ext) = split_name("main.sol.c");
    assert_eq!(stem, "main.sol");
    assert_eq!(ext, Some(String::from("c")));
    let (stem, ext) = split_name("README");
    assert_eq!(stem, "README");
    assert_eq!(ext, None);
    assert!(str_eq("abc", "abc"));
    assert!(!str_eq("abc", "abd"));
}

#[test]
fn compiler_choice_follows_extensions() {
    let c_only = bare_exo(vec![String::from("d/main.c"), String::from("d/util.c")]);
    assert_eq!(c_only.compiler(), Some(Compiler::Gcc));
    let cpp_late = bare_exo(vec![String::from("d/main.c"), String::from("d/extra.cpp")]);
    assert_eq!(cpp_late.compiler(), Some(Compiler::Gxx));
    let cc_file = bare_exo(vec![String::from("d/main.cc")]);
    assert_eq!(cc_file.compiler(), Some(Compiler::Gxx));
    let none = bare_exo(vec![String::from("d/README")]);
    assert_eq!(none.compiler(), None);
}

#[test]
fn main_file_is_preferred_then_first() {
    let with_main = bare_exo(vec![String::from("d/other.c"), String::from("d/main.c")]);
    assert_eq!(with_main.get_main_file(), Some(&String::from("d/main.c")));
    let without_main = bare_exo(vec![String::from("d/a.c"), String::from("d/b.c")]);
    assert_eq!(without_main.get_main_file(), Some(&String::from("d/a.c")));
    let empty = bare_exo(vec![]);
    assert_eq!(empty.get_main_file(), None);
}

#[test]
fn solution_file_lookup_checks_the_index() {
    let exo = bare_exo(vec![String::from("dir/main.c")]);
    assert_eq!(get_solution_file(&exo, 0), Ok(String::from("dir/main.sol.c")));
    assert_eq!(get_solution_file(&exo, 1), Err(()));
}

fn two_skill_project() -> Project {
    let exo_a = bare_exo(vec![String::from("a/main.c")]);
    let exo_b = bare_exo(vec![String::from("b/main.c")]);
    let exo_c = bare_exo(vec![String::from("c/main.c")]);
    Project {
        name: String::from("course"),
        skills: vec![
            Skill {
                name: String::from("first"),
                path: String::from("first"),
                exos: vec![exo_a, exo_b],
            },
            Skill { name: String::from("second"), path: String::from("second"), exos: vec![exo_c] },
        ],
        state: ProjectState { curr_skill_idx: 0, curr_exo_idx: 0 },
        folder: String::from("course-dir"),
    }
}

#[test]
fn navigation_moves_and_reports_persistence() {
    let mut project = two_skill_project();
    assert!(!project.next_exo(false));
    assert_eq!(project.state, ProjectState { curr_skill_idx: 0, curr_exo_idx: 1 });
    assert!(project.next_exo(true));
    assert_eq!(project.state, ProjectState { curr_skill_idx: 1, curr_exo_idx: 0 });
    assert!(project.next_exo(true));
    assert_eq!(project.state, ProjectState { curr_skill_idx: 0, curr_exo_idx: 0 });
    assert!(project.prev_exo(true));
    assert_eq!(project.state, ProjectState { curr_skill_idx: 1, curr_exo_idx: 0 });
    assert!(project.prev_skill(false));
    assert_eq!(project.state, ProjectState { curr_skill_idx: 0, curr_exo_idx: 0 });
    assert!(!project.prev_exo(false));
    assert_eq!(project.state, ProjectState { curr_skill_idx: 0, curr_exo_idx: 0 });
    assert!(project.next_skill(true));
    assert_eq!(project.state, ProjectState { curr_skill_idx: 1, curr_exo_idx: 0 });
}

#[test]
fn resume_checks_the_stored_cursor() {
    let mut project = two_skill_project();
    assert!(project.resume().is_some());
    assert_eq!(project.resume().unwrap(), project.current_exo());
    project.state = ProjectState { curr_skill_idx: 5, curr_exo_idx: 0 };
    assert!(project.resume().is_none());
}

#[test]
fn exo_state_records_are_updated_in_place() {
    let mut info = ExoStateInfo { state: ExoState::Todo, favorite: false };
    Project::set_exo_state(&mut info, ExoState::Done);
    assert_eq!(info, ExoStateInfo { state: ExoState::Done, favorite: false });
    Project::set_exo_favorite(&mut info, true);
    assert_eq!(info, ExoStateInfo { state: ExoState::Done, favorite: true });
}

#[test]
fn worker_tags_events_with_its_own_id() {
    let launcher = Launcher::new(4, String::from("bin/app"), vec![]);
    let worker = Worker::new(4, Work::Launch(launcher));
    let msgs = vec![
        RunEvent::ProcessCreated,
        RunEvent::ProcessNewOutputLine(String::from("x")),
        RunEvent::ProcessEnd(ExitInfo { success: true }),
    ];
    let (events, completed) = worker.run(&msgs);
    assert!(completed);
    for event in events {
        let id = match event {
            Event::RunStart(id) => id,
            Event::RunEnd(id) => id,
            Event::RunFail(id, _) => id,
            Event::RunOutputLine(id, _) => id,
        };
        assert_eq!(id, 4);
    }
}
