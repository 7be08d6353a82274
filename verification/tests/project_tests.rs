use plx::check::{Check, CheckTest};
use plx::exo::{Exo, ExoState, ParseWarning};
use plx::project::{Project, ProjectInfo, ProjectState, Skill, SkillOutcome};

fn basic_args_exo(project_path: &str) -> Exo {
    let folder = format!("{}/intro/basic-args", project_path);
    Exo {
        name: String::from("Basic arguments usage"),
        instruction: Some(String::from(
            "The 2 first program arguments are the firstname and number of legs of a dog. Print a full sentence about the dog. Make sure there is at least 2 arguments, print an error if not.",
        )),
        folder: folder.clone(),
        state: ExoState::Todo,
        files: vec![format!("{}/main.c", folder)],
        solutions: vec![format!("{}/main.sol.c", folder)],
        checks: vec![
            Check {
                name: String::from("Joe + 5 legs"),
                args: vec![String::from("Joe"), String::from("5")],
                test: CheckTest::Output {
                    expected: String::from("The dog is Joe and has 5 legs"),
                },
            },
            Check {
                name: String::from("No arg -> error"),
                args: vec![],
                test: CheckTest::Output {
                    expected: String::from("Error: missing argument firstname and legs number"),
                },
            },
            Check {
                name: String::from("One arg -> error"),
                args: vec![String::from("Joe")],
                test: CheckTest::Output {
                    expected: String::from("Error: missing argument firstname and legs number"),
                },
            },
        ],
        favorite: false,
    }
}

fn basic_output_exo(project_path: &str) -> Exo {
    let folder = format!("{}/intro/basic-output", project_path);
    Exo {
        name: String::from("Basic output printing"),
        folder: folder.clone(),
        instruction: Some(String::from("Just print 2 lines")),
        state: ExoState::Todo,
        files: vec![format!("{}/main.c", folder)],
        solutions: vec![format!("{}/main.sol.c", folder)],
        checks: vec![Check {
            name: String::from("Lines are correct"),
            args: vec![],
            test: CheckTest::Output {
                expected: String::from("PLX is amazing !\nThis is a neutral opinion...\n"),
            },
        }],
        favorite: false,
    }
}

#[test]
fn test_example_full() {
    let project_path = "examples/full";
    let info = ProjectInfo {
        name: String::from("A full course"),
        skill_folders: vec![String::from("basics")],
    };
    let skill = Skill {
        name: String::from("Basics"),
        path: format!("{}/basics", project_path),
        exos: vec![basic_args_exo(project_path)],
    };
    let outcomes = vec![SkillOutcome {
        folder: String::from("basics"),
        result: Ok((skill, vec![])),
    }];
    let ret = Project::from_dir_parts(project_path.into(), Ok(info), None, outcomes);

    println!("{:#?}", ret.is_ok());
    assert!(ret.is_ok());
    let (_project, warnings) = ret.unwrap();
    assert!(warnings.len() < 2);
}

#[test]
fn all_skills_failing_is_an_error() {
    let info = ProjectInfo {
        name: String::from("Empty course"),
        skill_folders: vec![String::from("a"), String::from("b")],
    };
    let outcomes = vec![
        SkillOutcome { folder: String::from("a"), result: Err(String::from("boom")) },
        SkillOutcome { folder: String::from("b"), result: Err(String::from("crash")) },
    ];
    let ret = Project::from_dir_parts(String::from("p"), Ok(info), None, outcomes);
    match ret {
        Err((plx::exo::ParseError::ErrorParsingSkills(msg), warnings)) => {
            assert_eq!(msg, "Couldn't parse any skill folders in \"p\"");
            assert_eq!(warnings.len(), 2);
            match &warnings[0] {
                ParseWarning::ParseSkillFail(m) => {
                    assert_eq!(m, "Couldn't parse skill in \"a\": boom")
                }
                other => panic!("expected a skill-parse warning, got {:?}", other),
            }
        }
        other => panic!("expected an error, got ok={}", other.is_ok()),
    }
}

#[test]
fn test_full_hierarchy() {
    let project_path = "examples/mock-plx-project";
    let info = ProjectInfo {
        name: String::from("Full fictive course"),
        skill_folders: vec![String::from("intro"), String::from("mock-skill")],
    };
    let intro = Skill {
        name: String::from("Introduction"),
        path: format!("{}/intro", project_path),
        exos: vec![basic_args_exo(project_path), basic_output_exo(project_path)],
    };
    let outcomes = vec![
        SkillOutcome { folder: String::from("intro"), result: Ok((intro.clone(), vec![])) },
        SkillOutcome {
            folder: String::from("mock-skill"),
            result: Err(String::from("(ReadFileError(\"missing exo info\"), [])")),
        },
    ];
    let project = Project::from_dir_parts(project_path.into(), Ok(info), None, outcomes);
    let expected = Project {
        name: String::from("Full fictive course"),
        folder: project_path.into(),
        skills: vec![intro],
        state: ProjectState { curr_exo_idx: 0, curr_skill_idx: 0 },
    };
    let (actual, warnings) = project.unwrap();
    assert_eq!(expected, actual);
    assert!(matches!(warnings[0], ParseWarning::ParseSkillFail(_)));
}
