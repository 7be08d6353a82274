use plx::check::{Check, CheckTest};
use plx::exo::{Exo, ExoInfo, ExoState, ExoStateInfo, ParseError, ParseWarning};

fn basic_args_checks() -> Vec<Check> {
    vec![
        Check {
            name: String::from("Joe + 5 legs"),
            args: vec![String::from("Joe"), String::from("5")],
            test: CheckTest::Output { expected: String::from("The dog is Joe and has 5 legs") },
        },
        Check {
            name: String::from("No arg -> error"),
            args: vec![],
            test: CheckTest::Output {
                expected: String::from("Error: missing argument firstname and legs number"),
            },
        },
        Check {
            name: String::from("One arg -> error"),
            args: vec![String::from("Joe")],
            test: CheckTest::Output {
                expected: String::from("Error: missing argument firstname and legs number"),
            },
        },
    ]
}

#[test]
fn test_parse_full_intro_basic_args() {
    let file_path = "examples/mock-plx-project/intro/basic-args";
    let info = ExoInfo {
        name: String::from("Basic arguments usage"),
        instruction: Some(String::from(
            "The 2 first program arguments are the firstname and number of legs of a dog. Print a full sentence about the dog. Make sure there is at least 2 arguments, print an error if not.",
        )),
        checks: basic_args_checks(),
    };
    let listing = vec![
        format!("{}/exo.toml", file_path),
        format!("{}/main.c", file_path),
        format!("{}/main.sol.c", file_path),
    ];
    let expected = Exo {
        name: String::from("Basic arguments usage"),
        instruction: Some(String::from(
            "The 2 first program arguments are the firstname and number of legs of a dog. Print a full sentence about the dog. Make sure there is at least 2 arguments, print an error if not.",
        )),
        state: ExoState::Todo,
        folder: file_path.into(),
        files: vec![format!("{}/main.c", file_path)],
        solutions: vec![format!("{}/main.sol.c", file_path)],
        checks: basic_args_checks(),
        favorite: false,
    };
    assert_eq!(
        expected,
        Exo::from_dir_parts(file_path.into(), Ok(info), None, Ok(listing))
            .expect("Couldn't parse file")
            .0
    );
}

#[test]
fn test_exo_done() {
    let file_path = "examples/mock-plx-project/mock-skill/exo-done";
    let info = ExoInfo { name: String::from("Exo Done"), instruction: None, checks: vec![] };
    let state = ExoStateInfo { state: ExoState::Done, favorite: false };
    let listing = vec![
        format!("{}/exo.toml", file_path),
        format!("{}/.exo-state.toml", file_path),
        format!("{}/main.c", file_path),
    ];
    let (exo, _warnings) =
        Exo::from_dir_parts(file_path.into(), Ok(info), Some(state), Ok(listing)).unwrap();
    let expected = Exo {
        name: String::from("Exo Done"),
        instruction: None,
        folder: file_path.into(),
        checks: vec![],
        files: vec![format!("{}/main.c", file_path)],
        favorite: false,
        state: ExoState::Done,
        solutions: vec![],
    };
    assert_eq!(expected, exo);
    println!("{:#?}", exo);
}

#[test]
fn test_exo_favorite() {
    let file_path = "examples/mock-plx-project/mock-skill/exo-favorite";
    let info =
        ExoInfo { name: String::from("Favorite Exercise"), instruction: None, checks: vec![] };
    let state = ExoStateInfo { state: ExoState::Todo, favorite: true };
    let listing = vec![
        format!("{}/exo.toml", file_path),
        format!("{}/.exo-state.toml", file_path),
        format!("{}/main.c", file_path),
    ];
    let (exo, _warnings) =
        Exo::from_dir_parts(file_path.into(), Ok(info), Some(state), Ok(listing)).unwrap();
    let expected = Exo {
        name: String::from("Favorite Exercise"),
        instruction: None,
        checks: vec![],
        folder: file_path.into(),
        files: vec![format!("{}/main.c", file_path)],
        favorite: true,
        state: ExoState::Todo,
        solutions: vec![],
    };
    assert_eq!(expected, exo);
    println!("{:#?}", exo);
}

#[test]
fn test_exo_in_progress() {
    let file_path = "examples/mock-plx-project/mock-skill/exo-in-progress";
    let info = ExoInfo { name: String::from("In Progress"), instruction: None, checks: vec![] };
    let state = ExoStateInfo { state: ExoState::InProgress, favorite: false };
    let listing = vec![
        format!("{}/exo.toml", file_path),
        format!("{}/.exo-state.toml", file_path),
        format!("{}/main.c", file_path),
    ];
    let (exo, _warnings) =
        Exo::from_dir_parts(file_path.into(), Ok(info), Some(state), Ok(listing)).unwrap();
    let expected = Exo {
        name: String::from("In Progress"),
        instruction: None,
        checks: vec![],
        folder: file_path.into(),
        files: vec![format!("{}/main.c", file_path)],
        favorite: false,
        state: ExoState::InProgress,
        solutions: vec![],
    };
    assert_eq!(expected, exo);
    println!("{:#?}", exo);
}

#[test]
fn test_exo_multiple_sols() {
    let file_path = "examples/mock-plx-project/mock-skill/multiple-sols";
    let info = ExoInfo { name: String::from("Multiple Sols"), instruction: None, checks: vec![] };
    let listing = vec![
        format!("{}/exo.toml", file_path),
        format!("{}/main.c", file_path),
        format!("{}/main.sol.c", file_path),
        format!("{}/whyisthishere.sol.c", file_path),
    ];
    let sol_files =
        vec![format!("{}/main.sol.c", file_path), format!("{}/whyisthishere.sol.c", file_path)];
    let (exo, warnings) =
        Exo::from_dir_parts(file_path.into(), Ok(info), None, Ok(listing)).unwrap();
    let expected = Exo {
        name: String::from("Multiple Sols"),
        instruction: None,
        folder: file_path.into(),
        checks: vec![],
        files: vec![format!("{}/main.c", file_path)],
        favorite: false,
        state: ExoState::Todo,
        solutions: sol_files.clone(),
    };
    assert_eq!(expected.solutions.len(), exo.solutions.len());
    assert_eq!(warnings.len(), 1);
    assert!(matches!(warnings[0], ParseWarning::ExoFileNotFound(_)));
}

#[test]
fn test_no_exo_info() {
    let file_path = "examples/mock-plx-project/mock-skill/no-exo-info";
    let info: Result<ExoInfo, ParseError> = Err(ParseError::ReadFileError(format!(
        "Couldn't read file {}/exo.toml",
        file_path
    )));
    let listing = vec![format!("{}/main.c", file_path)];
    let ret = Exo::from_dir_parts(file_path.into(), info, None, Ok(listing));
    assert!(ret.is_err());

    let err = match ret {
        Ok(_) => panic!("Exo can't be constructed with no exo info"),
        Err((error, _warnings)) => error,
    };
    assert!(matches!(err, ParseError::ReadFileError(_)));
}

#[test]
fn test_no_files() {
    let file_path = "examples/mock-plx-project/mock-skill/no-files";
    let info = ExoInfo { name: String::from("No Files"), instruction: None, checks: vec![] };
    let listing = vec![format!("{}/exo.toml", file_path)];
    let ret = Exo::from_dir_parts(file_path.into(), Ok(info), None, Ok(listing));
    assert!(ret.is_err());

    let err = match ret {
        Ok(_) => panic!("Exo can't be constructed with no files"),
        Err((error, _warnings)) => error,
    };
    assert!(matches!(err, ParseError::NoExoFilesFound(_)));
}

#[test]
fn discovery_failure_is_reported() {
    let info = ExoInfo { name: String::from("Broken"), instruction: None, checks: vec![] };
    let ret = Exo::from_dir_parts(
        String::from("d"),
        Ok(info),
        None,
        Err(String::from("permission denied")),
    );
    match ret {
        Err((ParseError::FileDiscoveryFailed(msg), warnings)) => {
            assert_eq!(msg, "permission denied");
            assert!(warnings.is_empty());
        }
        other => panic!("expected a discovery failure, got err={}", other.is_err()),
    }
}

#[test]
fn solution_with_unsplittable_name_warns_invalid() {
    let info = ExoInfo { name: String::from("Odd"), instruction: None, checks: vec![] };
    let listing = vec![String::from("ok/main.c"), String::from("d.sol.x/name")];
    let (exo, warnings) =
        Exo::from_dir_parts(String::from("d"), Ok(info), None, Ok(listing)).unwrap();
    assert_eq!(exo.files, vec![String::from("ok/main.c")]);
    assert_eq!(exo.solutions, vec![String::from("d.sol.x/name")]);
    assert_eq!(warnings.len(), 1);
    match &warnings[0] {
        ParseWarning::InvalidFileName(msg) => assert_eq!(msg, "\"d.sol.x/name\""),
        other => panic!("expected an invalid-name warning, got {:?}", other),
    }
}

#[test]
fn no_solution_warning_carries_the_folder() {
    let info = ExoInfo { name: String::from("Solo"), instruction: None, checks: vec![] };
    let listing = vec![String::from("d/main.c")];
    let (_exo, warnings) =
        Exo::from_dir_parts(String::from("d"), Ok(info), None, Ok(listing)).unwrap();
    assert_eq!(warnings.len(), 1);
    match &warnings[0] {
        ParseWarning::NoSolutionFile(msg) => assert_eq!(msg, "No solution found in \"d\""),
        other => panic!("expected a no-solution warning, got {:?}", other),
    }
}

#[test]
fn missing_exo_warning_names_the_expected_file() {
    let info = ExoInfo { name: String::from("Mismatch"), instruction: None, checks: vec![] };
    let listing = vec![String::from("d/other.c"), String::from("d/main.sol.c")];
    let (_exo, warnings) =
        Exo::from_dir_parts(String::from("d"), Ok(info), None, Ok(listing)).unwrap();
    assert_eq!(warnings.len(), 1);
    match &warnings[0] {
        ParseWarning::ExoFileNotFound(msg) => assert_eq!(
            msg,
            "Solution file \"d/main.sol.c\" doesn't have an exo associated with it (expected exo file \"main.c\")"
        ),
        other => panic!("expected a missing-exercise warning, got {:?}", other),
    }
}

#[test]
fn test_no_solution() {
    let file_path = "examples/mock-plx-project/mock-skill/no-sol";
    let info = ExoInfo { name: String::from("No Sol"), instruction: None, checks: vec![] };
    let listing = vec![format!("{}/exo.toml", file_path), format!("{}/main.c", file_path)];
    let (exo, warnings) =
        Exo::from_dir_parts(file_path.into(), Ok(info), None, Ok(listing)).unwrap();
    let expected = Exo {
        name: String::from("No Sol"),
        folder: file_path.into(),
        instruction: None,
        checks: vec![],
        files: vec![format!("{}/main.c", file_path)],
        favorite: false,
        state: ExoState::Todo,
        solutions: vec![],
    };
    assert_eq!(expected, exo);
    assert_eq!(warnings.len(), 1);
    assert!(matches!(warnings[0], ParseWarning::NoSolutionFile(_)));
}
