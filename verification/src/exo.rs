//! The exercise model: an exercise's files, solutions, checks and state, and
//! the rules that classify a directory listing into exercise and solution
//! files, pair solutions with their exercise files, and pick the compiler
//! and main file. Reading the directory and parsing the metadata files
//! happen outside the library; the assembly of their results is verified
//! here.

use vstd::prelude::*;
use crate::check::Check;
use crate::seqs::lemma_filter_push;
use crate::text::{
    contains_seq, contains_str, ext_spec, file_name, file_name_spec, remove_all, remove_all_spec,
    split_name, stem_spec, str_eq,
};

verus! {

/// Progress state of an exercise.
#[derive(Debug, Clone, Copy, PartialEq, Eq, Structural)]
pub enum ExoState {
    Todo,
    InProgress,
    Done,
}

/// The compiler an exercise's sources call for.
#[derive(Debug, Clone, Copy, PartialEq, Eq, Structural)]
pub enum Compiler {
    Gcc,
    Gxx,
}

/// Why an exercise or project could not be built from a directory.
#[derive(Debug, Clone, PartialEq, Eq)]
pub enum ParseError {
    /// A metadata file could not be read or parsed.
    ReadFileError(String),
    /// The directory listing could not be obtained.
    FileDiscoveryFailed(String),
    /// The directory holds no exercise file.
    NoExoFilesFound(String),
    /// No skill folder of the project could be parsed.
    ErrorParsingSkills(String),
}

/// A non-fatal finding while building an exercise or project.
#[derive(Debug, Clone, PartialEq, Eq)]
pub enum ParseWarning {
    NoSolutionFile(String),
    ExoFileNotFound(String),
    InvalidFileName(String),
    ParseSkillFail(String),
}

/// The mathematical value of a warning: its kind and its message.
pub enum ParseWarningView {
    NoSolutionFile(Seq<char>),
    ExoFileNotFound(Seq<char>),
    InvalidFileName(Seq<char>),
    ParseSkillFail(Seq<char>),
}

impl View for ParseWarning {
    type V = ParseWarningView;

    open spec fn view(&self) -> ParseWarningView {
        match self {
            ParseWarning::NoSolutionFile(m) => ParseWarningView::NoSolutionFile(m@),
            ParseWarning::ExoFileNotFound(m) => ParseWarningView::ExoFileNotFound(m@),
            ParseWarning::InvalidFileName(m) => ParseWarningView::InvalidFileName(m@),
            ParseWarning::ParseSkillFail(m) => ParseWarningView::ParseSkillFail(m@),
        }
    }
}

/// The views of a warning list.
pub open spec fn warning_views(ws: Seq<ParseWarning>) -> Seq<ParseWarningView> {
    ws.map_values(|w: ParseWarning| w@)
}

/// The exercise description read from the exercise's metadata file.
#[derive(Debug, Clone, PartialEq, Eq)]
pub struct ExoInfo {
    pub name: String,
    pub instruction: Option<String>,
    pub checks: Vec<Check>,
}

/// The persisted per-exercise state read from the exercise's state file.
#[derive(Debug, Clone, Copy, PartialEq, Eq, Structural)]
pub struct ExoStateInfo {
    pub state: ExoState,
    pub favorite: bool,
}

/// One exercise: its description, its files and solutions, its checks and
/// its persisted state.
#[derive(Debug, Clone, PartialEq, Eq)]
pub struct Exo {
    pub name: String,
    pub instruction: Option<String>,
    pub state: ExoState,
    pub files: Vec<String>,
    pub solutions: Vec<String>,
    pub checks: Vec<Check>,
    pub favorite: bool,
    pub folder: String,
}

/// `s` surrounded by double quotes, the debug rendering of a path.
pub open spec fn quoted(s: Seq<char>) -> Seq<char> {
    "\""@ + s + "\""@
}

/// Message of the warning for an exercise without a solution file.
pub open spec fn no_solution_msg(folder: Seq<char>) -> Seq<char> {
    "No solution found in "@ + quoted(folder)
}

/// Message of the warning for a solution file without a matching exercise
/// file.
pub open spec fn missing_exo_msg(sol: Seq<char>, target: Seq<char>) -> Seq<char> {
    "Solution file "@ + quoted(sol) + " doesn't have an exo associated with it (expected exo file "@
        + quoted(target) + ")"@
}

pub fn quoted_str(s: &str) -> (r: String)
    ensures
        r@ == quoted(s@),
{
    let mut r = String::from_str("\"");
    r.append(s);
    r.append("\"");
    r
}

/// The path names one of the trainer's own metadata files.
pub open spec fn is_toml_path(p: Seq<char>) -> bool {
    ext_spec(file_name_spec(p)) == Some("toml"@)
}

/// The path names a solution file.
pub open spec fn is_solution_path(p: Seq<char>) -> bool {
    !is_toml_path(p) && contains_seq(p, ".sol."@)
}

/// The path names an exercise file.
pub open spec fn is_exo_file_path(p: Seq<char>) -> bool {
    !is_toml_path(p) && !contains_seq(p, ".sol."@)
}

/// The exercise files of a directory listing, in order.
pub open spec fn exo_files_of(files: Seq<String>) -> Seq<String> {
    files.filter(|p: String| is_exo_file_path(p@))
}

/// The solution files of a directory listing, in order.
pub open spec fn solution_files_of(files: Seq<String>) -> Seq<String> {
    files.filter(|p: String| is_solution_path(p@))
}

/// The exercise file name a solution file points at: the solution's file
/// name with every `.sol` removed from its stem and its extension kept.
pub open spec fn solution_target(sol: Seq<char>) -> Seq<char>
    recommends
        ext_spec(file_name_spec(sol)) is Some,
{
    remove_all_spec(stem_spec(file_name_spec(sol)), ".sol"@) + "."@ + ext_spec(
        file_name_spec(sol),
    ).unwrap()
}

/// Whether some listed exercise file has exactly the file name `target`.
pub open spec fn some_exo_file_named(exo_files: Seq<String>, target: Seq<char>) -> bool {
    exists|k: int| 0 <= k < exo_files.len() && file_name_spec(
        (#[trigger] exo_files[k])@,
    ) == target
}

/// The warnings one solution file contributes: an invalid-name warning when
/// it has no extension, a missing-exercise warning when no exercise file
/// matches it, and nothing otherwise.
pub open spec fn solution_warning_views(exo_files: Seq<String>, sol: Seq<char>) -> Seq<
    ParseWarningView,
> {
    match ext_spec(file_name_spec(sol)) {
        None => seq![ParseWarningView::InvalidFileName(quoted(sol))],
        Some(_) => {
            if some_exo_file_named(exo_files, solution_target(sol)) {
                Seq::empty()
            } else {
                seq![
                    ParseWarningView::ExoFileNotFound(
                        missing_exo_msg(sol, solution_target(sol)),
                    ),
                ]
            }
        },
    }
}

/// The warnings a whole solution list contributes, in order.
pub open spec fn all_solution_warning_views(exo_files: Seq<String>, sols: Seq<String>) -> Seq<
    ParseWarningView,
>
    decreases sols.len(),
{
    if sols.len() == 0 {
        Seq::empty()
    } else {
        all_solution_warning_views(exo_files, sols.drop_last()) + solution_warning_views(
            exo_files,
            sols.last()@,
        )
    }
}

impl Exo {
    /// Split a directory listing into exercise files and solution files:
    /// the trainer's metadata files are ignored, paths containing `.sol.`
    /// are solutions, everything else is an exercise file.
    pub fn find_exo_and_solution_files(files: Vec<String>) -> (r: (Vec<String>, Vec<String>))
        ensures
            r.0@ == exo_files_of(files@),
            r.1@ == solution_files_of(files@),
    {
        let ghost exo_pred = |p: String| is_exo_file_path(p@);
        let ghost sol_pred = |p: String| is_solution_path(p@);
        let mut exos: Vec<String> = Vec::new();
        let mut sols: Vec<String> = Vec::new();
        let mut i: usize = 0;
        proof {
            assert(files@.take(0) =~= Seq::<String>::empty());
            reveal(Seq::filter);
        }
        while i < files.len()
            invariant
                i <= files@.len(),
                exo_pred == (|p: String| is_exo_file_path(p@)),
                sol_pred == (|p: String| is_solution_path(p@)),
                exos@ == files@.take(i as int).filter(exo_pred),
                sols@ == files@.take(i as int).filter(sol_pred),
            decreases files@.len() - i,
        {
            let p = files[i].clone();
            let name = file_name(p.as_str());
            let parts = split_name(name.as_str());
            let is_toml = match &parts.1 {
                Some(e) => str_eq(e.as_str(), "toml"),
                None => false,
            };
            proof {
                assert(p@ == files@[i as int]@);
                assert(is_toml == is_toml_path(p@));
                assert(files@.take(i + 1) =~= files@.take(i as int).push(files@[i as int]));
                lemma_filter_push(files@.take(i as int), files@[i as int], exo_pred);
                lemma_filter_push(files@.take(i as int), files@[i as int], sol_pred);
            }
            if !is_toml {
                if contains_str(p.as_str(), ".sol.") {
                    sols.push(p);
                } else {
                    exos.push(p);
                }
            }
            i = i + 1;
        }
        proof {
            assert(files@.take(files@.len() as int) =~= files@);
        }
        (exos, sols)
    }

    /// Check that every solution file has a matching exercise file, and
    /// report a warning for each one that has not or whose name cannot be
    /// split into stem and extension.
    pub fn check_exo_solutions(
        exo_files: &Vec<String>,
        solution_files: &Vec<String>,
        warnings: &mut Vec<ParseWarning>,
    )
        ensures
            final(warnings)@.len() >= old(warnings)@.len(),
            final(warnings)@.take(old(warnings)@.len() as int) == old(warnings)@,
            warning_views(final(warnings)@.skip(old(warnings)@.len() as int))
                == all_solution_warning_views(exo_files@, solution_files@),
    {
        let ghost orig = old(warnings)@;
        let mut i: usize = 0;
        proof {
            assert(warnings@.skip(orig.len() as int) =~= Seq::<ParseWarning>::empty());
            assert(warning_views(Seq::<ParseWarning>::empty()) =~= Seq::<ParseWarningView>::empty());
            assert(warnings@.take(orig.len() as int) =~= orig);
        }
        while i < solution_files.len()
            invariant
                i <= solution_files@.len(),
                warnings@.len() >= orig.len(),
                warnings@.take(orig.len() as int) == orig,
                warning_views(warnings@.skip(orig.len() as int)) == all_solution_warning_views(
                    exo_files@,
                    solution_files@.take(i as int),
                ),
            decreases solution_files@.len() - i,
        {
            let sol = solution_files[i].clone();
            let name = file_name(sol.as_str());
            let parts = split_name(name.as_str());
            let ghost before = warnings@;
            proof {
                assert(sol@ == solution_files@[i as int]@);
                assert(solution_files@.take(i + 1) =~= solution_files@.take(i as int).push(
                    solution_files@[i as int],
                ));
                assert(solution_files@.take(i + 1).drop_last() =~= solution_files@.take(i as int));
            }
            match parts.1 {
                None => {
                    let msg = quoted_str(sol.as_str());
                    warnings.push(ParseWarning::InvalidFileName(msg));
                },
                Some(ext) => {
                    let stem = parts.0;
                    proof {
                        reveal_strlit(".sol");
                    }
                    let mut target = remove_all(stem.as_str(), ".sol");
                    target.append(".");
                    target.append(ext.as_str());
                    proof {
                        assert(target@ == solution_target(sol@));
                    }
                    let mut found = false;
                    let mut k: usize = 0;
                    while k < exo_files.len() && !found
                        invariant
                            k <= exo_files@.len(),
                            target@ == solution_target(sol@),
                            !found ==> forall|j: int| 0 <= j < k ==> file_name_spec(
                                (#[trigger] exo_files@[j])@,
                            ) != target@,
                            found ==> some_exo_file_named(exo_files@, target@),
                        decreases exo_files@.len() - k, (if found { 0int } else { 1int }),
                    {
                        let en = file_name(exo_files[k].as_str());
                        if str_eq(en.as_str(), target.as_str()) {
                            found = true;
                            proof {
                                assert(file_name_spec(exo_files@[k as int]@) == target@);
                            }
                        } else {
                            k = k + 1;
                        }
                    }
                    if !found {
                        let mut msg = String::from_str("Solution file ");
                        let q1 = quoted_str(sol.as_str());
                        msg.append(q1.as_str());
                        msg.append(
                            " doesn't have an exo associated with it (expected exo file ",
                        );
                        let q2 = quoted_str(target.as_str());
                        msg.append(q2.as_str());
                        msg.append(")");
                        proof {
                            assert(msg@ == missing_exo_msg(sol@, target@));
                        }
                        warnings.push(ParseWarning::ExoFileNotFound(msg));
                    }
                },
            }
            proof {
                let f = |w: ParseWarning| w@;
                assert(warnings@.take(orig.len() as int) =~= before.take(orig.len() as int));
                if warnings@.len() > before.len() {
                    let w = warnings@.last();
                    assert(warnings@.skip(orig.len() as int) =~= before.skip(
                        orig.len() as int,
                    ).push(w));
                    assert(before.skip(orig.len() as int).push(w).map_values(f) =~= before.skip(
                        orig.len() as int,
                    ).map_values(f).push(w@));
                } else {
                    assert(warnings@.skip(orig.len() as int) =~= before.skip(orig.len() as int));
                }
                assert(warning_views(warnings@.skip(orig.len() as int))
                    =~= all_solution_warning_views(exo_files@, solution_files@.take(i + 1)));
            }
            i = i + 1;
        }
        proof {
            assert(solution_files@.take(solution_files@.len() as int) =~= solution_files@);
        }
    }

    /// The file to open first: the first file whose stem is `main`, or the
    /// first file at all.
    pub fn get_main_file(&self) -> (r: Option<&String>)
        ensures
            r is Some <==> self.files@.len() > 0,
            r matches Some(f) ==> ({
                if exists|i: int| 0 <= i < self.files@.len() && stem_spec(
                    file_name_spec((#[trigger] self.files@[i])@),
                ) == "main"@ {
                    exists|i: int|
                        0 <= i < self.files@.len() && stem_spec(
                            file_name_spec((#[trigger] self.files@[i])@),
                        ) == "main"@ && *f == self.files@[i] && (forall|j: int|
                            0 <= j < i ==> stem_spec(
                                file_name_spec((#[trigger] self.files@[j])@),
                            ) != "main"@)
                } else {
                    *f == self.files@[0]
                }
            }),
    {
        let mut i: usize = 0;
        while i < self.files.len()
            invariant
                i <= self.files@.len(),
                forall|j: int| 0 <= j < i ==> stem_spec(
                    file_name_spec((#[trigger] self.files@[j])@),
                ) != "main"@,
            decreases self.files@.len() - i,
        {
            let name = file_name(self.files[i].as_str());
            let parts = split_name(name.as_str());
            if str_eq(parts.0.as_str(), "main") {
                proof {
                    assert(stem_spec(file_name_spec(self.files@[i as int]@)) == "main"@);
                }
                return Some(&self.files[i]);
            }
            i = i + 1;
        }
        if self.files.len() > 0 {
            Some(&self.files[0])
        } else {
            None
        }
    }

    /// The compiler the exercise's files call for: a C++ compiler as soon as
    /// any file has a C++ extension, a C compiler when only C files occur,
    /// nothing otherwise.
    pub fn compiler(&self) -> (r: Option<Compiler>)
        ensures
            r == (if wants_gxx(self.files@) {
                Some(Compiler::Gxx)
            } else if wants_gcc(self.files@) {
                Some(Compiler::Gcc)
            } else {
                None::<Compiler>
            }),
    {
        let mut compiler: Option<Compiler> = None;
        let mut i: usize = 0;
        while i < self.files.len()
            invariant
                i <= self.files@.len(),
                forall|j: int| 0 <= j < i ==> !(ext_is((#[trigger] self.files@[j])@, "cpp"@)
                    || ext_is(self.files@[j]@, "cc"@)),
                compiler is Some ==> compiler == Some(Compiler::Gcc),
                compiler == Some(Compiler::Gcc) <==> exists|j: int|
                    0 <= j < i && ext_is((#[trigger] self.files@[j])@, "c"@),
            decreases self.files@.len() - i,
        {
            let name = file_name(self.files[i].as_str());
            let parts = split_name(name.as_str());
            let ext_cpp;
            let ext_cc;
            let ext_c;
            match &parts.1 {
                Some(e) => {
                    ext_cpp = str_eq(e.as_str(), "cpp");
                    ext_cc = str_eq(e.as_str(), "cc");
                    ext_c = str_eq(e.as_str(), "c");
                },
                None => {
                    ext_cpp = false;
                    ext_cc = false;
                    ext_c = false;
                },
            }
            proof {
                assert(ext_cpp == ext_is(self.files@[i as int]@, "cpp"@));
                assert(ext_cc == ext_is(self.files@[i as int]@, "cc"@));
                assert(ext_c == ext_is(self.files@[i as int]@, "c"@));
            }
            if ext_cpp || ext_cc {
                proof {
                    assert(wants_gxx(self.files@));
                }
                return Some(Compiler::Gxx);
            } else if ext_c {
                compiler = Some(Compiler::Gcc);
            }
            i = i + 1;
        }
        proof {
            if wants_gxx(self.files@) {
                let j = choose|j: int|
                    0 <= j < self.files@.len() && (ext_is((#[trigger] self.files@[j])@, "cpp"@)
                        || ext_is(self.files@[j]@, "cc"@));
                assert(false);
            }
        }
        compiler
    }

    /// Assemble an exercise from the outcome of reading its directory: the
    /// parsed description, the persisted state if any, and the directory
    /// listing. Fails without warnings when the description is missing,
    /// the listing failed, or no exercise file is present.
    pub fn from_dir_parts(
        folder: String,
        info: Result<ExoInfo, ParseError>,
        state: Option<ExoStateInfo>,
        dir_files: Result<Vec<String>, String>,
    ) -> (r: Result<(Exo, Vec<ParseWarning>), (ParseError, Vec<ParseWarning>)>)
        ensures
            info matches Err(e) ==> (r matches Err(p) && p.0 == e && p.1@.len() == 0),
            info is Ok ==> (dir_files matches Err(m) ==> (r matches Err(p) && p.0
                matches ParseError::FileDiscoveryFailed(d) && d == m && p.1@.len() == 0)),
            info matches Ok(ei) ==> dir_files matches Ok(df) ==> ({
                let exos = exo_files_of(df@);
                let sols = solution_files_of(df@);
                if exos.len() == 0 {
                    r matches Err(p) && p.0 matches ParseError::NoExoFilesFound(f) && f == folder
                        && p.1@.len() == 0
                } else {
                    r matches Ok(ok) && ok.0.name == ei.name && ok.0.instruction == ei.instruction
                        && ok.0.checks@ == ei.checks@ && ok.0.files@ == exos && ok.0.solutions@
                        == sols && ok.0.folder == folder && ok.0.state == (match state {
                        Some(s) => s.state,
                        None => ExoState::Todo,
                    }) && ok.0.favorite == (match state {
                        Some(s) => s.favorite,
                        None => false,
                    }) && warning_views(ok.1@) == (if sols.len() == 0 {
                        seq![ParseWarningView::NoSolutionFile(no_solution_msg(folder@))]
                    } else {
                        Seq::<ParseWarningView>::empty()
                    }) + all_solution_warning_views(exos, sols)
                }
            }),
    {
        let ei = match info {
            Ok(ei) => ei,
            Err(e) => {
                return Err((e, Vec::new()));
            },
        };
        let df = match dir_files {
            Ok(df) => df,
            Err(m) => {
                return Err((ParseError::FileDiscoveryFailed(m), Vec::new()));
            },
        };
        let (exo_files, solution_files) = Exo::find_exo_and_solution_files(df);
        if exo_files.len() == 0 {
            return Err((ParseError::NoExoFilesFound(folder), Vec::new()));
        }
        let mut warnings: Vec<ParseWarning> = Vec::new();
        if solution_files.len() == 0 {
            let mut msg = String::from_str("No solution found in ");
            let q = quoted_str(folder.as_str());
            msg.append(q.as_str());
            warnings.push(ParseWarning::NoSolutionFile(msg));
        }
        let ghost header = warnings@;
        Exo::check_exo_solutions(&exo_files, &solution_files, &mut warnings);
        proof {
            assert(warnings@.take(header.len() as int) == header);
            assert(warnings@ =~= header + warnings@.skip(header.len() as int));
            let f = |w: ParseWarning| w@;
            assert(warning_views(warnings@) =~= warning_views(header) + warning_views(
                warnings@.skip(header.len() as int),
            ));
            if solution_files@.len() == 0 {
                assert(warning_views(header) =~= seq![
                    ParseWarningView::NoSolutionFile(no_solution_msg(folder@)),
                ]);
            } else {
                assert(warning_views(header) =~= Seq::<ParseWarningView>::empty());
            }
        }
        let st = match state {
            Some(s) => s,
            None => ExoStateInfo { state: ExoState::Todo, favorite: false },
        };
        Ok(
            (
                Exo {
                    name: ei.name,
                    instruction: ei.instruction,
                    state: st.state,
                    files: exo_files,
                    solutions: solution_files,
                    checks: ei.checks,
                    favorite: st.favorite,
                    folder,
                },
                warnings,
            ),
        )
    }
}

/// Some file of the listing has a C++ extension.
pub open spec fn wants_gxx(files: Seq<String>) -> bool {
    exists|i: int| 0 <= i < files.len() && (ext_is((#[trigger] files[i])@, "cpp"@) || ext_is(
        files[i]@,
        "cc"@,
    ))
}

/// Some file of the listing has a C extension.
pub open spec fn wants_gcc(files: Seq<String>) -> bool {
    exists|i: int| 0 <= i < files.len() && ext_is((#[trigger] files[i])@, "c"@)
}

/// The file's name carries exactly the extension `e`.
pub open spec fn ext_is(p: Seq<char>, e: Seq<char>) -> bool {
    ext_spec(file_name_spec(p)) == Some(e)
}

/// The solution file of `exo` at `solution_idx`, if the index is in range.
pub fn get_solution_file(exo: &Exo, solution_idx: usize) -> (r: Result<String, ()>)
    ensures
        r is Ok <==> solution_idx < exo.solutions@.len(),
        r matches Ok(f) ==> f == exo.solutions@[solution_idx as int],
{
    if solution_idx >= exo.solutions.len() {
        return Err(());
    }
    Ok(exo.solutions[solution_idx].clone())
}

} // verus!
