//! The project model: skills, their exercises, and the cursor that tracks
//! the current exercise. Navigation moves the cursor and reports whether the
//! cursor state must be persisted; reading and writing the state files
//! happens outside the library.

use vstd::prelude::*;
use crate::exo::{quoted, warning_views, Exo, ExoState, ExoStateInfo, ParseError, ParseWarning,
    ParseWarningView};

verus! {

/// A skill: a named group of exercises read from one folder.
#[derive(Debug, Clone, PartialEq, Eq)]
pub struct Skill {
    pub name: String,
    pub path: String,
    pub exos: Vec<Exo>,
}

/// The persisted cursor: which skill and which exercise are current.
#[derive(Debug, Clone, Copy, PartialEq, Eq, Structural)]
pub struct ProjectState {
    pub curr_skill_idx: usize,
    pub curr_exo_idx: usize,
}

/// The project description read from the course metadata file.
#[derive(Debug, Clone, PartialEq, Eq)]
pub struct ProjectInfo {
    pub name: String,
    pub skill_folders: Vec<String>,
}

/// A course: its skills and the cursor over them.
#[derive(Debug, Clone, PartialEq, Eq)]
pub struct Project {
    pub name: String,
    pub skills: Vec<Skill>,
    pub state: ProjectState,
    pub folder: String,
}

impl Project {
    /// The cursor points at an existing exercise.
    pub open spec fn state_in_bounds(self) -> bool {
        self.state.curr_skill_idx < self.skills@.len()
            && self.state.curr_exo_idx
            < self.skills@[self.state.curr_skill_idx as int].exos@.len()
    }

    /// A navigable project: at least one skill, no empty skill, and a valid
    /// cursor.
    pub open spec fn wf(self) -> bool {
        &&& self.skills@.len() > 0
        &&& forall|i: int| 0 <= i < self.skills@.len() ==> (#[trigger] self.skills@[i]).exos@.len()
            > 0
        &&& self.state_in_bounds()
    }

    /// The exercise the persisted cursor points at, if it still exists;
    /// moving or deleting folders between runs can leave the cursor out of
    /// range.
    pub fn resume(&self) -> (r: Option<&Exo>)
        ensures
            r is Some <==> self.state_in_bounds(),
            r matches Some(e) ==> *e == self.skills@[self.state.curr_skill_idx as int]
                .exos@[self.state.curr_exo_idx as int],
    {
        if self.state.curr_skill_idx < self.skills.len()
            && self.state.curr_exo_idx < self.skills[self.state.curr_skill_idx].exos.len() {
            return Some(&self.skills[self.state.curr_skill_idx].exos[self.state.curr_exo_idx]);
        }
        None
    }

    /// The exercise the cursor points at.
    pub fn current_exo(&self) -> (r: &Exo)
        requires
            self.state_in_bounds(),
        ensures
            *r == self.skills@[self.state.curr_skill_idx as int]
                .exos@[self.state.curr_exo_idx as int],
    {
        &self.skills[self.state.curr_skill_idx].exos[self.state.curr_exo_idx]
    }

    pub fn is_first_skill(&self) -> (r: bool)
        ensures
            r == (self.state.curr_skill_idx == 0),
    {
        self.state.curr_skill_idx == 0
    }

    pub fn is_first_exo(&self) -> (r: bool)
        ensures
            r == (self.state.curr_exo_idx == 0),
    {
        self.state.curr_exo_idx == 0
    }

    pub fn is_last_skill(&self) -> (r: bool)
        requires
            self.skills@.len() > 0,
        ensures
            r == (self.state.curr_skill_idx == self.skills@.len() - 1),
    {
        self.state.curr_skill_idx == self.skills.len() - 1
    }

    pub fn is_last_exo(&self) -> (r: bool)
        requires
            self.state_in_bounds(),
        ensures
            r == (self.state.curr_exo_idx == self.skills@[self.state.curr_skill_idx as int]
                .exos@.len() - 1),
    {
        self.state.curr_exo_idx == self.skills[self.state.curr_skill_idx].exos.len() - 1
    }

    /// Move the cursor to exercise `i`. Returns whether the cursor changed,
    /// which is exactly when the caller must persist the project state.
    pub fn set_curr_exo(&mut self, i: usize) -> (saved: bool)
        ensures
            final(self).state.curr_exo_idx == i,
            final(self).state.curr_skill_idx == old(self).state.curr_skill_idx,
            final(self).name == old(self).name,
            final(self).skills == old(self).skills,
            final(self).folder == old(self).folder,
            saved == (old(self).state.curr_exo_idx != i),
    {
        if self.state.curr_exo_idx != i {
            self.state.curr_exo_idx = i;
            true
        } else {
            false
        }
    }

    /// Move the cursor to skill `i`. Returns whether the cursor changed,
    /// which is exactly when the caller must persist the project state.
    pub fn set_curr_skill(&mut self, i: usize) -> (saved: bool)
        ensures
            final(self).state.curr_skill_idx == i,
            final(self).state.curr_exo_idx == old(self).state.curr_exo_idx,
            final(self).name == old(self).name,
            final(self).skills == old(self).skills,
            final(self).folder == old(self).folder,
            saved == (old(self).state.curr_skill_idx != i),
    {
        if self.state.curr_skill_idx != i {
            self.state.curr_skill_idx = i;
            true
        } else {
            false
        }
    }

    /// Move to the previous exercise; at the first exercise of a skill,
    /// `wrap` moves to the last exercise of the previous skill (or of the
    /// last skill). Returns whether the persisted cursor changed.
    pub fn prev_exo(&mut self, wrap: bool) -> (saved: bool)
        requires
            old(self).wf(),
        ensures
            final(self).wf(),
            final(self).name == old(self).name,
            final(self).skills == old(self).skills,
            final(self).folder == old(self).folder,
            old(self).state.curr_exo_idx != 0 ==> (final(self).state.curr_skill_idx == old(self)
                .state.curr_skill_idx && final(self).state.curr_exo_idx == old(self)
                .state.curr_exo_idx - 1 && saved == false),
            old(self).state.curr_exo_idx == 0 && !wrap ==> (final(self).state == old(self).state
                && saved == false),
            old(self).state.curr_exo_idx == 0 && wrap ==> ({
                let ns = if old(self).state.curr_skill_idx != 0 {
                    old(self).state.curr_skill_idx - 1
                } else {
                    old(self).skills@.len() - 1
                };
                let ne = old(self).skills@[ns].exos@.len() - 1;
                final(self).state.curr_skill_idx == ns && final(self).state.curr_exo_idx == ne
                    && saved == (ns != old(self).state.curr_skill_idx || ne != 0)
            }),
    {
        if !self.is_first_exo() {
            self.state.curr_exo_idx = self.state.curr_exo_idx - 1;
            false
        } else if wrap {
            let saved_skill;
            if !self.is_first_skill() {
                saved_skill = self.set_curr_skill(self.state.curr_skill_idx - 1);
            } else {
                saved_skill = self.set_curr_skill(self.skills.len() - 1);
            }
            let last = self.skills[self.state.curr_skill_idx].exos.len() - 1;
            let saved_exo = self.set_curr_exo(last);
            saved_skill || saved_exo
        } else {
            false
        }
    }

    /// Move to the previous skill (wrapping to the last one if `wrap` is
    /// set) and to its first exercise. Returns whether the persisted cursor
    /// changed.
    pub fn prev_skill(&mut self, wrap: bool) -> (saved: bool)
        requires
            old(self).wf(),
        ensures
            final(self).wf(),
            final(self).name == old(self).name,
            final(self).skills == old(self).skills,
            final(self).folder == old(self).folder,
            final(self).state.curr_exo_idx == 0,
            ({
                let ns = if old(self).state.curr_skill_idx != 0 {
                    old(self).state.curr_skill_idx - 1
                } else if wrap {
                    old(self).skills@.len() - 1
                } else {
                    0
                };
                final(self).state.curr_skill_idx == ns && saved == (ns != old(self)
                    .state.curr_skill_idx || old(self).state.curr_exo_idx != 0)
            }),
    {
        let saved_skill;
        if self.is_first_skill() {
            if wrap {
                saved_skill = self.set_curr_skill(self.skills.len() - 1);
            } else {
                saved_skill = false;
            }
        } else {
            saved_skill = self.set_curr_skill(self.state.curr_skill_idx - 1);
        }
        let saved_exo = self.set_curr_exo(0);
        saved_skill || saved_exo
    }

    /// Move to the next exercise; at the last exercise of a skill, `wrap`
    /// moves to the first exercise of the next skill (or of the first
    /// skill). Returns whether the persisted cursor changed.
    pub fn next_exo(&mut self, wrap: bool) -> (saved: bool)
        requires
            old(self).wf(),
        ensures
            final(self).wf(),
            final(self).name == old(self).name,
            final(self).skills == old(self).skills,
            final(self).folder == old(self).folder,
            ({
                let last = old(self).skills@[old(self).state.curr_skill_idx as int].exos@.len()
                    - 1;
                &&& (old(self).state.curr_exo_idx != last ==> (final(self).state.curr_skill_idx
                    == old(self).state.curr_skill_idx && final(self).state.curr_exo_idx == old(
                    self,
                ).state.curr_exo_idx + 1 && saved == false))
                &&& (old(self).state.curr_exo_idx == last && !wrap ==> (final(self).state == old(
                    self,
                ).state && saved == false))
                &&& (old(self).state.curr_exo_idx == last && wrap ==> ({
                    let ns = if old(self).state.curr_skill_idx != old(self).skills@.len() - 1 {
                        old(self).state.curr_skill_idx + 1
                    } else {
                        0int
                    };
                    final(self).state.curr_skill_idx == ns && final(self).state.curr_exo_idx == 0
                        && saved == (last != 0 || ns != old(self).state.curr_skill_idx)
                }))
            }),
    {
        // Reading the lengths binds them to machine integers, which bounds
        // the index arithmetic below.
        let _exo_count = self.skills[self.state.curr_skill_idx].exos.len();
        let _skill_count = self.skills.len();
        if !self.is_last_exo() {
            self.state.curr_exo_idx = self.state.curr_exo_idx + 1;
            false
        } else if wrap {
            let saved_exo = self.set_curr_exo(0);
            let saved_skill;
            if !self.is_last_skill() {
                saved_skill = self.set_curr_skill(self.state.curr_skill_idx + 1);
            } else {
                saved_skill = self.set_curr_skill(0);
            }
            saved_exo || saved_skill
        } else {
            false
        }
    }

    /// Move to the next skill (wrapping to the first one if `wrap` is set)
    /// and to its first exercise. Returns whether the persisted cursor
    /// changed.
    pub fn next_skill(&mut self, wrap: bool) -> (saved: bool)
        requires
            old(self).wf(),
        ensures
            final(self).wf(),
            final(self).name == old(self).name,
            final(self).skills == old(self).skills,
            final(self).folder == old(self).folder,
            final(self).state.curr_exo_idx == 0,
            ({
                let ns = if old(self).state.curr_skill_idx != old(self).skills@.len() - 1 {
                    old(self).state.curr_skill_idx + 1
                } else if wrap {
                    0int
                } else {
                    old(self).state.curr_skill_idx as int
                };
                final(self).state.curr_skill_idx == ns && saved == (ns != old(self)
                    .state.curr_skill_idx || old(self).state.curr_exo_idx != 0)
            }),
    {
        // Reading the length binds it to a machine integer, which bounds
        // the index arithmetic below.
        let _skill_count = self.skills.len();
        let saved_skill;
        if !self.is_last_skill() {
            saved_skill = self.set_curr_skill(self.state.curr_skill_idx + 1);
        } else if wrap {
            saved_skill = self.set_curr_skill(0);
        } else {
            saved_skill = false;
        }
        let saved_exo = self.set_curr_exo(0);
        saved_skill || saved_exo
    }

    /// Record a new progress state in an exercise's persisted state record;
    /// the caller writes the record back to the exercise's state file.
    pub fn set_exo_state(info: &mut ExoStateInfo, state: ExoState)
        ensures
            final(info).state == state,
            final(info).favorite == old(info).favorite,
    {
        info.state = state;
    }

    /// Record whether an exercise is a favorite in its persisted state
    /// record; the caller writes the record back to the exercise's state
    /// file.
    pub fn set_exo_favorite(info: &mut ExoStateInfo, is_favorite: bool)
        ensures
            final(info).favorite == is_favorite,
            final(info).state == old(info).state,
    {
        info.favorite = is_favorite;
    }
}

/// The outcome of reading one skill folder: the folder that was tried and
/// either the parsed skill with its warnings, or the rendering of the error.
pub struct SkillOutcome {
    pub folder: String,
    pub result: Result<(Skill, Vec<ParseWarning>), String>,
}

/// Message of the warning for a skill folder that could not be parsed.
pub open spec fn skill_fail_msg(folder: Seq<char>, err: Seq<char>) -> Seq<char> {
    "Couldn't parse skill in "@ + quoted(folder) + ": "@ + err
}

/// Message of the error for a project without one parsable skill folder.
pub open spec fn no_skills_msg(folder: Seq<char>) -> Seq<char> {
    "Couldn't parse any skill folders in "@ + quoted(folder)
}

/// The skills of the outcomes that parsed, in order.
pub open spec fn collected_skills(outs: Seq<SkillOutcome>) -> Seq<Skill>
    decreases outs.len(),
{
    if outs.len() == 0 {
        Seq::empty()
    } else {
        collected_skills(outs.drop_last()) + (match outs.last().result {
            Ok(p) => seq![p.0],
            Err(_) => Seq::<Skill>::empty(),
        })
    }
}

/// The warnings the outcomes contribute, in order: a parsed skill hands its
/// own warnings on, a failed folder becomes one `ParseSkillFail` warning.
pub open spec fn collected_warning_views(outs: Seq<SkillOutcome>) -> Seq<ParseWarningView>
    decreases outs.len(),
{
    if outs.len() == 0 {
        Seq::empty()
    } else {
        collected_warning_views(outs.drop_last()) + (match outs.last().result {
            Ok(p) => warning_views(p.1@),
            Err(m) => seq![
                ParseWarningView::ParseSkillFail(skill_fail_msg(outs.last().folder@, m@)),
            ],
        })
    }
}

impl Project {
    /// Assemble a project from the outcome of reading its directory: the
    /// parsed course description, the persisted cursor if any, and the
    /// outcome of reading each listed skill folder. Folders that failed to
    /// parse become warnings; a project with no parsable skill at all is an
    /// error.
    pub fn from_dir_parts(
        folder: String,
        info: Result<ProjectInfo, ParseError>,
        state: Option<ProjectState>,
        skill_results: Vec<SkillOutcome>,
    ) -> (r: Result<(Project, Vec<ParseWarning>), (ParseError, Vec<ParseWarning>)>)
        ensures
            info matches Err(e) ==> (r matches Err(p) && p.0 == e && p.1@.len() == 0),
            info matches Ok(pi) ==> ({
                let skills = collected_skills(skill_results@);
                let wviews = collected_warning_views(skill_results@);
                if skills.len() == 0 {
                    r matches Err(p) && p.0 matches ParseError::ErrorParsingSkills(m) && m@
                        == no_skills_msg(folder@) && warning_views(p.1@) == wviews
                } else {
                    r matches Ok(ok) && ok.0.name == pi.name && ok.0.skills@ == skills
                        && ok.0.folder == folder && ok.0.state == (match state {
                        Some(s) => s,
                        None => (ProjectState { curr_skill_idx: 0, curr_exo_idx: 0 }),
                    }) && warning_views(ok.1@) == wviews
                }
            }),
    {
        let pi = match info {
            Ok(pi) => pi,
            Err(e) => {
                return Err((e, Vec::new()));
            },
        };
        let ghost all = skill_results@;
        let mut outs = skill_results;
        let total = outs.len();
        let mut skills: Vec<Skill> = Vec::new();
        let mut warnings: Vec<ParseWarning> = Vec::new();
        let mut i: usize = 0;
        proof {
            assert(all.take(0) =~= Seq::<SkillOutcome>::empty());
            assert(all.skip(0) =~= all);
            assert(warning_views(warnings@) =~= collected_warning_views(all.take(0)));
            assert(skills@ =~= collected_skills(all.take(0)));
        }
        while outs.len() > 0
            invariant
                all.len() == total,
                i + outs@.len() == all.len(),
                outs@ == all.skip(i as int),
                skills@ == collected_skills(all.take(i as int)),
                warning_views(warnings@) == collected_warning_views(all.take(i as int)),
            decreases outs@.len(),
        {
            let o = outs.remove(0);
            let ghost prev_warnings = warnings@;
            proof {
                assert(o == all[i as int]);
                assert(all.skip(i as int).remove(0) =~= all.skip(i as int + 1));
                assert(all.take(i + 1).drop_last() =~= all.take(i as int));
                assert(all.take(i + 1).last() == all[i as int]);
            }
            match o.result {
                Ok(pair) => {
                    let (sk, mut ws) = pair;
                    skills.push(sk);
                    proof {
                        assert(skills@ =~= collected_skills(all.take(i as int)) + seq![sk]);
                    }
                    let ghost ws_snapshot = ws@;
                    warnings.append(&mut ws);
                    proof {
                        let f = |w: ParseWarning| w@;
                        assert(warnings@ == prev_warnings + ws_snapshot);
                        assert forall|k: int| 0 <= k < warnings@.len() implies warnings@.map_values(
                            f,
                        )[k] == (prev_warnings.map_values(f) + ws_snapshot.map_values(f))[k] by {
                            if k < prev_warnings.len() {
                                assert(warnings@[k] == prev_warnings[k]);
                            } else {
                                assert(warnings@[k] == ws_snapshot[k - prev_warnings.len()]);
                            }
                        }
                        assert(warnings@.map_values(f) =~= prev_warnings.map_values(f)
                            + ws_snapshot.map_values(f));
                        assert(warning_views(warnings@) =~= collected_warning_views(
                            all.take(i + 1),
                        ));
                    }
                },
                Err(m) => {
                    let mut msg = String::from_str("Couldn't parse skill in ");
                    let q = crate::exo::quoted_str(o.folder.as_str());
                    msg.append(q.as_str());
                    msg.append(": ");
                    msg.append(m.as_str());
                    proof {
                        assert(msg@ == skill_fail_msg(all[i as int].folder@, m@));
                    }
                    warnings.push(ParseWarning::ParseSkillFail(msg));
                    proof {
                        let f = |w: ParseWarning| w@;
                        assert(warnings@.map_values(f) =~= prev_warnings.map_values(f) + seq![
                            ParseWarningView::ParseSkillFail(
                                skill_fail_msg(all[i as int].folder@, m@),
                            ),
                        ]);
                        assert(warning_views(warnings@) =~= collected_warning_views(
                            all.take(i + 1),
                        ));
                    }
                },
            }
            i = i + 1;
        }
        proof {
            assert(all.take(all.len() as int) =~= all);
        }
        if skills.len() == 0 {
            let mut msg = String::from_str("Couldn't parse any skill folders in ");
            let q = crate::exo::quoted_str(folder.as_str());
            msg.append(q.as_str());
            return Err((ParseError::ErrorParsingSkills(msg), warnings));
        }
        let st = match state {
            Some(s) => s,
            None => ProjectState { curr_skill_idx: 0, curr_exo_idx: 0 },
        };
        Ok((Project { name: pi.name, skills, state: st, folder }, warnings))
    }
}

} // verus!
