//! Reversible editing commands over a schedule: each action carries exactly
//! the snapshot it needs to invert itself, and the forward and reverse
//! transitions are stated as functions on schedule values.

use vstd::prelude::*;
use crate::program::{
    clone_program, cursor_after_add, cursor_after_insert, cursor_after_pop, cursor_after_remove,
    cursor_ok, Program, ProgramV, Source, SourceV,
};
use crate::schedule::{Schedule, ScheduleV};
use crate::editor::EdBuffer;

verus! {

/// The value of an action: the command kind and its reversal payload.
pub ghost enum ActionV {
    SetName { old: Seq<char>, new: Seq<char> },
    AddProgram { program: ProgramV },
    PopProgram { program: ProgramV, cur: Option<usize> },
    InsertProgram { program: ProgramV, index: usize },
    DeleteProgram { program: ProgramV, index: usize, cur: Option<usize> },
    SetSource { old: SourceV, new: SourceV, index: usize },
}

/// The schedule-level cursor invariant, as the actions rely on it.
pub open spec fn sched_cursor_ok(s: ScheduleV) -> bool {
    cursor_ok(s.current_program, s.programs.len())
}

// ---------------------------------------------------------------------------
// The forward and reverse transitions, as functions on schedule values.
// ---------------------------------------------------------------------------

/// Runs an action forward on a schedule value; `None` is the recoverable
/// failure (an index out of range), on which the schedule is unchanged.
pub open spec fn act_fwd(a: ActionV, s: ScheduleV) -> Option<ScheduleV> {
    match a {
        ActionV::SetName { old: _, new } => Some(ScheduleV { name: new, ..s }),
        ActionV::AddProgram { program } => Some(
            ScheduleV {
                programs: s.programs.push(program),
                current_program: cursor_after_add(s.current_program, s.programs.len()),
                ..s
            },
        ),
        ActionV::PopProgram { program: _, cur: _ } => Some(
            if s.programs.len() == 0 {
                s
            } else {
                ScheduleV {
                    programs: s.programs.drop_last(),
                    current_program: cursor_after_pop(
                        s.current_program,
                        (s.programs.len() - 1) as nat,
                    ),
                    ..s
                }
            },
        ),
        ActionV::InsertProgram { program, index } => if index < s.programs.len() {
            Some(
                ScheduleV {
                    programs: s.programs.insert(index as int, program),
                    current_program: cursor_after_insert(
                        s.current_program,
                        index as int,
                        s.programs.len(),
                    ),
                    ..s
                },
            )
        } else {
            None
        },
        ActionV::DeleteProgram { program: _, index, cur: _ } => if index < s.programs.len() {
            Some(
                ScheduleV {
                    programs: s.programs.remove(index as int),
                    current_program: cursor_after_remove(
                        s.current_program,
                        index as int,
                        (s.programs.len() - 1) as nat,
                    ),
                    ..s
                },
            )
        } else {
            None
        },
        ActionV::SetSource { old: _, new, index } => if index < s.programs.len() {
            Some(
                ScheduleV {
                    programs: s.programs.update(
                        index as int,
                        ProgramV { location: new, ..s.programs[index as int] },
                    ),
                    ..s
                },
            )
        } else {
            None
        },
    }
}

/// Runs an action's inverse on a schedule value; the pop and delete
/// commands restore the cursor from their snapshot.
pub open spec fn act_rev(a: ActionV, s: ScheduleV) -> Option<ScheduleV> {
    match a {
        ActionV::SetName { old, new: _ } => Some(ScheduleV { name: old, ..s }),
        ActionV::AddProgram { program: _ } => Some(
            if s.programs.len() == 0 {
                s
            } else {
                ScheduleV {
                    programs: s.programs.drop_last(),
                    current_program: cursor_after_pop(
                        s.current_program,
                        (s.programs.len() - 1) as nat,
                    ),
                    ..s
                }
            },
        ),
        ActionV::PopProgram { program, cur } => Some(
            ScheduleV { programs: s.programs.push(program), current_program: cur, ..s },
        ),
        ActionV::InsertProgram { program: _, index } => if index < s.programs.len() {
            Some(
                ScheduleV {
                    programs: s.programs.remove(index as int),
                    current_program: cursor_after_remove(
                        s.current_program,
                        index as int,
                        (s.programs.len() - 1) as nat,
                    ),
                    ..s
                },
            )
        } else {
            None
        },
        ActionV::DeleteProgram { program, index, cur } => if index <= s.programs.len() {
            Some(
                ScheduleV {
                    programs: s.programs.insert(index as int, program),
                    current_program: cur,
                    ..s
                },
            )
        } else {
            None
        },
        ActionV::SetSource { old, new: _, index } => if index < s.programs.len() {
            Some(
                ScheduleV {
                    programs: s.programs.update(
                        index as int,
                        ProgramV { location: old, ..s.programs[index as int] },
                    ),
                    ..s
                },
            )
        } else {
            None
        },
    }
}

/// An action is accurate for a schedule when its snapshot matches the
/// schedule it is applied to and the cursor invariant holds; the factories
/// construct only accurate actions.
pub open spec fn act_ok(a: ActionV, s: ScheduleV) -> bool {
    match a {
        ActionV::SetName { old, new: _ } => s.name == old,
        ActionV::AddProgram { program: _ } => sched_cursor_ok(s),
        ActionV::PopProgram { program, cur } => s.programs.len() > 0 && s.programs.last()
            == program && s.current_program == cur && sched_cursor_ok(s),
        ActionV::InsertProgram { program: _, index } => index < s.programs.len()
            && s.programs.len() < usize::MAX && sched_cursor_ok(s),
        ActionV::DeleteProgram { program, index, cur } => index < s.programs.len() && s.programs[
            index as int
        ] == program && s.current_program == cur && sched_cursor_ok(s),
        ActionV::SetSource { old, new: _, index } => index < s.programs.len() && s.programs[
            index as int
        ].location == old,
    }
}

/// An action is accurately reversible from a schedule when its snapshot
/// matches the state its forward run produced.
pub open spec fn rev_ok(a: ActionV, s: ScheduleV) -> bool {
    match a {
        ActionV::SetName { old: _, new } => s.name == new,
        ActionV::AddProgram { program } => s.programs.len() > 0 && s.programs.last() == program
            && sched_cursor_ok(s) && (s.current_program matches Some(c) && (s.programs.len() == 1
            || (c as int) + 1 < s.programs.len())),
        ActionV::PopProgram { program: _, cur } => (cur matches Some(c) && (c as int)
            <= s.programs.len()) && s.current_program == cursor_after_pop(
            cur,
            s.programs.len(),
        ),
        ActionV::InsertProgram { program, index } => (index as int) + 1 < s.programs.len()
            && s.programs.len() <= usize::MAX && s.programs[index as int] == program && (
        s.current_program matches Some(c) && (c as int) < s.programs.len() && c != index),
        ActionV::DeleteProgram { program: _, index, cur } => index <= s.programs.len() && (
        cur matches Some(c) && (c as int) <= s.programs.len()) && s.current_program
            == cursor_after_remove(cur, index as int, s.programs.len()),
        ActionV::SetSource { old: _, new, index } => index < s.programs.len() && s.programs[
            index as int
        ].location == new,
    }
}

/// Forward then reverse is the identity: an accurate action applies, is then
/// accurately reversible, and its reverse restores the starting schedule.
pub proof fn lemma_fwd_then_rev(a: ActionV, s: ScheduleV)
    requires
        act_ok(a, s),
    ensures
        act_fwd(a, s) is Some,
        rev_ok(a, act_fwd(a, s)->Some_0),
        act_rev(a, act_fwd(a, s)->Some_0) == Some(s),
{
    let t = act_fwd(a, s)->Some_0;
    match a {
        ActionV::SetName { old, new } => {
            assert(act_rev(a, t)->Some_0 =~~= s);
        },
        ActionV::AddProgram { program } => {
            assert(t.programs.drop_last() =~= s.programs);
            assert(act_rev(a, t)->Some_0 =~~= s);
        },
        ActionV::PopProgram { program, cur } => {
            assert(t.programs.push(program) =~= s.programs);
            assert(act_rev(a, t)->Some_0 =~~= s);
        },
        ActionV::InsertProgram { program, index } => {
            assert(t.programs.remove(index as int) =~= s.programs);
            assert(act_rev(a, t)->Some_0 =~~= s);
        },
        ActionV::DeleteProgram { program, index, cur } => {
            assert(t.programs.insert(index as int, program) =~= s.programs);
            assert(act_rev(a, t)->Some_0 =~~= s);
        },
        ActionV::SetSource { old, new, index } => {
            assert(t.programs.update(
                index as int,
                ProgramV { location: old, ..t.programs[index as int] },
            ) =~= s.programs);
            assert(act_rev(a, t)->Some_0 =~~= s);
        },
    }
}

/// Reverse then forward is the identity: an accurately reversible action
/// reverses, is then accurate again, and re-applying it restores the
/// schedule it was reversed from.
pub proof fn lemma_rev_then_fwd(a: ActionV, s: ScheduleV)
    requires
        rev_ok(a, s),
    ensures
        act_rev(a, s) is Some,
        act_ok(a, act_rev(a, s)->Some_0),
        act_fwd(a, act_rev(a, s)->Some_0) == Some(s),
{
    let u = act_rev(a, s)->Some_0;
    match a {
        ActionV::SetName { old, new } => {
            assert(act_fwd(a, u)->Some_0 =~~= s);
        },
        ActionV::AddProgram { program } => {
            assert(u.programs.push(program) =~= s.programs);
            assert(act_fwd(a, u)->Some_0 =~~= s);
        },
        ActionV::PopProgram { program, cur } => {
            assert(u.programs.drop_last() =~= s.programs);
            assert(act_fwd(a, u)->Some_0 =~~= s);
        },
        ActionV::InsertProgram { program, index } => {
            assert(u.programs.insert(index as int, program) =~= s.programs);
            assert(act_fwd(a, u)->Some_0 =~~= s);
        },
        ActionV::DeleteProgram { program, index, cur } => {
            assert(u.programs.remove(index as int) =~= s.programs);
            assert(act_fwd(a, u)->Some_0 =~~= s);
        },
        ActionV::SetSource { old, new, index } => {
            assert(u.programs.update(
                index as int,
                ProgramV { location: new, ..u.programs[index as int] },
            ) =~= s.programs);
            assert(act_fwd(a, u)->Some_0 =~~= s);
        },
    }
}

// ---------------------------------------------------------------------------
// The executable actions.
// ---------------------------------------------------------------------------

/// Renames the schedule; the payload keeps the old name.
pub struct SetName {
    old: String,
    new: String,
}

/// Appends a program; the payload keeps the program for the reversal check.
pub struct AddProgram {
    program: Program,
}

/// Removes the last program; the payload keeps it, and the cursor it was
/// removed under, for re-appending.
pub struct PopProgram {
    program: Program,
    cur: Option<usize>,
}

/// Inserts a program before an index.
pub struct InsertProgram {
    program: Program,
    index: usize,
}

/// Deletes the program at an index; the payload keeps it, and the cursor it
/// was removed under, for re-inserting.
pub struct DeleteProgram {
    program: Program,
    index: usize,
    cur: Option<usize>,
}

/// Changes the location of the program that was selected when the command
/// was built; the payload keeps both locations and that index.
pub struct SetSource {
    old: Source,
    new: Source,
    index: usize,
}

/// The closed set of reversible commands.
pub enum Action {
    SetName(SetName),
    AddProgram(AddProgram),
    PopProgram(PopProgram),
    InsertProgram(InsertProgram),
    DeleteProgram(DeleteProgram),
    SetSource(SetSource),
}

impl View for Action {
    type V = ActionV;

    closed spec fn view(&self) -> ActionV {
        match self {
            Action::SetName(x) => ActionV::SetName { old: x.old@, new: x.new@ },
            Action::AddProgram(x) => ActionV::AddProgram { program: x.program@ },
            Action::PopProgram(x) => ActionV::PopProgram { program: x.program@, cur: x.cur },
            Action::InsertProgram(x) => ActionV::InsertProgram {
                program: x.program@,
                index: x.index,
            },
            Action::DeleteProgram(x) => ActionV::DeleteProgram {
                program: x.program@,
                index: x.index,
                cur: x.cur,
            },
            Action::SetSource(x) => ActionV::SetSource {
                old: x.old@,
                new: x.new@,
                index: x.index,
            },
        }
    }
}

impl SetName {
    /// Builds the rename command, snapshotting the buffer's current name.
    pub fn new(buffer: &EdBuffer, novo: &str) -> (a: Action)
        ensures
            a@ == (ActionV::SetName { old: buffer@.schedule.name, new: novo@ }),
            act_ok(a@, buffer@.schedule),
    {
        Action::SetName(
            SetName { old: buffer.get_name(), new: String::from_str(novo) },
        )
    }
}

impl AddProgram {
    /// Builds the append command for a copy of `prog`.
    pub fn new(prog: &Program) -> (a: Action)
        ensures
            a@ == (ActionV::AddProgram { program: prog@ }),
    {
        Action::AddProgram(AddProgram { program: clone_program(prog) })
    }
}

impl PopProgram {
    /// Builds the remove-last command, snapshotting the removed program and
    /// the cursor; an empty schedule is refused.
    pub fn new(buffer: &EdBuffer) -> (r: Result<Action, String>)
        ensures
            match r {
                Ok(a) => buffer@.schedule.programs.len() > 0 && a@ == (ActionV::PopProgram {
                    program: buffer@.schedule.programs.last(),
                    cur: buffer@.schedule.current_program,
                }) && (sched_cursor_ok(buffer@.schedule) ==> act_ok(a@, buffer@.schedule)),
                Err(_) => buffer@.schedule.programs.len() == 0,
            },
    {
        match buffer.last_program() {
            Some(p) => {
                let program = clone_program(p);
                let cur = buffer.get_current_program_idx();
                Ok(Action::PopProgram(PopProgram { program, cur }))
            },
            None => Err(String::from_str("Can not pop an empty program")),
        }
    }
}

impl InsertProgram {
    /// Builds the insert command; the index is validated when it applies.
    pub fn new(prog: &Program, idx: usize) -> (a: Action)
        ensures
            a@ == (ActionV::InsertProgram { program: prog@, index: idx }),
    {
        Action::InsertProgram(InsertProgram { program: clone_program(prog), index: idx })
    }
}

impl DeleteProgram {
    /// Builds the delete command, snapshotting the program at `idx` and the
    /// cursor; an out-of-range index is refused.
    pub fn new(buffer: &EdBuffer, idx: usize) -> (r: Result<Action, String>)
        ensures
            match r {
                Ok(a) => (idx as int) < buffer@.schedule.programs.len() && a@ == (
                ActionV::DeleteProgram {
                    program: buffer@.schedule.programs[idx as int],
                    index: idx,
                    cur: buffer@.schedule.current_program,
                }) && (sched_cursor_ok(buffer@.schedule) ==> act_ok(a@, buffer@.schedule)),
                Err(_) => (idx as int) >= buffer@.schedule.programs.len(),
            },
    {
        match buffer.get_program_at(idx) {
            Some(p) => {
                let program = clone_program(p);
                let cur = buffer.get_current_program_idx();
                Ok(Action::DeleteProgram(DeleteProgram { program, index: idx, cur }))
            },
            None => Err(String::from_str("Can not delete program because it does not exist")),
        }
    }
}

impl SetSource {
    /// Builds the relocate command against the currently selected program;
    /// with no selection it is refused.
    pub fn new(buffer: &EdBuffer, novo: &Source) -> (r: Result<Action, String>)
        ensures
            match r {
                Ok(a) => buffer@.schedule.current_program matches Some(c) && (c as int)
                    < buffer@.schedule.programs.len() && a@ == (ActionV::SetSource {
                    old: buffer@.schedule.programs[c as int].location,
                    new: novo@,
                    index: c,
                }) && act_ok(a@, buffer@.schedule),
                Err(_) => !(buffer@.schedule.current_program matches Some(c) && (c as int)
                    < buffer@.schedule.programs.len()),
            },
    {
        match buffer.get_program() {
            Some(prog) => {
                let idx = match buffer.get_current_program_idx() {
                    Some(c) => c,
                    None => {
                        proof {
                            assert(false);
                        }
                        0
                    },
                };
                Ok(
                    Action::SetSource(
                        SetSource {
                            old: prog.get_location().clone(),
                            new: novo.clone(),
                            index: idx,
                        },
                    ),
                )
            },
            None => Err(String::from_str("No selected program")),
        }
    }
}

impl Action {
    /// Runs the action forward on a schedule, exactly as `act_fwd` says;
    /// on failure the schedule is unchanged.
    pub fn apply_to(&self, sched: &mut Schedule) -> (r: Result<(), String>)
        ensures
            match act_fwd(self@, old(sched)@) {
                Some(t) => r is Ok && final (sched)@ == t,
                None => r is Err && final (sched)@ == old(sched)@,
            },
    {
        match self {
            Action::SetName(x) => {
                sched.set_name(x.new.as_str());
                Ok(())
            },
            Action::AddProgram(x) => {
                sched.add_program(&x.program);
                Ok(())
            },
            Action::PopProgram(_x) => {
                let _ = sched.pop_program();
                Ok(())
            },
            Action::InsertProgram(x) => sched.insert_program(x.index, &x.program),
            Action::DeleteProgram(x) => sched.delete_program(x.index),
            Action::SetSource(x) => sched.set_location_at(x.index, &x.new),
        }
    }

    /// Runs the action's inverse on a schedule, exactly as `act_rev` says.
    /// The action must be accurately reversible from this state: a history
    /// broken by edits around the action API is unrecoverable here.
    pub fn reverse_on(&self, sched: &mut Schedule) -> (r: Result<(), String>)
        requires
            rev_ok(self@, old(sched)@),
        ensures
            r is Ok,
            Some(final (sched)@) == act_rev(self@, old(sched)@),
    {
        match self {
            Action::SetName(x) => {
                sched.set_name(x.old.as_str());
                Ok(())
            },
            Action::AddProgram(_x) => {
                let _ = sched.pop_program();
                Ok(())
            },
            Action::PopProgram(x) => {
                sched.add_program(&x.program);
                sched.restore_cursor(x.cur);
                proof {
                    assert(sched@ =~~= act_rev(self@, old(sched)@)->Some_0);
                }
                Ok(())
            },
            Action::InsertProgram(x) => {
                match sched.delete_program(x.index) {
                    Ok(_) => Ok(()),
                    Err(_) => {
                        proof {
                            assert(false);
                        }
                        Ok(())
                    },
                }
            },
            Action::DeleteProgram(x) => {
                if x.index == sched.programs_len() {
                    sched.add_program(&x.program);
                } else {
                    match sched.insert_program(x.index, &x.program) {
                        Ok(_) => {},
                        Err(_) => {
                            proof {
                                assert(false);
                            }
                        },
                    }
                }
                sched.restore_cursor(x.cur);
                proof {
                    assert(old(sched)@.programs.insert(
                        x.index as int,
                        x.program@,
                    ) =~= sched@.programs);
                    assert(sched@ =~~= act_rev(self@, old(sched)@)->Some_0);
                }
                Ok(())
            },
            Action::SetSource(x) => {
                match sched.set_location_at(x.index, &x.old) {
                    Ok(_) => Ok(()),
                    Err(_) => {
                        proof {
                            assert(false);
                        }
                        Ok(())
                    },
                }
            },
        }
    }
}

} // verus!
