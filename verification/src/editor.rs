//! The editable session: one schedule, an optional file path, and the undo
//! and redo stacks, with every mutation routed through reversible actions.

use vstd::prelude::*;
use crate::action::{
    act_fwd, act_ok, act_rev, lemma_fwd_then_rev, lemma_rev_then_fwd, rev_ok, Action, ActionV,
};
use crate::program::Program;
use crate::schedule::{Schedule, ScheduleV};

verus! {

/// The value of an editing session.
pub ghost struct EdBufferV {
    pub schedule: ScheduleV,
    pub path: Option<Seq<char>>,
    pub undo_list: Seq<ActionV>,
    pub redo_list: Seq<ActionV>,
    pub modified: bool,
}

pub struct EdBuffer {
    schedule: Schedule,
    filepath: Option<String>,
    undo_buffer: Vec<Action>,
    redo_buffer: Vec<Action>,
    modified: bool,
}

pub open spec fn acts_view(v: Seq<Action>) -> Seq<ActionV>
    decreases v,
{
    if v.len() == 0 {
        Seq::empty()
    } else {
        acts_view(v.drop_last()).push(v.last()@)
    }
}

pub broadcast proof fn lemma_acts_view_len(v: Seq<Action>)
    ensures
        #[trigger] acts_view(v).len() == v.len(),
    decreases v,
{
    if v.len() > 0 {
        lemma_acts_view_len(v.drop_last());
    }
}

pub broadcast proof fn lemma_acts_view_push(v: Seq<Action>, x: Action)
    ensures
        #[trigger] acts_view(v.push(x)) == acts_view(v).push(x@),
{
    assert(v.push(x).drop_last() =~= v);
}

pub broadcast proof fn lemma_acts_view_drop_last(v: Seq<Action>)
    requires
        v.len() > 0,
    ensures
        #[trigger] acts_view(v.drop_last()) == acts_view(v).drop_last(),
{
    lemma_acts_view_len(v);
    lemma_acts_view_len(v.drop_last());
    assert(acts_view(v).drop_last() =~= acts_view(v.drop_last()));
}

impl View for EdBuffer {
    type V = EdBufferV;

    closed spec fn view(&self) -> EdBufferV {
        EdBufferV {
            schedule: self.schedule@,
            path: match self.filepath {
                Some(ref p) => Some(p@),
                None => None,
            },
            undo_list: acts_view(self.undo_buffer@),
            redo_list: acts_view(self.redo_buffer@),
            modified: self.modified,
        }
    }
}

// ---------------------------------------------------------------------------
// History consistency: what makes undo and redo safe and exact.
// ---------------------------------------------------------------------------

/// Every entry of the undo stack, taken from the top, is accurately
/// reversible from the schedule state current when it is reached.
pub open spec fn undo_ok(s: ScheduleV, stack: Seq<ActionV>) -> bool
    decreases stack.len(),
{
    stack.len() == 0 || {
        &&& rev_ok(stack.last(), s)
        &&& act_rev(stack.last(), s) is Some
        &&& undo_ok(act_rev(stack.last(), s)->Some_0, stack.drop_last())
    }
}

/// Every entry of the redo stack, taken from the top, applies accurately
/// to the schedule state current when it is reached.
pub open spec fn redo_ok(s: ScheduleV, stack: Seq<ActionV>) -> bool
    decreases stack.len(),
{
    stack.len() == 0 || {
        &&& act_ok(stack.last(), s)
        &&& act_fwd(stack.last(), s) is Some
        &&& redo_ok(act_fwd(stack.last(), s)->Some_0, stack.drop_last())
    }
}

/// A buffer whose whole history was produced through the action API:
/// both stacks are consistent with the current schedule.
pub open spec fn buffer_wf(b: EdBufferV) -> bool {
    undo_ok(b.schedule, b.undo_list) && redo_ok(b.schedule, b.redo_list)
}

// ---------------------------------------------------------------------------
// The buffer machine: what apply, undo and redo do, as functions on values.
// ---------------------------------------------------------------------------

pub open spec fn buf_apply(b: EdBufferV, a: ActionV) -> EdBufferV {
    match act_fwd(a, b.schedule) {
        Some(t) => EdBufferV {
            schedule: t,
            undo_list: b.undo_list.push(a),
            redo_list: Seq::empty(),
            modified: true,
            ..b
        },
        None => EdBufferV { redo_list: Seq::empty(), modified: true, ..b },
    }
}

pub open spec fn buf_undo(b: EdBufferV) -> EdBufferV {
    if b.undo_list.len() == 0 {
        b
    } else {
        let a = b.undo_list.last();
        match act_rev(a, b.schedule) {
            Some(u) => EdBufferV {
                schedule: u,
                undo_list: b.undo_list.drop_last(),
                redo_list: b.redo_list.push(a),
                modified: true,
                ..b
            },
            None => b,
        }
    }
}

pub open spec fn buf_redo(b: EdBufferV) -> EdBufferV {
    if b.redo_list.len() == 0 {
        b
    } else {
        let a = b.redo_list.last();
        match act_fwd(a, b.schedule) {
            Some(t) => EdBufferV {
                schedule: t,
                undo_list: b.undo_list.push(a),
                redo_list: b.redo_list.drop_last(),
                ..b
            },
            None => b,
        }
    }
}

// ---------------------------------------------------------------------------
// Laws of the machine.
// ---------------------------------------------------------------------------

/// An accurate apply keeps the history consistent, and its result is the
/// forward transition of the schedule.
pub proof fn lemma_buf_apply_wf(b: EdBufferV, a: ActionV)
    requires
        buffer_wf(b),
        act_ok(a, b.schedule),
    ensures
        act_fwd(a, b.schedule) is Some,
        buf_apply(b, a).schedule == act_fwd(a, b.schedule)->Some_0,
        buffer_wf(buf_apply(b, a)),
{
    lemma_fwd_then_rev(a, b.schedule);
    let t = act_fwd(a, b.schedule)->Some_0;
    assert(b.undo_list.push(a).drop_last() =~= b.undo_list);
    assert(undo_ok(t, b.undo_list.push(a)));
}

/// Undo keeps the history consistent.
pub proof fn lemma_buf_undo_wf(b: EdBufferV)
    requires
        buffer_wf(b),
    ensures
        buffer_wf(buf_undo(b)),
{
    if b.undo_list.len() > 0 {
        let a = b.undo_list.last();
        lemma_rev_then_fwd(a, b.schedule);
        let u = act_rev(a, b.schedule)->Some_0;
        assert(b.redo_list.push(a).drop_last() =~= b.redo_list);
        assert(redo_ok(u, b.redo_list.push(a)));
    }
}

/// Redo keeps the history consistent.
pub proof fn lemma_buf_redo_wf(b: EdBufferV)
    requires
        buffer_wf(b),
    ensures
        buffer_wf(buf_redo(b)),
{
    if b.redo_list.len() > 0 {
        let a = b.redo_list.last();
        lemma_fwd_then_rev(a, b.schedule);
        let t = act_fwd(a, b.schedule)->Some_0;
        assert(b.undo_list.push(a).drop_last() =~= b.undo_list);
        assert(undo_ok(t, b.undo_list.push(a)));
    }
}

/// One redo after one undo restores the buffer whole — schedule and both
/// stacks — marking it modified.
pub proof fn lemma_undo_then_redo(b: EdBufferV)
    requires
        buffer_wf(b),
        b.undo_list.len() > 0,
    ensures
        buf_redo(buf_undo(b)) == (EdBufferV { modified: true, ..b }),
{
    let a = b.undo_list.last();
    lemma_rev_then_fwd(a, b.schedule);
    let b1 = buf_undo(b);
    assert(b1.redo_list.last() == a);
    assert(b1.redo_list.drop_last() =~= b.redo_list);
    assert(b1.undo_list.push(a) =~= b.undo_list);
    assert(buf_redo(b1) =~~= (EdBufferV { modified: true, ..b }));
}

/// Applying any action clears the redo stack, so a redo straight after an
/// apply is a no-op.
pub proof fn lemma_apply_clears_redo(b: EdBufferV, a: ActionV)
    ensures
        buf_apply(b, a).redo_list.len() == 0,
        buf_redo(buf_apply(b, a)) == buf_apply(b, a),
{
}

/// `k` undos in a row.
pub open spec fn iter_undo(b: EdBufferV, k: nat) -> EdBufferV
    decreases k,
{
    if k == 0 {
        b
    } else {
        buf_undo(iter_undo(b, (k - 1) as nat))
    }
}

/// `k` redos in a row.
pub open spec fn iter_redo(b: EdBufferV, k: nat) -> EdBufferV
    decreases k,
{
    if k == 0 {
        b
    } else {
        buf_redo(iter_redo(b, (k - 1) as nat))
    }
}

/// A sequence of actions applied in order, front first.
pub open spec fn iter_apply(b: EdBufferV, acts: Seq<ActionV>) -> EdBufferV
    decreases acts.len(),
{
    if acts.len() == 0 {
        b
    } else {
        iter_apply(buf_apply(b, acts[0]), acts.drop_first())
    }
}

/// Each action in the sequence is accurate for the state it meets.
pub open spec fn all_ok(s: ScheduleV, acts: Seq<ActionV>) -> bool
    decreases acts.len(),
{
    acts.len() == 0 || {
        &&& act_ok(acts[0], s)
        &&& act_fwd(acts[0], s) is Some
        &&& all_ok(act_fwd(acts[0], s)->Some_0, acts.drop_first())
    }
}

proof fn lemma_iter_undo_peel(b: EdBufferV, k: nat)
    requires
        k > 0,
    ensures
        iter_undo(b, k) == iter_undo(buf_undo(b), (k - 1) as nat),
    decreases k,
{
    if k == 1 {
        assert(iter_undo(b, 1) == buf_undo(iter_undo(b, 0)));
        assert(iter_undo(buf_undo(b), 0) == buf_undo(b));
    } else {
        lemma_iter_undo_peel(b, (k - 1) as nat);
        assert(iter_undo(b, k) == buf_undo(iter_undo(b, (k - 1) as nat)));
        assert(iter_undo(buf_undo(b), (k - 1) as nat) == buf_undo(
            iter_undo(buf_undo(b), (k - 2) as nat),
        ));
    }
}

/// For any run of accurately built actions, applying all of them and then
/// undoing as many times returns the schedule to its starting state, with
/// the undo stack as it was.
pub proof fn lemma_apply_all_then_undo_all(b: EdBufferV, acts: Seq<ActionV>)
    requires
        buffer_wf(b),
        all_ok(b.schedule, acts),
    ensures
        iter_undo(iter_apply(b, acts), acts.len()).schedule == b.schedule,
        iter_undo(iter_apply(b, acts), acts.len()).undo_list == b.undo_list,
        buffer_wf(iter_undo(iter_apply(b, acts), acts.len())),
    decreases acts.len(),
{
    if acts.len() > 0 {
        let a0 = acts[0];
        lemma_buf_apply_wf(b, a0);
        let b1 = buf_apply(b, a0);
        lemma_apply_all_then_undo_all(b1, acts.drop_first());
        let z = iter_undo(iter_apply(b1, acts.drop_first()), acts.drop_first().len());
        assert(iter_apply(b, acts) == iter_apply(b1, acts.drop_first()));
        lemma_iter_undo_peel_outer(iter_apply(b, acts), acts.len());
        assert(iter_undo(iter_apply(b, acts), acts.len()) == buf_undo(z));
        assert(z.undo_list == b.undo_list.push(a0));
        assert(z.undo_list.len() > 0);
        assert(z.undo_list.last() == a0);
        assert(rev_ok(a0, z.schedule) && act_rev(a0, z.schedule) is Some) by {
            assert(undo_ok(z.schedule, z.undo_list));
        }
        lemma_fwd_then_rev(a0, b.schedule);
        assert(z.schedule == act_fwd(a0, b.schedule)->Some_0);
        assert(act_rev(a0, z.schedule) == Some(b.schedule));
        assert(buf_undo(z).schedule == b.schedule);
        assert(buf_undo(z).undo_list =~= b.undo_list) by {
            assert(z.undo_list.drop_last() =~= b.undo_list);
        }
        lemma_buf_undo_wf(z);
    }
}

proof fn lemma_iter_undo_peel_outer(b: EdBufferV, k: nat)
    requires
        k > 0,
    ensures
        iter_undo(b, k) == buf_undo(iter_undo(b, (k - 1) as nat)),
{
}

/// For any `k` not larger than the undo history, `k` undos followed by `k`
/// redos restore the buffer whole, marking it modified when `k > 0`.
pub proof fn lemma_undo_k_then_redo_k(b: EdBufferV, k: nat)
    requires
        buffer_wf(b),
        k <= b.undo_list.len(),
    ensures
        k == 0 ==> iter_redo(iter_undo(b, k), k) == b,
        k > 0 ==> iter_redo(iter_undo(b, k), k) == (EdBufferV { modified: true, ..b }),
    decreases k,
{
    if k > 0 {
        let b1 = buf_undo(b);
        lemma_buf_undo_wf(b);
        assert(b1.undo_list =~= b.undo_list.drop_last());
        lemma_iter_undo_peel(b, k);
        assert(iter_undo(b, k) == iter_undo(b1, (k - 1) as nat));
        lemma_undo_k_then_redo_k(b1, (k - 1) as nat);
        if k == 1 {
            assert(iter_redo(iter_undo(b1, 0), 0) == b1);
            assert(iter_redo(iter_undo(b, k), k) == buf_redo(b1));
            lemma_undo_then_redo(b);
        } else {
            assert(iter_redo(iter_undo(b1, (k - 1) as nat), (k - 1) as nat) == (EdBufferV {
                modified: true,
                ..b1
            }));
            assert(iter_redo(iter_undo(b, k), k) == buf_redo(
                iter_redo(iter_undo(b1, (k - 1) as nat), (k - 1) as nat),
            ));
            lemma_undo_then_redo(b);
            assert(buf_redo(EdBufferV { modified: true, ..b1 }) =~~= buf_redo(buf_undo(
                EdBufferV { modified: true, ..b },
            )));
            assert(buf_redo(buf_undo(EdBufferV { modified: true, ..b })) =~~= (EdBufferV {
                modified: true,
                ..b
            })) by {
                lemma_undo_then_redo(EdBufferV { modified: true, ..b });
            }
        }
    }
}

// ---------------------------------------------------------------------------
// The executable buffer.
// ---------------------------------------------------------------------------

impl EdBuffer {
    /// A fresh session over the stock example schedule, with empty history.
    pub fn new() -> (r: EdBuffer)
        ensures
            r@.schedule.name == "Example"@,
            r@.schedule.programs.len() == 1,
            r@.schedule.programs[0] == (crate::program::ProgramV {
                location: crate::program::SourceV::Pathname("example"@),
                tags: crate::tags::empty_tags(),
                instructions: seq![crate::program::InstructionV::Play(0usize, 0usize)],
                current_instr: Some(0usize),
            }),
            r@.schedule.current_program == Some(0usize),
            r@.path is None,
            r@.undo_list.len() == 0,
            r@.redo_list.len() == 0,
            r@.modified,
            buffer_wf(r@),
    {
        EdBuffer {
            schedule: Schedule::example(),
            filepath: None,
            undo_buffer: Vec::new(),
            redo_buffer: Vec::new(),
            modified: true,
        }
    }

    /// A session over a copy of `sched`, with empty history, not modified.
    pub fn from_schedule(sched: &Schedule) -> (r: EdBuffer)
        ensures
            r@ == (EdBufferV {
                schedule: sched@,
                path: None,
                undo_list: Seq::empty(),
                redo_list: Seq::empty(),
                modified: false,
            }),
            buffer_wf(r@),
    {
        let r = EdBuffer {
            schedule: sched.clone(),
            filepath: None,
            undo_buffer: Vec::new(),
            redo_buffer: Vec::new(),
            modified: false,
        };
        proof {
            assert(r@ =~~= (EdBufferV {
                schedule: sched@,
                path: None,
                undo_list: Seq::empty(),
                redo_list: Seq::empty(),
                modified: false,
            }));
        }
        r
    }

    /// Runs an action forward. On success the action joins the undo stack;
    /// either way the redo stack is cleared and the buffer marked modified.
    pub fn apply(&mut self, action: Action) -> (r: Result<(), String>)
        ensures
            final (self)@ == buf_apply(old(self)@, action@),
            r is Ok <==> act_fwd(action@, old(self)@.schedule) is Some,
            (buffer_wf(old(self)@) && act_ok(action@, old(self)@.schedule)) ==> buffer_wf(
                final (self)@,
            ),
    {
        let ghost o = self@;
        let res = action.apply_to(&mut self.schedule);
        match res {
            Err(f) => {
                self.modified = true;
                self.redo_buffer.clear();
                proof {
                    assert(self@ =~~= buf_apply(o, action@));
                }
                Err(f)
            },
            Ok(_) => {
                self.modified = true;
                proof {
                    lemma_acts_view_push(self.undo_buffer@, action);
                }
                self.undo_buffer.push(action);
                self.redo_buffer.clear();
                proof {
                    assert(self@ =~~= buf_apply(o, self@.undo_list.last()));
                    if buffer_wf(o) && act_ok(self@.undo_list.last(), o.schedule) {
                        lemma_buf_apply_wf(o, self@.undo_list.last());
                    }
                }
                Ok(())
            },
        }
    }

    /// Pops and reverses the most recent action, moving it to the redo
    /// stack; with an empty undo stack this is a no-op. The history must be
    /// consistent — a schedule mutated around the action API voids it.
    pub fn undo(&mut self)
        requires
            buffer_wf(old(self)@),
        ensures
            final (self)@ == buf_undo(old(self)@),
            buffer_wf(final (self)@),
    {
        let ghost o = self@;
        proof {
            lemma_acts_view_len(self.undo_buffer@);
            if self.undo_buffer@.len() > 0 {
                lemma_acts_view_drop_last(self.undo_buffer@);
                assert(acts_view(self.undo_buffer@).last() == self.undo_buffer@.last()@);
            }
        }
        match self.undo_buffer.pop() {
            None => {
                proof {
                    assert(self@ =~~= buf_undo(o));
                }
            },
            Some(action) => {
                proof {
                    assert(action@ == o.undo_list.last());
                    assert(rev_ok(action@, o.schedule));
                }
                let res = action.reverse_on(&mut self.schedule);
                match res {
                    Err(_) => {
                        proof {
                            assert(false);
                        }
                    },
                    Ok(_) => {
                        proof {
                            lemma_acts_view_push(self.redo_buffer@, action);
                        }
                        self.redo_buffer.push(action);
                        self.modified = true;
                        proof {
                            assert(self@ =~~= buf_undo(o));
                            lemma_buf_undo_wf(o);
                        }
                    },
                }
            },
        }
    }

    /// Pops and re-applies the most recently undone action, moving it back
    /// to the undo stack; with an empty redo stack this is a no-op.
    pub fn redo(&mut self)
        requires
            buffer_wf(old(self)@),
        ensures
            final (self)@ == buf_redo(old(self)@),
            buffer_wf(final (self)@),
    {
        let ghost o = self@;
        proof {
            lemma_acts_view_len(self.redo_buffer@);
            if self.redo_buffer@.len() > 0 {
                lemma_acts_view_drop_last(self.redo_buffer@);
                assert(acts_view(self.redo_buffer@).last() == self.redo_buffer@.last()@);
            }
        }
        match self.redo_buffer.pop() {
            None => {
                proof {
                    assert(self@ =~~= buf_redo(o));
                }
            },
            Some(action) => {
                proof {
                    assert(action@ == o.redo_list.last());
                    assert(act_ok(action@, o.schedule));
                }
                let res = action.apply_to(&mut self.schedule);
                match res {
                    Err(_) => {
                        proof {
                            assert(false);
                        }
                    },
                    Ok(_) => {
                        proof {
                            lemma_acts_view_push(self.undo_buffer@, action);
                        }
                        self.undo_buffer.push(action);
                        proof {
                            assert(self@ =~~= buf_redo(o));
                            lemma_buf_redo_wf(o);
                        }
                    },
                }
            },
        }
    }

    pub fn is_undo_buffer_empty(&self) -> (r: bool)
        ensures
            r == (self@.undo_list.len() == 0),
    {
        proof {
            lemma_acts_view_len(self.undo_buffer@);
        }
        self.undo_buffer.len() == 0
    }

    pub fn is_redo_buffer_empty(&self) -> (r: bool)
        ensures
            r == (self@.redo_list.len() == 0),
    {
        proof {
            lemma_acts_view_len(self.redo_buffer@);
        }
        self.redo_buffer.len() == 0
    }

    /// Assigns the file path that saves will target.
    pub fn set_path(&mut self, path: &str)
        ensures
            final (self)@ == (EdBufferV { path: Some(path@), ..old(self)@ }),
    {
        self.filepath = Some(String::from_str(path));
        proof {
            assert(self@ =~~= (EdBufferV { path: Some(path@), ..old(self)@ }));
        }
    }

    pub fn get_path(&self) -> (r: Option<&str>)
        ensures
            match r {
                Some(p) => self@.path == Some(p@),
                None => self@.path is None,
            },
    {
        match &self.filepath {
            Some(p) => Some(p.as_str()),
            None => None,
        }
    }

    pub fn get_schedule(&self) -> (r: &Schedule)
        ensures
            r@ == self@.schedule,
    {
        &self.schedule
    }

    /// Renames the schedule directly, outside the undo history.
    pub fn set_name(&mut self, name: &str)
        ensures
            final (self)@ == (EdBufferV {
                schedule: ScheduleV { name: name@, ..old(self)@.schedule },
                ..old(self)@
            }),
    {
        self.schedule.set_name(name);
        proof {
            assert(self@ =~~= (EdBufferV {
                schedule: ScheduleV { name: name@, ..old(self)@.schedule },
                ..old(self)@
            }));
        }
    }

    pub fn get_name(&self) -> (r: String)
        ensures
            r@ == self@.schedule.name,
    {
        self.schedule.get_name()
    }

    /// The program under the schedule's cursor.
    pub fn get_program(&self) -> (r: Option<&Program>)
        ensures
            match r {
                Some(p) => self@.schedule.current_program matches Some(c) && (c as int)
                    < self@.schedule.programs.len() && p@ == self@.schedule.programs[
                    self@.schedule.current_program->0 as int
                ],
                None => !(self@.schedule.current_program matches Some(c) && (c as int)
                    < self@.schedule.programs.len()),
            },
    {
        self.schedule.get_program()
    }

    pub fn get_program_at(&self, idx: usize) -> (r: Option<&Program>)
        ensures
            match r {
                Some(p) => (idx as int) < self@.schedule.programs.len() && p@
                    == self@.schedule.programs[idx as int],
                None => (idx as int) >= self@.schedule.programs.len(),
            },
    {
        self.schedule.get_program_at(idx)
    }

    pub fn get_current_program_idx(&self) -> (r: Option<usize>)
        ensures
            r == self@.schedule.current_program,
    {
        self.schedule.get_current_program_idx()
    }

    pub fn last_program(&self) -> (r: Option<&Program>)
        ensures
            match r {
                Some(p) => self@.schedule.programs.len() > 0 && p@
                    == self@.schedule.programs.last(),
                None => self@.schedule.programs.len() == 0,
            },
    {
        self.schedule.last_program()
    }

    /// Appends a program directly, outside the undo history.
    pub fn add_program(&mut self, prog: &Program)
        ensures
            final (self)@ == (EdBufferV {
                schedule: ScheduleV {
                    programs: old(self)@.schedule.programs.push(prog@),
                    current_program: crate::program::cursor_after_add(
                        old(self)@.schedule.current_program,
                        old(self)@.schedule.programs.len(),
                    ),
                    ..old(self)@.schedule
                },
                ..old(self)@
            }),
    {
        self.schedule.add_program(prog);
        proof {
            assert(self@ =~~= (EdBufferV {
                schedule: ScheduleV {
                    programs: old(self)@.schedule.programs.push(prog@),
                    current_program: crate::program::cursor_after_add(
                        old(self)@.schedule.current_program,
                        old(self)@.schedule.programs.len(),
                    ),
                    ..old(self)@.schedule
                },
                ..old(self)@
            }));
        }
    }

    /// Removes the last program directly, outside the undo history.
    pub fn pop_program(&mut self) -> (r: Option<Program>)
        ensures
            match r {
                Some(p) => old(self)@.schedule.programs.len() > 0 && p@ == old(
                    self,
                )@.schedule.programs.last() && final (self)@ == (EdBufferV {
                    schedule: ScheduleV {
                        programs: old(self)@.schedule.programs.drop_last(),
                        current_program: crate::program::cursor_after_pop(
                            old(self)@.schedule.current_program,
                            (old(self)@.schedule.programs.len() - 1) as nat,
                        ),
                        ..old(self)@.schedule
                    },
                    ..old(self)@
                }),
                None => old(self)@.schedule.programs.len() == 0 && final (self)@ == old(self)@,
            },
    {
        let ghost o = self@;
        let r = self.schedule.pop_program();
        proof {
            if o.schedule.programs.len() > 0 {
                assert(self@ =~~= (EdBufferV {
                    schedule: ScheduleV {
                        programs: o.schedule.programs.drop_last(),
                        current_program: crate::program::cursor_after_pop(
                            o.schedule.current_program,
                            (o.schedule.programs.len() - 1) as nat,
                        ),
                        ..o.schedule
                    },
                    ..o
                }));
            } else {
                assert(self@ =~~= o);
            }
        }
        r
    }

    /// Inserts a program directly, outside the undo history; an index at or
    /// past the end is an error.
    pub fn insert_program(&mut self, idx: usize, prog: &Program) -> (r: Result<(), String>)
        ensures
            match r {
                Ok(_) => (idx as int) < old(self)@.schedule.programs.len() && final (self)@ == (
                EdBufferV {
                    schedule: ScheduleV {
                        programs: old(self)@.schedule.programs.insert(idx as int, prog@),
                        current_program: crate::program::cursor_after_insert(
                            old(self)@.schedule.current_program,
                            idx as int,
                            old(self)@.schedule.programs.len(),
                        ),
                        ..old(self)@.schedule
                    },
                    ..old(self)@
                }),
                Err(_) => (idx as int) >= old(self)@.schedule.programs.len() && final (self)@
                    == old(self)@,
            },
    {
        let ghost o = self@;
        let r = self.schedule.insert_program(idx, prog);
        proof {
            if r is Ok {
                assert(self@ =~~= (EdBufferV {
                    schedule: ScheduleV {
                        programs: o.schedule.programs.insert(idx as int, prog@),
                        current_program: crate::program::cursor_after_insert(
                            o.schedule.current_program,
                            idx as int,
                            o.schedule.programs.len(),
                        ),
                        ..o.schedule
                    },
                    ..o
                }));
            } else {
                assert(self@ =~~= o);
            }
        }
        r
    }

    /// Deletes a program directly, outside the undo history.
    pub fn delete_program(&mut self, idx: usize) -> (r: Result<(), String>)
        ensures
            match r {
                Ok(_) => (idx as int) < old(self)@.schedule.programs.len() && final (self)@ == (
                EdBufferV {
                    schedule: ScheduleV {
                        programs: old(self)@.schedule.programs.remove(idx as int),
                        current_program: crate::program::cursor_after_remove(
                            old(self)@.schedule.current_program,
                            idx as int,
                            (old(self)@.schedule.programs.len() - 1) as nat,
                        ),
                        ..old(self)@.schedule
                    },
                    ..old(self)@
                }),
                Err(_) => (idx as int) >= old(self)@.schedule.programs.len() && final (self)@
                    == old(self)@,
            },
    {
        let ghost o = self@;
        let r = self.schedule.delete_program(idx);
        proof {
            if r is Ok {
                assert(self@ =~~= (EdBufferV {
                    schedule: ScheduleV {
                        programs: o.schedule.programs.remove(idx as int),
                        current_program: crate::program::cursor_after_remove(
                            o.schedule.current_program,
                            idx as int,
                            (o.schedule.programs.len() - 1) as nat,
                        ),
                        ..o.schedule
                    },
                    ..o
                }));
            } else {
                assert(self@ =~~= o);
            }
        }
        r
    }

    pub fn modified(&self) -> (r: bool)
        ensures
            r == self@.modified,
    {
        self.modified
    }

    /// The text a save must write, addressed to the buffer's path; a buffer
    /// with no assigned path refuses, recoverably.
    pub fn save_text(&self) -> (r: Result<String, String>)
        ensures
            self@.path is Some <==> r is Ok,
            r matches Ok(text) ==> text@ == crate::serialize::sched_text(self@.schedule),
    {
        match &self.filepath {
            Some(_p) => Ok(self.schedule.to_text()),
            None => Err(
                String::from_str("There is no file for this buffer yet. Please use save as"),
            ),
        }
    }

    /// Records that the schedule has been written out.
    pub fn mark_saved(&mut self)
        ensures
            final (self)@ == (EdBufferV { modified: false, ..old(self)@ }),
    {
        self.modified = false;
        proof {
            assert(self@ =~~= (EdBufferV { modified: false, ..old(self)@ }));
        }
    }
}

} // verus!
