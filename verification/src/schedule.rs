//! A schedule: a named, ordered collection of programs with a cursor.

use vstd::prelude::*;
use crate::program::{
    clone_program, cursor_after_add, cursor_after_insert, cursor_after_pop, cursor_after_remove,
    cursor_next, cursor_prev, prog_view, prog_wf, Program, ProgramV, SourceV,
};

verus! {

broadcast use crate::program::lemma_prog_view_is_view;

#[derive(PartialEq, Debug)]
pub struct Schedule {
    programs: Vec<Program>,
    name: String,
    current_program: Option<usize>,
}

pub ghost struct ScheduleV {
    pub name: Seq<char>,
    pub programs: Seq<ProgramV>,
    pub current_program: Option<usize>,
}

pub open spec fn progs_view(v: Seq<Program>) -> Seq<ProgramV>
    decreases v,
{
    if v.len() == 0 {
        Seq::empty()
    } else {
        progs_view(v.drop_last()).push(prog_view(v.last()))
    }
}

impl View for Schedule {
    type V = ScheduleV;

    closed spec fn view(&self) -> ScheduleV {
        ScheduleV {
            name: self.name@,
            programs: progs_view(self.programs@),
            current_program: self.current_program,
        }
    }
}

/// A well-formed schedule: cursor inside the list when present, and every
/// program well-formed.
pub open spec fn sched_wf(s: ScheduleV) -> bool {
    &&& crate::program::cursor_ok(s.current_program, s.programs.len())
    &&& forall|j: int| 0 <= j < s.programs.len() ==> prog_wf(#[trigger] s.programs[j])
}


pub broadcast proof fn lemma_progs_view_len(v: Seq<Program>)
    ensures
        #[trigger] progs_view(v).len() == v.len(),
    decreases v,
{
    if v.len() > 0 {
        lemma_progs_view_len(v.drop_last());
    }
}

pub broadcast proof fn lemma_progs_view_index(v: Seq<Program>, i: int)
    requires
        0 <= i < v.len(),
    ensures
        #[trigger] progs_view(v)[i] == prog_view(v[i]),
    decreases v,
{
    lemma_progs_view_len(v);
    if i < v.len() - 1 {
        lemma_progs_view_index(v.drop_last(), i);
        lemma_progs_view_len(v.drop_last());
    }
}

pub broadcast proof fn lemma_progs_view_push(v: Seq<Program>, x: Program)
    ensures
        #[trigger] progs_view(v.push(x)) == progs_view(v).push(prog_view(x)),
{
    assert(v.push(x).drop_last() =~= v);
}

pub broadcast proof fn lemma_progs_view_drop_last(v: Seq<Program>)
    requires
        v.len() > 0,
    ensures
        #[trigger] progs_view(v.drop_last()) == progs_view(v).drop_last(),
{
    lemma_progs_view_len(v);
    lemma_progs_view_len(v.drop_last());
    assert(progs_view(v).drop_last() =~= progs_view(v.drop_last()));
}

pub broadcast proof fn lemma_progs_view_insert(v: Seq<Program>, i: int, x: Program)
    requires
        0 <= i <= v.len(),
    ensures
        #[trigger] progs_view(v.insert(i, x)) == progs_view(v).insert(i, prog_view(x)),
    decreases v.len(),
{
    lemma_progs_view_len(v);
    if i == v.len() {
        assert(v.insert(i, x) =~= v.push(x));
        lemma_progs_view_push(v, x);
        assert(progs_view(v).insert(i, prog_view(x)) =~= progs_view(v).push(prog_view(x)));
    } else {
        let w = v.insert(i, x);
        assert(w.drop_last() =~= v.drop_last().insert(i, x));
        assert(w.last() == v.last());
        lemma_progs_view_insert(v.drop_last(), i, x);
        lemma_progs_view_len(v.drop_last());
        assert(progs_view(w) == progs_view(v.drop_last()).insert(i, prog_view(x)).push(
            prog_view(v.last()),
        ));
        assert(progs_view(v.drop_last()).insert(i, prog_view(x)).push(prog_view(v.last()))
            =~= progs_view(v).insert(i, prog_view(x)));
    }
}

pub broadcast proof fn lemma_progs_view_remove(v: Seq<Program>, i: int)
    requires
        0 <= i < v.len(),
    ensures
        #[trigger] progs_view(v.remove(i)) == progs_view(v).remove(i),
    decreases v.len(),
{
    lemma_progs_view_len(v);
    if i == v.len() - 1 {
        assert(v.remove(i) =~= v.drop_last());
        lemma_progs_view_drop_last(v);
        assert(progs_view(v).remove(i) =~= progs_view(v).drop_last());
    } else {
        let w = v.remove(i);
        assert(w.drop_last() =~= v.drop_last().remove(i));
        assert(w.last() == v.last());
        lemma_progs_view_remove(v.drop_last(), i);
        lemma_progs_view_len(v.drop_last());
        assert(progs_view(w) == progs_view(v.drop_last()).remove(i).push(prog_view(v.last())));
        assert(progs_view(v.drop_last()).remove(i).push(prog_view(v.last())) =~= progs_view(
            v,
        ).remove(i));
    }
}

pub broadcast proof fn lemma_progs_view_update(v: Seq<Program>, i: int, x: Program)
    requires
        0 <= i < v.len(),
    ensures
        #[trigger] progs_view(v.update(i, x)) == progs_view(v).update(i, prog_view(x)),
    decreases v.len(),
{
    lemma_progs_view_len(v);
    lemma_progs_view_len(v.update(i, x));
    if i == v.len() - 1 {
        let w = v.update(i, x);
        assert(w.drop_last() =~= v.drop_last());
        assert(w.last() == x);
        assert(progs_view(w) == progs_view(v.drop_last()).push(prog_view(x)));
        lemma_progs_view_drop_last(v);
        assert(progs_view(v.drop_last()).push(prog_view(x)) =~= progs_view(v).update(
            i,
            prog_view(x),
        ));
    } else {
        let w = v.update(i, x);
        assert(w.drop_last() =~= v.drop_last().update(i, x));
        assert(w.last() == v.last());
        lemma_progs_view_update(v.drop_last(), i, x);
        lemma_progs_view_len(v.drop_last());
        assert(progs_view(w) == progs_view(v.drop_last()).update(i, prog_view(x)).push(
            prog_view(v.last()),
        ));
        assert(progs_view(v.drop_last()).update(i, prog_view(x)).push(prog_view(v.last()))
            =~= progs_view(v).update(i, prog_view(x)));
    }
}

impl Schedule {
    /// A schedule with the given name and programs; the cursor starts on the
    /// last program, or absent when there are none.
    pub fn new(nom: &str, progs: Vec<Program>) -> (r: Schedule)
        ensures
            r@ == (ScheduleV {
                name: nom@,
                programs: progs_view(progs@),
                current_program: if progs@.len() == 0 {
                    None
                } else {
                    Some((progs@.len() - 1) as usize)
                },
            }),
    {
        let current: Option<usize> = if progs.len() == 0 {
            None
        } else {
            Some(progs.len() - 1)
        };
        Schedule { name: String::from_str(nom), programs: progs, current_program: current }
    }

    /// The stock example schedule: one example program, named `Example`.
    pub fn example() -> (r: Schedule)
        ensures
            r@.name == "Example"@,
            r@.programs.len() == 1,
            r@.programs[0] == (ProgramV {
                location: SourceV::Pathname("example"@),
                tags: crate::tags::empty_tags(),
                instructions: seq![crate::program::InstructionV::Play(0usize, 0usize)],
                current_instr: Some(0usize),
            }),
            r@.current_program == Some(0usize),
            sched_wf(r@),
    {
        let mut progs: Vec<Program> = Vec::new();
        progs.push(Program::example());
        proof {
            assert(progs@.drop_last() =~= Seq::<Program>::empty());
            assert(progs_view(Seq::<Program>::empty()) =~= Seq::<ProgramV>::empty());
            lemma_progs_view_len(progs@);
            lemma_progs_view_index(progs@, 0);
        }
        Schedule {
            name: String::from_str("Example"),
            programs: progs,
            current_program: Some(0),
        }
    }

    pub fn set_name(&mut self, nom: &str)
        ensures
            final (self)@ == (ScheduleV { name: nom@, ..old(self)@ }),
    {
        self.name = String::from_str(nom);
    }

    pub fn get_name(&self) -> (r: String)
        ensures
            r@ == self@.name,
    {
        self.name.clone()
    }

    pub fn name_ref(&self) -> (r: &str)
        ensures
            r@ == self@.name,
    {
        self.name.as_str()
    }

    /// A copy of the program list.
    pub fn programs(&self) -> (r: Vec<Program>)
        ensures
            progs_view(r@) == self@.programs,
    {
        let mut out: Vec<Program> = Vec::new();
        let mut i: usize = 0;
        proof {
            lemma_progs_view_len(self.programs@);
        }
        while i < self.programs.len()
            invariant
                0 <= i <= self.programs@.len(),
                out@.len() == i,
                forall|j: int| 0 <= j < i ==> prog_view(#[trigger] out@[j]) == prog_view(
                    self.programs@[j],
                ),
            decreases self.programs@.len() - i,
        {
            out.push(clone_program(&self.programs[i]));
            i = i + 1;
        }
        proof {
            lemma_progs_views_eq(out@, self.programs@);
        }
        out
    }

    /// The last program, when there is one.
    pub fn last_program(&self) -> (r: Option<&Program>)
        ensures
            match r {
                Some(p) => self@.programs.len() > 0 && p@ == self@.programs.last(),
                None => self@.programs.len() == 0,
            },
    {
        proof {
            lemma_progs_view_len(self.programs@);
        }
        if self.programs.len() == 0 {
            None
        } else {
            proof {
                lemma_progs_view_index(self.programs@, self.programs@.len() - 1);
            }
            Some(&self.programs[self.programs.len() - 1])
        }
    }

    /// Appends a program; on a previously empty schedule the cursor lands
    /// on it, otherwise the cursor is untouched.
    pub fn add_program(&mut self, prog: &Program)
        ensures
            final (self)@ == (ScheduleV {
                programs: old(self)@.programs.push(prog@),
                current_program: cursor_after_add(
                    old(self)@.current_program,
                    old(self)@.programs.len(),
                ),
                ..old(self)@
            }),
    {
        let ghost o = self@;
        let was_empty = self.programs.len() == 0;
        let c = clone_program(prog);
        proof {
            lemma_progs_view_len(self.programs@);
            lemma_progs_view_push(self.programs@, c);
        }
        self.programs.push(c);
        if was_empty {
            self.current_program = Some(0);
        }
        proof {
            assert(self@ =~~= (ScheduleV {
                programs: o.programs.push(prog@),
                current_program: cursor_after_add(o.current_program, o.programs.len()),
                ..o
            }));
        }
    }

    /// Removes and returns the last program; the cursor clears on an
    /// emptied schedule, and clamps back inside it when it pointed at the
    /// removed program.
    pub fn pop_program(&mut self) -> (r: Option<Program>)
        ensures
            match r {
                Some(p) => old(self)@.programs.len() > 0 && p@ == old(self)@.programs.last()
                    && final (self)@ == (ScheduleV {
                    programs: old(self)@.programs.drop_last(),
                    current_program: cursor_after_pop(
                        old(self)@.current_program,
                        (old(self)@.programs.len() - 1) as nat,
                    ),
                    ..old(self)@
                }),
                None => old(self)@.programs.len() == 0 && final (self)@ == old(self)@,
            },
    {
        let ghost o = self@;
        proof {
            lemma_progs_view_len(self.programs@);
            if self.programs@.len() > 0 {
                lemma_progs_view_index(self.programs@, self.programs@.len() - 1);
                lemma_progs_view_drop_last(self.programs@);
            }
        }
        let r = self.programs.pop();
        if r.is_some() {
            let new_len = self.programs.len();
            self.current_program = if new_len == 0 {
                None
            } else {
                match self.current_program {
                    Some(c) => {
                        if c < new_len {
                            Some(c)
                        } else {
                            Some(new_len - 1)
                        }
                    },
                    None => None,
                }
            };
        }
        proof {
            if o.programs.len() > 0 {
                assert(self@ =~~= (ScheduleV {
                    programs: o.programs.drop_last(),
                    current_program: cursor_after_pop(
                        o.current_program,
                        (o.programs.len() - 1) as nat,
                    ),
                    ..o
                }));
            } else {
                assert(self@ =~~= o);
            }
        }
        r
    }

    /// Deletes the program at `idx`; an index outside the list is an error
    /// and changes nothing. The cursor keeps tracking the program it
    /// pointed at, or clamps to the list.
    pub fn delete_program(&mut self, idx: usize) -> (r: Result<(), String>)
        ensures
            match r {
                Ok(_) => (idx as int) < old(self)@.programs.len() && final (self)@ == (ScheduleV {
                    programs: old(self)@.programs.remove(idx as int),
                    current_program: cursor_after_remove(
                        old(self)@.current_program,
                        idx as int,
                        (old(self)@.programs.len() - 1) as nat,
                    ),
                    ..old(self)@
                }),
                Err(_) => (idx as int) >= old(self)@.programs.len() && final (self)@ == old(
                    self,
                )@,
            },
    {
        let ghost o = self@;
        proof {
            lemma_progs_view_len(self.programs@);
        }
        if idx >= self.programs.len() {
            Err(String::from_str("Index is out of bounds."))
        } else {
            proof {
                lemma_progs_view_remove(self.programs@, idx as int);
            }
            self.programs.remove(idx);
            let new_len = self.programs.len();
            self.current_program = match self.current_program {
                None => None,
                Some(c) => {
                    if c < idx {
                        Some(c)
                    } else if c == idx {
                        if new_len == 0 {
                            None
                        } else if c < new_len {
                            Some(c)
                        } else {
                            Some(new_len - 1)
                        }
                    } else {
                        Some(c - 1)
                    }
                },
            };
            proof {
                assert(self@ =~~= (ScheduleV {
                    programs: o.programs.remove(idx as int),
                    current_program: cursor_after_remove(
                        o.current_program,
                        idx as int,
                        (o.programs.len() - 1) as nat,
                    ),
                    ..o
                }));
            }
            Ok(())
        }
    }

    /// Inserts before the program at `idx`; an index at or past the end is
    /// an error and changes nothing (appending is `add_program`'s job). The
    /// cursor keeps tracking the program it pointed at.
    pub fn insert_program(&mut self, idx: usize, prog: &Program) -> (r: Result<(), String>)
        ensures
            match r {
                Ok(_) => (idx as int) < old(self)@.programs.len() && final (self)@ == (ScheduleV {
                    programs: old(self)@.programs.insert(idx as int, prog@),
                    current_program: cursor_after_insert(
                        old(self)@.current_program,
                        idx as int,
                        old(self)@.programs.len(),
                    ),
                    ..old(self)@
                }),
                Err(_) => (idx as int) >= old(self)@.programs.len() && final (self)@ == old(
                    self,
                )@,
            },
    {
        let ghost o = self@;
        proof {
            lemma_progs_view_len(self.programs@);
        }
        if idx >= self.programs.len() {
            Err(String::from_str("Index is out of bounds."))
        } else {
            let c = clone_program(prog);
            proof {
                lemma_progs_view_insert(self.programs@, idx as int, c);
            }
            self.programs.insert(idx, c);
            self.current_program = match self.current_program {
                Some(cr) => {
                    if cr < idx {
                        Some(cr)
                    } else if cr < usize::MAX {
                        Some(cr + 1)
                    } else {
                        Some(cr)
                    }
                },
                None => None,
            };
            proof {
                assert(self@ =~~= (ScheduleV {
                    programs: o.programs.insert(idx as int, prog@),
                    current_program: cursor_after_insert(
                        o.current_program,
                        idx as int,
                        o.programs.len(),
                    ),
                    ..o
                }));
            }
            Ok(())
        }
    }

    pub fn get_program_at(&self, idx: usize) -> (r: Option<&Program>)
        ensures
            match r {
                Some(p) => (idx as int) < self@.programs.len() && p@ == self@.programs[idx as int],
                None => (idx as int) >= self@.programs.len(),
            },
    {
        proof {
            lemma_progs_view_len(self.programs@);
        }
        if idx < self.programs.len() {
            proof {
                lemma_progs_view_index(self.programs@, idx as int);
            }
            Some(&self.programs[idx])
        } else {
            None
        }
    }

    /// The program under the cursor, when the cursor points inside the list.
    pub fn get_program(&self) -> (r: Option<&Program>)
        ensures
            match r {
                Some(p) => self@.current_program matches Some(c) && (c as int)
                    < self@.programs.len() && p@ == self@.programs[self@.current_program->0 as int],
                None => !(self@.current_program matches Some(c) && (c as int)
                    < self@.programs.len()),
            },
    {
        proof {
            lemma_progs_view_len(self.programs@);
        }
        match self.current_program {
            None => None,
            Some(c) => {
                if c < self.programs.len() {
                    proof {
                        lemma_progs_view_index(self.programs@, c as int);
                    }
                    Some(&self.programs[c])
                } else {
                    None
                }
            },
        }
    }

    /// Replaces the location of the program at `idx`; an index outside the
    /// list is an error and changes nothing.
    pub fn set_location_at(&mut self, idx: usize, location: &crate::program::Source) -> (r:
        Result<(), String>)
        ensures
            match r {
                Ok(_) => (idx as int) < old(self)@.programs.len() && final (self)@ == (ScheduleV {
                    programs: old(self)@.programs.update(
                        idx as int,
                        ProgramV { location: location@, ..old(self)@.programs[idx as int] },
                    ),
                    ..old(self)@
                }),
                Err(_) => (idx as int) >= old(self)@.programs.len() && final (self)@ == old(
                    self,
                )@,
            },
    {
        let ghost o = self@;
        proof {
            lemma_progs_view_len(self.programs@);
        }
        if idx >= self.programs.len() {
            return Err(String::from_str("Index is out of bounds."));
        }
        proof {
            lemma_progs_view_index(self.programs@, idx as int);
        }
        let mut p = clone_program(&self.programs[idx]);
        p.set_location(location);
        proof {
            lemma_progs_view_update(self.programs@, idx as int, p);
        }
        self.programs[idx] = p;
        proof {
            assert(self@ =~~= (ScheduleV {
                programs: o.programs.update(
                    idx as int,
                    ProgramV { location: location@, ..o.programs[idx as int] },
                ),
                ..o
            }));
        }
        Ok(())
    }

    /// Puts back a cursor snapshot taken before a reversible edit; only the
    /// undo engine restores cursors directly.
    pub(crate) fn restore_cursor(&mut self, cur: Option<usize>)
        ensures
            final (self)@ == (ScheduleV { current_program: cur, ..old(self)@ }),
    {
        self.current_program = cur;
        proof {
            assert(self@ =~~= (ScheduleV { current_program: cur, ..old(self)@ }));
        }
    }

    pub fn programs_len(&self) -> (r: usize)
        ensures
            r == self@.programs.len(),
    {
        proof {
            lemma_progs_view_len(self.programs@);
        }
        self.programs.len()
    }

    pub fn get_current_program_idx(&self) -> (r: Option<usize>)
        ensures
            r == self@.current_program,
    {
        self.current_program
    }

    /// Sets the cursor; an index outside the list is an error.
    pub fn set_current_program_idx(&mut self, idx: usize) -> (r: Result<(), String>)
        ensures
            match r {
                Ok(_) => (idx as int) < old(self)@.programs.len() && final (self)@ == (ScheduleV {
                    current_program: Some(idx),
                    ..old(self)@
                }),
                Err(_) => (idx as int) >= old(self)@.programs.len() && final (self)@ == old(
                    self,
                )@,
            },
    {
        proof {
            lemma_progs_view_len(self.programs@);
        }
        if idx >= self.programs.len() {
            Err(String::from_str("Out of bounds"))
        } else {
            self.current_program = Some(idx);
            Ok(())
        }
    }

    pub fn next_prog(&mut self)
        ensures
            final (self)@ == (ScheduleV {
                current_program: cursor_next(
                    old(self)@.current_program,
                    old(self)@.programs.len(),
                ),
                ..old(self)@
            }),
    {
        proof {
            lemma_progs_view_len(self.programs@);
        }
        let len = self.programs.len();
        self.current_program = match self.current_program {
            Some(c) => {
                if len > 0 && c < len - 1 {
                    Some(c + 1)
                } else {
                    Some(c)
                }
            },
            None => {
                if len > 0 {
                    Some(0)
                } else {
                    None
                }
            },
        };
    }

    /// Steps the cursor back by one program.
    pub fn prev_instr(&mut self)
        ensures
            final (self)@ == (ScheduleV {
                current_program: cursor_prev(
                    old(self)@.current_program,
                    old(self)@.programs.len(),
                ),
                ..old(self)@
            }),
    {
        proof {
            lemma_progs_view_len(self.programs@);
        }
        let len = self.programs.len();
        self.current_program = match self.current_program {
            Some(c) => {
                if len > 0 && c > 0 {
                    Some(c - 1)
                } else {
                    Some(c)
                }
            },
            None => {
                if len > 0 {
                    Some(0)
                } else {
                    None
                }
            },
        };
    }
}

impl Clone for Schedule {
    /// A clone keeps the schedule's mathematical value.
    fn clone(&self) -> (r: Self)
        ensures
            r@ == self@,
    {
        let r = Schedule {
            programs: self.programs(),
            name: self.name.clone(),
            current_program: self.current_program,
        };
        proof {
            assert(r@ =~~= self@);
        }
        r
    }
}

/// Two program lists with elementwise equal values have equal values.
proof fn lemma_progs_views_eq(a: Seq<Program>, b: Seq<Program>)
    requires
        a.len() == b.len(),
        forall|j: int| 0 <= j < a.len() ==> prog_view(#[trigger] a[j]) == prog_view(b[j]),
    ensures
        progs_view(a) == progs_view(b),
    decreases a.len(),
{
    if a.len() > 0 {
        lemma_progs_views_eq(a.drop_last(), b.drop_last());
        assert(progs_view(a) =~= progs_view(b));
    }
}

} // verus!
