//! The playable units of a schedule: a media source, its tags, and an
//! ordered list of instructions, where an instruction may embed a whole
//! sub-program.

use vstd::prelude::*;
use crate::tags::{Tags, TagsV, tags_wf, empty_tags};
use crate::serialize::{instr_items, instr_text, loc_text, prog_text, tags_text};

verus! {

/// Where a media item lives: a local path or a network URL.
#[derive(PartialEq, Debug)]
pub enum Source {
    Pathname(String),
    URL(String),
}

impl Clone for Source {
    /// A clone is equal to the source it copies.
    fn clone(&self) -> (r: Self)
        ensures
            r == *self,
    {
        match self {
            Source::Pathname(s) => Source::Pathname(s.clone()),
            Source::URL(s) => Source::URL(s.clone()),
        }
    }
}

pub ghost enum SourceV {
    Pathname(Seq<char>),
    URL(Seq<char>),
}

impl View for Source {
    type V = SourceV;

    open spec fn view(&self) -> SourceV {
        match self {
            Source::Pathname(s) => SourceV::Pathname(s@),
            Source::URL(s) => SourceV::URL(s@),
        }
    }
}

/// Play a stretch of the item, or embed another program whole.
#[derive(PartialEq, Debug)]
pub enum Instruction {
    Play(usize, usize),
    SubProgram(Box<Program>),
}

#[derive(PartialEq, Debug)]
pub struct Program {
    location: Source,
    tags: Tags,
    instructions: Vec<Instruction>,
    current_instr: Option<usize>,
}

pub ghost enum InstructionV {
    Play(usize, usize),
    SubProgram(ProgramV),
}

pub ghost struct ProgramV {
    pub location: SourceV,
    pub tags: TagsV,
    pub instructions: Seq<InstructionV>,
    pub current_instr: Option<usize>,
}

pub open spec fn instr_view(i: Instruction) -> InstructionV
    decreases i,
{
    match i {
        Instruction::Play(s, d) => InstructionV::Play(s, d),
        Instruction::SubProgram(p) => InstructionV::SubProgram(prog_view(*p)),
    }
}

pub open spec fn instrs_view(v: Seq<Instruction>) -> Seq<InstructionV>
    decreases v,
{
    if v.len() == 0 {
        Seq::empty()
    } else {
        instrs_view(v.drop_last()).push(instr_view(v.last()))
    }
}

pub closed spec fn prog_view(p: Program) -> ProgramV
    decreases p,
{
    ProgramV {
        location: p.location@,
        tags: p.tags@,
        instructions: instrs_view(p.instructions@),
        current_instr: p.current_instr,
    }
}

impl View for Instruction {
    type V = InstructionV;

    open spec fn view(&self) -> InstructionV {
        instr_view(*self)
    }
}

impl View for Program {
    type V = ProgramV;

    closed spec fn view(&self) -> ProgramV {
        prog_view(*self)
    }
}

pub broadcast proof fn lemma_instrs_view_len(v: Seq<Instruction>)
    ensures
        #[trigger] instrs_view(v).len() == v.len(),
    decreases v,
{
    if v.len() > 0 {
        lemma_instrs_view_len(v.drop_last());
    }
}

pub broadcast proof fn lemma_instrs_view_index(v: Seq<Instruction>, i: int)
    requires
        0 <= i < v.len(),
    ensures
        #[trigger] instrs_view(v)[i] == instr_view(v[i]),
    decreases v,
{
    lemma_instrs_view_len(v);
    if i < v.len() - 1 {
        lemma_instrs_view_index(v.drop_last(), i);
        lemma_instrs_view_len(v.drop_last());
    }
}

pub broadcast proof fn lemma_instrs_view_push(v: Seq<Instruction>, x: Instruction)
    ensures
        #[trigger] instrs_view(v.push(x)) == instrs_view(v).push(instr_view(x)),
{
    assert(v.push(x).drop_last() =~= v);
}

// ---------------------------------------------------------------------------
// Well-formedness: cursors in range, dates valid, recursively.
// ---------------------------------------------------------------------------

/// The cursor invariant: absent exactly on an empty list, otherwise
/// pointing inside it.
pub open spec fn cursor_ok(cur: Option<usize>, len: nat) -> bool {
    match cur {
        None => len == 0,
        Some(i) => (i as nat) < len,
    }
}

/// Where the cursor lands after appending: onto a sole first element,
/// otherwise where it was.
pub open spec fn cursor_after_add(cur: Option<usize>, old_len: nat) -> Option<usize> {
    if old_len == 0 {
        Some(0usize)
    } else {
        cur
    }
}

/// Where the cursor lands after removing the last element: cleared on an
/// emptied list, clamped back inside it when it pointed at the removed
/// element.
pub open spec fn cursor_after_pop(cur: Option<usize>, new_len: nat) -> Option<usize> {
    if new_len == 0 {
        None
    } else {
        match cur {
            Some(c) => if (c as nat) < new_len {
                Some(c)
            } else {
                Some((new_len - 1) as usize)
            },
            None => None,
        }
    }
}

/// Where the cursor lands after inserting at `idx`: shifted past the
/// insertion point so it keeps tracking the same element, or onto a sole
/// first element.
pub open spec fn cursor_after_insert(cur: Option<usize>, idx: int, old_len: nat) -> Option<
    usize,
> {
    match cur {
        Some(c) => if (c as int) < idx {
            Some(c)
        } else if c < usize::MAX {
            Some((c + 1) as usize)
        } else {
            Some(c)
        },
        None => if old_len == 0 {
            Some(0usize)
        } else {
            None
        },
    }
}

pub open spec fn instr_wf(i: InstructionV) -> bool
    decreases i,
{
    match i {
        InstructionV::Play(_s, _d) => true,
        InstructionV::SubProgram(p) => prog_wf(p),
    }
}

pub open spec fn prog_wf(p: ProgramV) -> bool
    decreases p,
{
    &&& cursor_ok(p.current_instr, p.instructions.len())
    &&& tags_wf(p.tags)
    &&& forall|j: int| 0 <= j < p.instructions.len() ==> instr_wf(#[trigger] p.instructions[j])
}

/// Where a cursor lands after stepping forward.
pub open spec fn cursor_next(cur: Option<usize>, len: nat) -> Option<usize> {
    if len > 0 {
        match cur {
            Some(c) => if c + 1 < len {
                Some((c + 1) as usize)
            } else {
                Some(c)
            },
            None => Some(0usize),
        }
    } else {
        cur
    }
}

/// Where a cursor lands after stepping backward.
pub open spec fn cursor_prev(cur: Option<usize>, len: nat) -> Option<usize> {
    if len > 0 {
        match cur {
            Some(c) => if c > 0 {
                Some((c - 1) as usize)
            } else {
                Some(c)
            },
            None => Some(0usize),
        }
    } else {
        cur
    }
}

/// Where a cursor lands after the element at `idx` is removed.
pub open spec fn cursor_after_remove(cur: Option<usize>, idx: int, new_len: nat) -> Option<
    usize,
> {
    match cur {
        None => None,
        Some(c) => if (c as int) < idx {
            Some(c)
        } else if (c as int) == idx {
            if new_len == 0 {
                None
            } else if (c as nat) < new_len {
                Some(c)
            } else {
                Some((new_len - 1) as usize)
            }
        } else {
            Some((c - 1) as usize)
        },
    }
}

impl Source {
    pub fn is_path(&self) -> (r: bool)
        ensures
            r == (self@ is Pathname),
    {
        match self {
            Source::Pathname(_) => true,
            _ => false,
        }
    }

    pub fn is_url(&self) -> (r: bool)
        ensures
            r == (self@ is URL),
    {
        match self {
            Source::URL(_) => true,
            _ => false,
        }
    }

    pub fn path(&self) -> (r: Option<&str>)
        ensures
            match r {
                Some(s) => self@ is Pathname && s@ == self@->Pathname_0,
                None => !(self@ is Pathname),
            },
    {
        match self {
            Source::Pathname(s) => Some(s.as_str()),
            _ => None,
        }
    }

    pub fn url(&self) -> (r: Option<&str>)
        ensures
            match r {
                Some(s) => self@ is URL && s@ == self@->URL_0,
                None => !(self@ is URL),
            },
    {
        match self {
            Source::URL(s) => Some(s.as_str()),
            _ => None,
        }
    }
}

impl Instruction {
    pub fn is_play(&self) -> (r: bool)
        ensures
            r == (self@ is Play),
    {
        match self {
            Instruction::Play(_, _) => true,
            _ => false,
        }
    }

    pub fn is_subprogram(&self) -> (r: bool)
        ensures
            r == (self@ is SubProgram),
    {
        match self {
            Instruction::SubProgram(_) => true,
            _ => false,
        }
    }

    pub fn start_time(&self) -> (r: Option<usize>)
        ensures
            match r {
                Some(t) => self@ is Play && t == self@->Play_0,
                None => !(self@ is Play),
            },
    {
        match self {
            Instruction::Play(x, _) => Some(*x),
            _ => None,
        }
    }

    pub fn duration(&self) -> (r: Option<usize>)
        ensures
            match r {
                Some(t) => self@ is Play && t == self@->Play_1,
                None => !(self@ is Play),
            },
    {
        match self {
            Instruction::Play(_, x) => Some(*x),
            _ => None,
        }
    }

    pub fn start_and_duration(&self) -> (r: Option<(usize, usize)>)
        ensures
            match r {
                Some(p) => self@ is Play && p.0 == self@->Play_0 && p.1 == self@->Play_1,
                None => !(self@ is Play),
            },
    {
        match self {
            Instruction::Play(x, y) => Some((*x, *y)),
            _ => None,
        }
    }

    pub fn subprogram(&self) -> (r: Option<&Program>)
        ensures
            match r {
                Some(p) => self@ is SubProgram && p@ == self@->SubProgram_0,
                None => !(self@ is SubProgram),
            },
    {
        match self {
            Instruction::SubProgram(p) => Some(p),
            _ => None,
        }
    }
}

impl Program {
    /// A program over `source` with the given tags and instructions; the
    /// cursor starts on the last instruction, or absent when there are none.
    pub fn new(source: Source, tags: Tags, instrs: Vec<Instruction>) -> (r: Program)
        ensures
            r@ == (ProgramV {
                location: source@,
                tags: tags@,
                instructions: instrs_view(instrs@),
                current_instr: if instrs@.len() == 0 {
                    None
                } else {
                    Some((instrs@.len() - 1) as usize)
                },
            }),
    {
        let current: Option<usize> = if instrs.len() == 0 {
            None
        } else {
            Some(instrs.len() - 1)
        };
        Program { location: source, tags, instructions: instrs, current_instr: current }
    }

    /// The stock example program: one whole play of a local item.
    pub fn example() -> (r: Program)
        ensures
            r@ == (ProgramV {
                location: SourceV::Pathname("example"@),
                tags: empty_tags(),
                instructions: seq![InstructionV::Play(0usize, 0usize)],
                current_instr: Some(0usize),
            }),
            prog_wf(r@),
    {
        let mut instrs: Vec<Instruction> = Vec::new();
        instrs.push(Instruction::Play(0, 0));
        proof {
            assert(instrs@.drop_last() =~= Seq::<Instruction>::empty());
            assert(instrs_view(Seq::<Instruction>::empty()) =~= Seq::<InstructionV>::empty());
            assert(instrs@.last() == Instruction::Play(0usize, 0usize));
            assert(instr_view(Instruction::Play(0usize, 0usize)) == InstructionV::Play(
                0usize,
                0usize,
            ));
            assert(instrs_view(instrs@) == instrs_view(instrs@.drop_last()).push(
                instr_view(instrs@.last()),
            ));
            assert(instrs_view(instrs@) =~= seq![InstructionV::Play(0usize, 0usize)]);
        }
        Program {
            location: Source::Pathname(String::from_str("example")),
            tags: Tags::new(),
            instructions: instrs,
            current_instr: Some(0),
        }
    }

    pub fn get_location(&self) -> (r: &Source)
        ensures
            r@ == self@.location,
    {
        &self.location
    }

    pub fn set_location(&mut self, location: &Source)
        ensures
            final (self)@ == (ProgramV { location: location@, ..old(self)@ }),
    {
        self.location = location.clone();
    }

    pub fn get_path(&self) -> (r: Option<&str>)
        ensures
            match r {
                Some(s) => self@.location is Pathname && s@ == self@.location->Pathname_0,
                None => !(self@.location is Pathname),
            },
    {
        self.location.path()
    }

    pub fn set_path(&mut self, path: &str)
        ensures
            final (self)@ == (ProgramV {
                location: SourceV::Pathname(path@),
                ..old(self)@
            }),
    {
        self.location = Source::Pathname(String::from_str(path));
    }

    pub fn get_url(&self) -> (r: Option<&str>)
        ensures
            match r {
                Some(s) => self@.location is URL && s@ == self@.location->URL_0,
                None => !(self@.location is URL),
            },
    {
        self.location.url()
    }

    pub fn set_url(&mut self, url: &str)
        ensures
            final (self)@ == (ProgramV { location: SourceV::URL(url@), ..old(self)@ }),
    {
        self.location = Source::URL(String::from_str(url));
    }

    pub fn is_location_path(&self) -> (r: bool)
        ensures
            r == (self@.location is Pathname),
    {
        self.location.is_path()
    }

    pub fn is_location_url(&self) -> (r: bool)
        ensures
            r == (self@.location is URL),
    {
        self.location.is_url()
    }

    pub fn get_tags(&self) -> (r: &Tags)
        ensures
            r@ == self@.tags,
    {
        &self.tags
    }

    pub fn set_tags(&mut self, tags: &Tags)
        ensures
            final (self)@ == (ProgramV { tags: tags@, ..old(self)@ }),
    {
        self.tags = tags.clone();
    }

    pub fn delete_all_tags(&mut self)
        ensures
            final (self)@ == (ProgramV { tags: empty_tags(), ..old(self)@ }),
    {
        self.tags = Tags::new();
    }

    pub fn get_instrs(&self) -> (r: &Vec<Instruction>)
        ensures
            instrs_view(r@) == self@.instructions,
    {
        &self.instructions
    }

    /// The instruction under the cursor, when the cursor points inside
    /// the list.
    pub fn get_current_instr(&self) -> (r: Option<&Instruction>)
        ensures
            match r {
                Some(i) => self@.current_instr matches Some(c) && (c as int) < self@.instructions.len()
                    && i@ == self@.instructions[self@.current_instr->0 as int],
                None => !(self@.current_instr matches Some(c) && (c as int)
                    < self@.instructions.len()),
            },
    {
        proof {
            lemma_instrs_view_len(self.instructions@);
        }
        match self.current_instr {
            None => None,
            Some(c) => {
                if c < self.instructions.len() {
                    proof {
                        lemma_instrs_view_index(self.instructions@, c as int);
                    }
                    Some(&self.instructions[c])
                } else {
                    None
                }
            },
        }
    }

    pub fn get_instr(&self, idx: usize) -> (r: Option<&Instruction>)
        ensures
            match r {
                Some(i) => (idx as int) < self@.instructions.len() && i@
                    == self@.instructions[idx as int],
                None => (idx as int) >= self@.instructions.len(),
            },
    {
        proof {
            lemma_instrs_view_len(self.instructions@);
        }
        if idx < self.instructions.len() {
            proof {
                lemma_instrs_view_index(self.instructions@, idx as int);
            }
            Some(&self.instructions[idx])
        } else {
            None
        }
    }

    /// Appends an instruction and steps the cursor forward onto it.
    pub fn push_instruction(&mut self, instr: &Instruction)
        ensures
            final (self)@ == (ProgramV {
                instructions: old(self)@.instructions.push(instr@),
                current_instr: cursor_next(
                    old(self)@.current_instr,
                    old(self)@.instructions.len() + 1,
                ),
                ..old(self)@
            }),
    {
        let ghost o = self@;
        let c = clone_instruction(instr);
        proof {
            lemma_instrs_view_len(self.instructions@);
            lemma_instrs_view_push(self.instructions@, c);
        }
        self.instructions.push(c);
        self.next_instr();
        proof {
            assert(self@ =~~= (ProgramV {
                instructions: o.instructions.push(instr@),
                current_instr: cursor_next(o.current_instr, o.instructions.len() + 1),
                ..o
            }));
        }
    }

    /// Inserts at `idx`, which may be one past the end; an index beyond that
    /// is an error and changes nothing.
    pub fn insert_instruction(&mut self, idx: usize, elt: &Instruction) -> (r: Result<(), String>)
        ensures
            match r {
                Ok(_) => idx as int <= old(self)@.instructions.len() && final (self)@ == (ProgramV {
                    instructions: old(self)@.instructions.insert(idx as int, elt@),
                    current_instr: cursor_after_insert(
                        old(self)@.current_instr,
                        idx as int,
                        old(self)@.instructions.len(),
                    ),
                    ..old(self)@
                }),
                Err(_) => idx as int > old(self)@.instructions.len() && final (self)@ == old(
                    self,
                )@,
            },
    {
        proof {
            lemma_instrs_view_len(self.instructions@);
        }
        if idx > self.instructions.len() {
            Err(String::from_str("Out of bounds"))
        } else {
            let ghost o = self@;
            let ghost oldv = self.instructions@;
            let was_empty = self.instructions.len() == 0;
            let c = clone_instruction(elt);
            self.instructions.insert(idx, c);
            self.current_instr = match self.current_instr {
                Some(cr) => {
                    if cr < idx {
                        Some(cr)
                    } else if cr < usize::MAX {
                        Some(cr + 1)
                    } else {
                        Some(cr)
                    }
                },
                None => {
                    if was_empty {
                        Some(0)
                    } else {
                        None
                    }
                },
            };
            proof {
                lemma_instrs_view_insert(oldv, idx as int, c);
                assert(self@ =~~= (ProgramV {
                    instructions: o.instructions.insert(idx as int, elt@),
                    current_instr: cursor_after_insert(
                        o.current_instr,
                        idx as int,
                        o.instructions.len(),
                    ),
                    ..o
                }));
            }
            Ok(())
        }
    }

    /// Removes and returns the last instruction; the cursor steps back, and
    /// clears when the list empties.
    pub fn pop_instruction(&mut self) -> (r: Option<Instruction>)
        ensures
            match r {
                Some(i) => old(self)@.instructions.len() > 0 && i@ == old(
                    self,
                )@.instructions.last() && final (self)@ == (ProgramV {
                    instructions: old(self)@.instructions.drop_last(),
                    current_instr: if old(self)@.instructions.len() == 1 {
                        None
                    } else {
                        cursor_prev(
                            old(self)@.current_instr,
                            (old(self)@.instructions.len() - 1) as nat,
                        )
                    },
                    ..old(self)@
                }),
                None => old(self)@.instructions.len() == 0 && final (self)@ == old(self)@,
            },
    {
        proof {
            lemma_instrs_view_len(self.instructions@);
            if self.instructions@.len() > 0 {
                lemma_instrs_view_index(
                    self.instructions@,
                    self.instructions@.len() - 1,
                );
                assert(instrs_view(self.instructions@.drop_last()) =~= instrs_view(
                    self.instructions@,
                ).drop_last()) by {
                    lemma_instrs_view_drop_last(self.instructions@);
                }
            }
        }
        let prog = self.instructions.pop();
        match prog {
            None => None,
            Some(i) => {
                if self.instructions.len() == 0 {
                    self.current_instr = None;
                } else {
                    self.prev_instr();
                }
                Some(i)
            },
        }
    }

    /// Removes the instruction at `idx`; an index outside the list is an
    /// error and changes nothing. The cursor keeps tracking the element it
    /// pointed at, or clamps to the list.
    pub fn remove_instruction(&mut self, idx: usize) -> (r: Result<Instruction, String>)
        ensures
            match r {
                Ok(i) => (idx as int) < old(self)@.instructions.len() && i@ == old(
                    self,
                )@.instructions[idx as int] && final (self)@ == (ProgramV {
                    instructions: old(self)@.instructions.remove(idx as int),
                    current_instr: cursor_after_remove(
                        old(self)@.current_instr,
                        idx as int,
                        (old(self)@.instructions.len() - 1) as nat,
                    ),
                    ..old(self)@
                }),
                Err(_) => idx as int >= old(self)@.instructions.len() && final (self)@ == old(
                    self,
                )@,
            },
    {
        proof {
            lemma_instrs_view_len(self.instructions@);
        }
        if idx >= self.instructions.len() {
            return Err(String::from_str("Out of bounds"));
        }
        proof {
            lemma_instrs_view_index(self.instructions@, idx as int);
            lemma_instrs_view_remove(self.instructions@, idx as int);
        }
        let removed = self.instructions.remove(idx);
        let new_len = self.instructions.len();
        self.current_instr = match self.current_instr {
            None => None,
            Some(c) => {
                if c < idx {
                    Some(c)
                } else if c == idx {
                    if new_len == 0 {
                        None
                    } else if c < new_len {
                        Some(c)
                    } else {
                        Some(new_len - 1)
                    }
                } else {
                    Some(c - 1)
                }
            },
        };
        Ok(removed)
    }

    /// Sets the cursor; an index outside the list is an error.
    pub fn set_current_instr_idx(&mut self, idx: usize) -> (r: Result<(), String>)
        ensures
            match r {
                Ok(_) => (idx as int) < old(self)@.instructions.len() && final (self)@ == (ProgramV {
                    current_instr: Some(idx),
                    ..old(self)@
                }),
                Err(_) => idx as int >= old(self)@.instructions.len() && final (self)@ == old(
                    self,
                )@,
            },
    {
        proof {
            lemma_instrs_view_len(self.instructions@);
        }
        if idx >= self.instructions.len() {
            Err(String::from_str("Out of bounds"))
        } else {
            self.current_instr = Some(idx);
            Ok(())
        }
    }

    pub fn next_instr(&mut self)
        ensures
            final (self)@ == (ProgramV {
                current_instr: cursor_next(
                    old(self)@.current_instr,
                    old(self)@.instructions.len(),
                ),
                ..old(self)@
            }),
    {
        proof {
            lemma_instrs_view_len(self.instructions@);
        }
        let len = self.instructions.len();
        self.current_instr = match self.current_instr {
            Some(c) => {
                if len > 0 && c < len - 1 {
                    Some(c + 1)
                } else {
                    Some(c)
                }
            },
            None => {
                if len > 0 {
                    Some(0)
                } else {
                    None
                }
            },
        };
    }

    pub fn prev_instr(&mut self)
        ensures
            final (self)@ == (ProgramV {
                current_instr: cursor_prev(
                    old(self)@.current_instr,
                    old(self)@.instructions.len(),
                ),
                ..old(self)@
            }),
    {
        proof {
            lemma_instrs_view_len(self.instructions@);
        }
        let len = self.instructions.len();
        self.current_instr = match self.current_instr {
            Some(c) => {
                if len > 0 && c > 0 {
                    Some(c - 1)
                } else {
                    Some(c)
                }
            },
            None => {
                if len > 0 {
                    Some(0)
                } else {
                    None
                }
            },
        };
    }
}

pub broadcast proof fn lemma_instrs_view_insert(v: Seq<Instruction>, i: int, x: Instruction)
    requires
        0 <= i <= v.len(),
    ensures
        #[trigger] instrs_view(v.insert(i, x)) == instrs_view(v).insert(i, instr_view(x)),
    decreases v.len(),
{
    lemma_instrs_view_len(v);
    if i == v.len() {
        assert(v.insert(i, x) =~= v.push(x));
        lemma_instrs_view_push(v, x);
        assert(instrs_view(v).insert(i, instr_view(x)) =~= instrs_view(v).push(instr_view(x)));
    } else {
        let w = v.insert(i, x);
        assert(w.drop_last() =~= v.drop_last().insert(i, x));
        assert(w.last() == v.last());
        lemma_instrs_view_insert(v.drop_last(), i, x);
        lemma_instrs_view_len(v.drop_last());
        assert(instrs_view(w) == instrs_view(v.drop_last()).insert(i, instr_view(x)).push(
            instr_view(v.last()),
        ));
        assert(instrs_view(v.drop_last()).insert(i, instr_view(x)).push(instr_view(v.last()))
            =~= instrs_view(v).insert(i, instr_view(x)));
    }
}

pub broadcast proof fn lemma_instrs_view_remove(v: Seq<Instruction>, i: int)
    requires
        0 <= i < v.len(),
    ensures
        #[trigger] instrs_view(v.remove(i)) == instrs_view(v).remove(i),
    decreases v.len(),
{
    lemma_instrs_view_len(v);
    if i == v.len() - 1 {
        assert(v.remove(i) =~= v.drop_last());
        lemma_instrs_view_drop_last(v);
        assert(instrs_view(v).remove(i) =~= instrs_view(v).drop_last());
    } else {
        let w = v.remove(i);
        assert(w.drop_last() =~= v.drop_last().remove(i));
        assert(w.last() == v.last());
        lemma_instrs_view_remove(v.drop_last(), i);
        lemma_instrs_view_len(v.drop_last());
        assert(instrs_view(w) == instrs_view(v.drop_last()).remove(i).push(
            instr_view(v.last()),
        ));
        assert(instrs_view(v.drop_last()).remove(i).push(instr_view(v.last())) =~= instrs_view(
            v,
        ).remove(i));
    }
}

pub broadcast proof fn lemma_instrs_view_drop_last(v: Seq<Instruction>)
    requires
        v.len() > 0,
    ensures
        #[trigger] instrs_view(v.drop_last()) == instrs_view(v).drop_last(),
{
    lemma_instrs_view_len(v);
    lemma_instrs_view_len(v.drop_last());
    assert(instrs_view(v).drop_last() =~= instrs_view(v.drop_last()));
}


/// A deep copy of an instruction, preserving its mathematical value.
pub fn clone_instruction(i: &Instruction) -> (r: Instruction)
    ensures
        r@ == i@,
    decreases *i,
{
    match i {
        Instruction::Play(s, d) => Instruction::Play(*s, *d),
        Instruction::SubProgram(p) => Instruction::SubProgram(Box::new(clone_program(p))),
    }
}

/// A deep copy of a program, preserving its mathematical value.
pub fn clone_program(p: &Program) -> (r: Program)
    ensures
        r@ == p@,
    decreases *p,
{
    let mut instrs: Vec<Instruction> = Vec::new();
    let n = p.instructions.len();
    let mut i: usize = 0;
    while i < n
        invariant
            0 <= i <= n,
            n == p.instructions@.len(),
            instrs@.len() == i,
            forall|j: int| 0 <= j < i ==> (#[trigger] instrs@[j])@ == p.instructions@[j]@,
        decreases n - i,
    {
        instrs.push(clone_instruction(&p.instructions[i]));
        i = i + 1;
    }
    proof {
        lemma_views_eq(instrs@, p.instructions@);
    }
    let r = Program {
        location: p.location.clone(),
        tags: p.tags.clone(),
        instructions: instrs,
        current_instr: p.current_instr,
    };
    proof {
        assert(r@ =~~= p@);
    }
    r
}

/// Two instruction lists with elementwise equal values have equal values.
proof fn lemma_views_eq(a: Seq<Instruction>, b: Seq<Instruction>)
    requires
        a.len() == b.len(),
        forall|j: int| 0 <= j < a.len() ==> (#[trigger] a[j])@ == b[j]@,
    ensures
        instrs_view(a) == instrs_view(b),
    decreases a.len(),
{
    if a.len() > 0 {
        lemma_views_eq(a.drop_last(), b.drop_last());
        assert(instrs_view(a) =~= instrs_view(b));
    }
}

impl Clone for Instruction {
    /// A clone keeps the instruction's mathematical value.
    fn clone(&self) -> (r: Self)
        ensures
            r@ == self@,
    {
        clone_instruction(self)
    }
}

impl Clone for Program {
    /// A clone keeps the program's mathematical value.
    fn clone(&self) -> (r: Self)
        ensures
            r@ == self@,
    {
        clone_program(self)
    }
}


/// The view of an instruction is `instr_view`; stated once, for use
/// outside this module.
pub broadcast proof fn lemma_instr_view_is_view(i: Instruction)
    ensures
        #[trigger] instr_view(i) == i@,
{
}

/// The view of a program is `prog_view`; stated once, for use
/// outside this module.
pub broadcast proof fn lemma_prog_view_is_view(p: Program)
    ensures
        #[trigger] prog_view(p) == p@,
{
}



// ---------------------------------------------------------------------------
// Rendering, placed here so the mutual recursion over the program tree can
// walk the fields directly.
// ---------------------------------------------------------------------------

pub(crate) fn push_instr(out: &mut Vec<char>, i: &Instruction)
    ensures
        final (out)@ == old(out)@ + instr_text(i@),
    decreases *i,
{
    let ghost ov = out@;
    match i {
        Instruction::Play(a, b) => {
            crate::serialize::push_lit(out, "(play ");
            crate::serialize::push_time(out, *a);
            out.push(' ');
            crate::serialize::push_time(out, *b);
            out.push(')');
            proof {
                assert(out@ =~= ov + instr_text(i@));
            }
        },
        Instruction::SubProgram(p) => {
            push_prog(out, p);
            proof {
                assert(out@ =~= ov + instr_text(i@));
            }
        },
    }
}

pub(crate) fn push_prog(out: &mut Vec<char>, p: &Program)
    ensures
        final (out)@ == old(out)@ + prog_text(p@),
    decreases *p,
{
    let ghost ov = out@;
    crate::serialize::push_lit(out, "(program ");
    crate::serialize::push_source(out, &p.location);
    crate::serialize::push_tags(out, &p.tags);
    crate::serialize::push_lit(out, "(instr ");
    let ghost iv = p@.instructions;
    proof {
        lemma_instrs_view_len(p.instructions@);
    }
    let mut i: usize = 0;
    while i < p.instructions.len()
        invariant
            0 <= i <= p.instructions@.len(),
            iv == instrs_view(p.instructions@),
            iv.len() == p.instructions@.len(),
            out@ == ov + "(program "@ + loc_text(p@.location) + tags_text(p@.tags) + "(instr "@
                + instr_items(iv.take(i as int)),
        decreases p.instructions@.len() - i,
    {
        proof {
            lemma_instrs_view_index(p.instructions@, i as int);
        }
        push_instr(out, &p.instructions[i]);
        proof {
            assert(iv.take(i + 1).drop_last() =~= iv.take(i as int));
            assert(out@ =~= ov + "(program "@ + loc_text(p@.location) + tags_text(p@.tags)
                + "(instr "@ + instr_items(iv.take(i + 1)));
        }
        i = i + 1;
    }
    out.push(')');
    out.push(')');
    proof {
        assert(iv.take(iv.len() as int) =~= iv);
        assert(out@ =~= ov + prog_text(p@));
    }
}

} // verus!
