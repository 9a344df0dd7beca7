//! Batch generation of schedules from template entry lists, with validated,
//! time-anchored filler insertion from a cyclic pool.

use vstd::prelude::*;
use crate::chars::{chars_to_string, dec_digits, push_dec, str_to_chars};
use crate::program::{instrs_view, Instruction, InstructionV, Program, ProgramV, Source, SourceV};
use crate::schedule::{progs_view, Schedule, ScheduleV};
use crate::tags::{empty_tags, Tags, TagsV};

verus! {

broadcast use {
    crate::program::lemma_prog_view_is_view,
    crate::program::lemma_instr_view_is_view,
    crate::program::lemma_instrs_view_len,
    crate::program::lemma_instrs_view_index,
};

/// A time anchor for one filler insertion inside an item's play window.
#[derive(Clone, Copy, PartialEq, Eq, Structural, Debug)]
pub enum Placement {
    Beginning,
    Middle(usize),
    End,
}

/// How many fillers to insert per generated item, and where.
#[derive(Clone, Copy, PartialEq, Eq, Structural, Debug)]
pub enum FillType {
    Once(Placement),
    Twice(Placement, Placement),
    Thrice(Placement, Placement, Placement),
    NoFill,
}

/// Chronological order of placements: a beginning comes before anything,
/// middles are ordered by their times, an end comes after anything.
pub open spec fn place_le(a: Placement, b: Placement) -> bool {
    match (a, b) {
        (Placement::Beginning, _) => true,
        (Placement::Middle(x), Placement::Middle(y)) => x <= y,
        (Placement::Middle(_), Placement::End) => true,
        (Placement::Middle(_), Placement::Beginning) => false,
        (Placement::End, Placement::End) => true,
        (Placement::End, _) => false,
    }
}

/// A fill pattern is valid when its placements are chronologically
/// non-decreasing.
pub open spec fn filltype_valid(f: FillType) -> bool {
    match f {
        FillType::Once(_) => true,
        FillType::Twice(x, y) => place_le(x, y),
        FillType::Thrice(x, y, z) => place_le(x, y) && place_le(y, z),
        FillType::NoFill => true,
    }
}

fn place_le_exec(a: &Placement, b: &Placement) -> (r: bool)
    ensures
        r == place_le(*a, *b),
{
    match (a, b) {
        (Placement::Beginning, _) => true,
        (Placement::Middle(x), Placement::Middle(y)) => *x <= *y,
        (Placement::Middle(_), Placement::End) => true,
        (Placement::Middle(_), Placement::Beginning) => false,
        (Placement::End, Placement::End) => true,
        (Placement::End, _) => false,
    }
}

impl FillType {
    /// Accepts exactly the chronologically ordered placement patterns.
    pub fn validate(&self) -> (r: Result<(), String>)
        ensures
            r is Ok <==> filltype_valid(*self),
    {
        match self {
            FillType::Once(_) => Ok(()),
            FillType::Twice(x, y) => {
                if place_le_exec(x, y) {
                    Ok(())
                } else {
                    match (x, y) {
                        (Placement::Middle(_), Placement::Middle(_)) => Err(
                            String::from_str("Mismatched time placements"),
                        ),
                        _ => Err(String::from_str("Bad placement composition")),
                    }
                }
            },
            FillType::Thrice(x, y, z) => {
                if place_le_exec(x, y) && place_le_exec(y, z) {
                    Ok(())
                } else {
                    match ((x, y), (y, z)) {
                        ((Placement::Middle(_), Placement::Middle(_)), _) => Err(
                            String::from_str("Mismatched time placements"),
                        ),
                        (_, (Placement::Middle(_), Placement::Middle(_))) => Err(
                            String::from_str("Mismatched time placements"),
                        ),
                        _ => Err(String::from_str("Bad placement composition")),
                    }
                }
            },
            FillType::NoFill => Ok(()),
        }
    }
}

// ---------------------------------------------------------------------------
// The filler pool.
// ---------------------------------------------------------------------------

/// The value of a filler iterator: its pattern, its pool and its position.
pub ghost struct FillerV {
    pub filltype: FillType,
    pub media: Seq<Seq<char>>,
    pub pos: usize,
}

pub struct FillerIterator {
    filltype: FillType,
    fillmedia: Vec<String>,
    fill_pos: usize,
}

impl View for FillerIterator {
    type V = FillerV;

    closed spec fn view(&self) -> FillerV {
        FillerV {
            filltype: self.filltype,
            media: Seq::new(self.fillmedia@.len(), |i: int| self.fillmedia@[i]@),
            pos: self.fill_pos,
        }
    }
}

/// The pool position after taking one slot: the pool wraps cyclically.
pub open spec fn step_pos(len: nat, pos: nat) -> nat {
    if pos + 1 >= len {
        0
    } else {
        pos + 1
    }
}

/// How many fillers one item of each pattern consumes.
pub open spec fn fill_arity(f: FillType) -> nat {
    match f {
        FillType::NoFill => 0,
        FillType::Once(_) => 1,
        FillType::Twice(_, _) => 2,
        FillType::Thrice(_, _, _) => 3,
    }
}

/// The pool position after one whole item of the pattern.
pub open spec fn pos_after_item(f: FillType, len: nat, pos: nat) -> nat
    decreases fill_arity(f),
{
    if len == 0 {
        pos
    } else {
        match f {
            FillType::NoFill => pos,
            FillType::Once(_) => step_pos(len, pos),
            FillType::Twice(_, _) => step_pos(len, step_pos(len, pos)),
            FillType::Thrice(_, _, _) => step_pos(len, step_pos(len, step_pos(len, pos))),
        }
    }
}

/// The whole sub-program built around one filler location: the filler item
/// played whole.
pub open spec fn subprog_of(loc: Seq<char>) -> InstructionV {
    InstructionV::SubProgram(
        ProgramV {
            location: SourceV::Pathname(loc),
            tags: empty_tags(),
            instructions: seq![InstructionV::Play(0usize, 0usize)],
            current_instr: Some(0usize),
        },
    )
}

/// The instruction list for one insertion.
pub open spec fn fill_once(p: Placement, l: Seq<char>) -> Seq<InstructionV> {
    match p {
        Placement::Beginning => seq![subprog_of(l), InstructionV::Play(0usize, 0usize)],
        Placement::Middle(t) => seq![
            InstructionV::Play(0usize, t),
            subprog_of(l),
            InstructionV::Play(t, 0usize),
        ],
        Placement::End => seq![InstructionV::Play(0usize, 0usize), subprog_of(l)],
    }
}

/// The instruction list for two insertions, in chronological order.
pub open spec fn fill_twice(p1: Placement, p2: Placement, l1: Seq<char>, l2: Seq<char>) -> Seq<
    InstructionV,
> {
    match (p1, p2) {
        (Placement::Beginning, Placement::Beginning) => seq![
            subprog_of(l1),
            subprog_of(l2),
            InstructionV::Play(0usize, 0usize),
        ],
        (Placement::Beginning, Placement::Middle(t)) => seq![
            subprog_of(l1),
            InstructionV::Play(0usize, t),
            subprog_of(l2),
            InstructionV::Play(t, 0usize),
        ],
        (Placement::Beginning, Placement::End) => seq![
            subprog_of(l1),
            InstructionV::Play(0usize, 0usize),
            subprog_of(l2),
        ],
        (Placement::Middle(t), Placement::End) => seq![
            InstructionV::Play(0usize, t),
            subprog_of(l1),
            InstructionV::Play(t, 0usize),
            subprog_of(l2),
        ],
        (Placement::Middle(t1), Placement::Middle(t2)) => seq![
            InstructionV::Play(0usize, t1),
            subprog_of(l1),
            InstructionV::Play(t1, (t2 - t1) as usize),
            subprog_of(l2),
            InstructionV::Play(t2, 0usize),
        ],
        (Placement::End, Placement::End) => seq![
            InstructionV::Play(0usize, 0usize),
            subprog_of(l1),
            subprog_of(l2),
        ],
        _ => Seq::empty(),
    }
}

/// The instruction list for three insertions, in chronological order.
pub open spec fn fill_thrice(
    p1: Placement,
    p2: Placement,
    p3: Placement,
    l1: Seq<char>,
    l2: Seq<char>,
    l3: Seq<char>,
) -> Seq<InstructionV> {
    match (p1, p2, p3) {
        (Placement::Beginning, Placement::Beginning, Placement::Beginning) => seq![
            subprog_of(l1),
            subprog_of(l2),
            subprog_of(l3),
            InstructionV::Play(0usize, 0usize),
        ],
        (Placement::Beginning, Placement::Beginning, Placement::Middle(t)) => seq![
            subprog_of(l1),
            subprog_of(l2),
            InstructionV::Play(0usize, t),
            subprog_of(l3),
            InstructionV::Play(t, 0usize),
        ],
        (Placement::Beginning, Placement::Beginning, Placement::End) => seq![
            subprog_of(l1),
            subprog_of(l2),
            InstructionV::Play(0usize, 0usize),
            subprog_of(l3),
        ],
        (Placement::Beginning, Placement::End, Placement::End) => seq![
            subprog_of(l1),
            InstructionV::Play(0usize, 0usize),
            subprog_of(l2),
            subprog_of(l3),
        ],
        (Placement::Middle(t), Placement::End, Placement::End) => seq![
            InstructionV::Play(0usize, t),
            subprog_of(l1),
            InstructionV::Play(t, 0usize),
            subprog_of(l2),
            subprog_of(l3),
        ],
        (Placement::Beginning, Placement::Middle(t), Placement::End) => seq![
            subprog_of(l1),
            InstructionV::Play(0usize, t),
            subprog_of(l2),
            InstructionV::Play(t, 0usize),
            subprog_of(l3),
        ],
        (Placement::Beginning, Placement::Middle(t1), Placement::Middle(t2)) => seq![
            subprog_of(l1),
            InstructionV::Play(0usize, t1),
            subprog_of(l2),
            InstructionV::Play(t1, (t2 - t1) as usize),
            subprog_of(l3),
            InstructionV::Play(t2, 0usize),
        ],
        (Placement::Middle(t1), Placement::Middle(t2), Placement::Middle(t3)) => seq![
            InstructionV::Play(0usize, t1),
            subprog_of(l1),
            InstructionV::Play(t1, (t2 - t1) as usize),
            subprog_of(l2),
            InstructionV::Play(t2, (t3 - t2) as usize),
            subprog_of(l3),
            InstructionV::Play(t3, 0usize),
        ],
        (Placement::Middle(t1), Placement::Middle(t2), Placement::End) => seq![
            InstructionV::Play(0usize, t1),
            subprog_of(l1),
            InstructionV::Play(t1, (t2 - t1) as usize),
            subprog_of(l2),
            InstructionV::Play(t2, 0usize),
            subprog_of(l3),
        ],
        (Placement::End, Placement::End, Placement::End) => seq![
            InstructionV::Play(0usize, 0usize),
            subprog_of(l1),
            subprog_of(l2),
            subprog_of(l3),
        ],
        _ => Seq::empty(),
    }
}

/// The instruction list one generated item receives, drawing fillers from
/// the pool starting at `pos`.
pub open spec fn fill_pattern(f: FillType, media: Seq<Seq<char>>, pos: nat) -> Seq<
    InstructionV,
> {
    let len = media.len();
    let l1 = media[pos as int];
    let l2 = media[step_pos(len, pos) as int];
    let l3 = media[step_pos(len, step_pos(len, pos)) as int];
    match f {
        FillType::NoFill => seq![InstructionV::Play(0usize, 0usize)],
        FillType::Once(p) => fill_once(p, l1),
        FillType::Twice(p1, p2) => fill_twice(p1, p2, l1, l2),
        FillType::Thrice(p1, p2, p3) => fill_thrice(p1, p2, p3, l1, l2, l3),
    }
}

/// A usable filler pool: valid pattern, position inside the pool, and a
/// non-empty pool whenever the pattern draws from it.
pub open spec fn filler_wf(f: FillerV) -> bool {
    &&& filltype_valid(f.filltype)
    &&& (fill_arity(f.filltype) > 0 ==> f.media.len() > 0)
    &&& (f.media.len() > 0 ==> (f.pos as nat) < f.media.len())
    &&& (f.media.len() == 0 ==> f.pos == 0)
}

impl FillerIterator {
    /// A pool with a validated pattern; an unordered pattern is refused.
    /// A pattern that draws fillers needs a non-empty pool.
    pub fn new(filltype: FillType, filler: Vec<String>) -> (r: Result<FillerIterator, String>)
        ensures
            match r {
                Ok(f) => filltype_valid(filltype) && f@ == (FillerV {
                    filltype,
                    media: Seq::new(filler@.len(), |i: int| filler@[i]@),
                    pos: 0usize,
                }) && ((fill_arity(filltype) == 0 || filler@.len() > 0) ==> filler_wf(f@)),
                Err(_) => !filltype_valid(filltype) || (fill_arity(filltype) > 0 && filler@.len()
                    == 0),
            },
    {
        if let Err(e) = filltype.validate() {
            return Err(e);
        }
        let needs_pool = match filltype {
            FillType::NoFill => false,
            _ => true,
        };
        if needs_pool && filler.len() == 0 {
            return Err(String::from_str("An empty filler pool cannot fill"));
        }
        let r = FillerIterator { filltype, fillmedia: filler, fill_pos: 0 };
        proof {
            assert(r@.media =~= Seq::new(r.fillmedia@.len(), |i: int| r.fillmedia@[i]@));
        }
        Ok(r)
    }

    /// One filler drawn from the pool as a whole-play sub-program; the pool
    /// position steps forward and wraps.
    pub fn make_subprog(&mut self) -> (r: Instruction)
        requires
            old(self)@.media.len() > 0,
            (old(self)@.pos as nat) < old(self)@.media.len(),
        ensures
            r@ == subprog_of(old(self)@.media[old(self)@.pos as int]),
            final (self)@.filltype == old(self)@.filltype,
            final (self)@.media == old(self)@.media,
            final (self)@.pos as nat == step_pos(old(self)@.media.len(), old(self)@.pos as nat),
    {
        let ghost o = self@;
        let loc = self.fillmedia[self.fill_pos].clone();
        let mut iv: Vec<Instruction> = Vec::new();
        iv.push(Instruction::Play(0, 0));
        let prog = Program::new(Source::Pathname(loc), Tags::new(), iv);
        let subprog = Instruction::SubProgram(Box::new(prog));
        if self.fill_pos >= self.fillmedia.len() - 1 {
            self.fill_pos = 0;
        } else {
            self.fill_pos = self.fill_pos + 1;
        }
        proof {
            assert(instrs_view(iv@) =~= seq![InstructionV::Play(0usize, 0usize)]);
            assert(o.media[o.pos as int] == self.fillmedia@[o.pos as int]@);
            assert(subprog@ == subprog_of(o.media[o.pos as int]));
            assert(self@.media =~= o.media);
        }
        subprog
    }

    /// The instruction list for one generated item, drawing as many fillers
    /// as the pattern asks for.
    pub fn next(&mut self) -> (r: Option<Vec<Instruction>>)
        requires
            filler_wf(old(self)@),
        ensures
            r is Some,
            instrs_view(r->Some_0@) == fill_pattern(
                old(self)@.filltype,
                old(self)@.media,
                old(self)@.pos as nat,
            ),
            final (self)@.filltype == old(self)@.filltype,
            final (self)@.media == old(self)@.media,
            final (self)@.pos as nat == pos_after_item(
                old(self)@.filltype,
                old(self)@.media.len(),
                old(self)@.pos as nat,
            ),
            filler_wf(final (self)@),
    {
        let ghost o = self@;
        let ft = self.filltype;
        let instrs: Vec<Instruction> = match ft {
            FillType::NoFill => {
                let mut v: Vec<Instruction> = Vec::new();
                v.push(Instruction::Play(0, 0));
                proof {
                    assert(instrs_view(v@) =~= seq![InstructionV::Play(0usize, 0usize)]);
                }
                v
            },
            FillType::Once(p) => {
                let s1 = self.make_subprog();
                let v = build_once(&p, s1);
                v
            },
            FillType::Twice(p1, p2) => {
                let s1 = self.make_subprog();
                let s2 = self.make_subprog();
                let v = build_twice(&p1, &p2, s1, s2);
                v
            },
            FillType::Thrice(p1, p2, p3) => {
                let s1 = self.make_subprog();
                let s2 = self.make_subprog();
                let s3 = self.make_subprog();
                let v = build_thrice(&p1, &p2, &p3, s1, s2, s3);
                v
            },
        };
        proof {
            assert(self@.media =~= o.media);
        }
        Some(instrs)
    }
}

/// The single-insertion pattern around one drawn filler.
fn build_once(p: &Placement, s1: Instruction) -> (v: Vec<Instruction>)
    requires
        s1@ == subprog_of(spec_sub_loc(s1)),
    ensures
        instrs_view(v@) == fill_once(*p, spec_sub_loc(s1)),
{
    let mut v: Vec<Instruction> = Vec::new();
    match p {
        Placement::Beginning => {
            v.push(s1);
            v.push(Instruction::Play(0, 0));
        },
        Placement::Middle(t) => {
            v.push(Instruction::Play(0, *t));
            v.push(s1);
            v.push(Instruction::Play(*t, 0));
        },
        Placement::End => {
            v.push(Instruction::Play(0, 0));
            v.push(s1);
        },
    }
    proof {
        assert(instrs_view(v@) =~= fill_once(*p, spec_sub_loc(s1)));
    }
    v
}

/// The location a whole-play sub-program instruction points at.
pub open spec fn spec_sub_loc(i: Instruction) -> Seq<char> {
    match i@ {
        InstructionV::SubProgram(p) => match p.location {
            SourceV::Pathname(l) => l,
            SourceV::URL(l) => l,
        },
        InstructionV::Play(_, _) => Seq::empty(),
    }
}

fn build_twice(p1: &Placement, p2: &Placement, s1: Instruction, s2: Instruction) -> (v: Vec<
    Instruction,
>)
    requires
        place_le(*p1, *p2),
        s1@ == subprog_of(spec_sub_loc(s1)),
        s2@ == subprog_of(spec_sub_loc(s2)),
    ensures
        instrs_view(v@) == fill_twice(*p1, *p2, spec_sub_loc(s1), spec_sub_loc(s2)),
{
    let mut v: Vec<Instruction> = Vec::new();
    match (p1, p2) {
        (Placement::Beginning, Placement::Beginning) => {
            v.push(s1);
            v.push(s2);
            v.push(Instruction::Play(0, 0));
        },
        (Placement::Beginning, Placement::Middle(t)) => {
            v.push(s1);
            v.push(Instruction::Play(0, *t));
            v.push(s2);
            v.push(Instruction::Play(*t, 0));
        },
        (Placement::Beginning, Placement::End) => {
            v.push(s1);
            v.push(Instruction::Play(0, 0));
            v.push(s2);
        },
        (Placement::Middle(t), Placement::End) => {
            v.push(Instruction::Play(0, *t));
            v.push(s1);
            v.push(Instruction::Play(*t, 0));
            v.push(s2);
        },
        (Placement::Middle(t1), Placement::Middle(t2)) => {
            v.push(Instruction::Play(0, *t1));
            v.push(s1);
            v.push(Instruction::Play(*t1, *t2 - *t1));
            v.push(s2);
            v.push(Instruction::Play(*t2, 0));
        },
        (Placement::End, Placement::End) => {
            v.push(Instruction::Play(0, 0));
            v.push(s1);
            v.push(s2);
        },
        (Placement::Middle(_), Placement::Beginning) => {
            proof {
                assert(false);
            }
        },
        (Placement::End, Placement::Beginning) => {
            proof {
                assert(false);
            }
        },
        (Placement::End, Placement::Middle(_)) => {
            proof {
                assert(false);
            }
        },
    }
    proof {
        assert(instrs_view(v@) =~= fill_twice(*p1, *p2, spec_sub_loc(s1), spec_sub_loc(s2)));
    }
    v
}

fn build_thrice(
    p1: &Placement,
    p2: &Placement,
    p3: &Placement,
    s1: Instruction,
    s2: Instruction,
    s3: Instruction,
) -> (v: Vec<Instruction>)
    requires
        place_le(*p1, *p2),
        place_le(*p2, *p3),
        s1@ == subprog_of(spec_sub_loc(s1)),
        s2@ == subprog_of(spec_sub_loc(s2)),
        s3@ == subprog_of(spec_sub_loc(s3)),
    ensures
        instrs_view(v@) == fill_thrice(
            *p1,
            *p2,
            *p3,
            spec_sub_loc(s1),
            spec_sub_loc(s2),
            spec_sub_loc(s3),
        ),
{
    let mut v: Vec<Instruction> = Vec::new();
    match (p1, p2, p3) {
        (Placement::Beginning, Placement::Beginning, Placement::Beginning) => {
            v.push(s1);
            v.push(s2);
            v.push(s3);
            v.push(Instruction::Play(0, 0));
        },
        (Placement::Beginning, Placement::Beginning, Placement::Middle(t)) => {
            v.push(s1);
            v.push(s2);
            v.push(Instruction::Play(0, *t));
            v.push(s3);
            v.push(Instruction::Play(*t, 0));
        },
        (Placement::Beginning, Placement::Beginning, Placement::End) => {
            v.push(s1);
            v.push(s2);
            v.push(Instruction::Play(0, 0));
            v.push(s3);
        },
        (Placement::Beginning, Placement::End, Placement::End) => {
            v.push(s1);
            v.push(Instruction::Play(0, 0));
            v.push(s2);
            v.push(s3);
        },
        (Placement::Middle(t), Placement::End, Placement::End) => {
            v.push(Instruction::Play(0, *t));
            v.push(s1);
            v.push(Instruction::Play(*t, 0));
            v.push(s2);
            v.push(s3);
        },
        (Placement::Beginning, Placement::Middle(t), Placement::End) => {
            v.push(s1);
            v.push(Instruction::Play(0, *t));
            v.push(s2);
            v.push(Instruction::Play(*t, 0));
            v.push(s3);
        },
        (Placement::Beginning, Placement::Middle(t1), Placement::Middle(t2)) => {
            v.push(s1);
            v.push(Instruction::Play(0, *t1));
            v.push(s2);
            v.push(Instruction::Play(*t1, *t2 - *t1));
            v.push(s3);
            v.push(Instruction::Play(*t2, 0));
        },
        (Placement::Middle(t1), Placement::Middle(t2), Placement::Middle(t3)) => {
            v.push(Instruction::Play(0, *t1));
            v.push(s1);
            v.push(Instruction::Play(*t1, *t2 - *t1));
            v.push(s2);
            v.push(Instruction::Play(*t2, *t3 - *t2));
            v.push(s3);
            v.push(Instruction::Play(*t3, 0));
        },
        (Placement::Middle(t1), Placement::Middle(t2), Placement::End) => {
            v.push(Instruction::Play(0, *t1));
            v.push(s1);
            v.push(Instruction::Play(*t1, *t2 - *t1));
            v.push(s2);
            v.push(Instruction::Play(*t2, 0));
            v.push(s3);
        },
        (Placement::End, Placement::End, Placement::End) => {
            v.push(Instruction::Play(0, 0));
            v.push(s1);
            v.push(s2);
            v.push(s3);
        },
        _ => {
            proof {
                assert(false);
            }
        },
    }
    proof {
        assert(instrs_view(v@) =~= fill_thrice(
            *p1,
            *p2,
            *p3,
            spec_sub_loc(s1),
            spec_sub_loc(s2),
            spec_sub_loc(s3),
        ));
    }
    v
}


// ---------------------------------------------------------------------------
// The batch generator.
// ---------------------------------------------------------------------------

pub open spec fn strings_view(v: Seq<String>) -> Seq<Seq<char>> {
    Seq::new(v.len(), |i: int| v[i]@)
}

/// Batches a list of `len` items yields at `rep` per batch: plain ceiling
/// division.
pub open spec fn ceil_div(len: int, rep: int) -> int {
    if len == 0 {
        0
    } else {
        (len - 1) / rep + 1
    }
}

/// The batch count of a whole run: the largest over the entry lists.
pub open spec fn total_batches(entries: Seq<Seq<Seq<char>>>, repeat: Seq<usize>) -> int
    decreases entries.len(),
{
    if entries.len() == 0 {
        0
    } else {
        let rest = total_batches(entries.drop_first(), repeat.drop_first());
        let mine = ceil_div(entries[0].len() as int, repeat[0] as int);
        if mine > rest {
            mine
        } else {
            rest
        }
    }
}

/// The sliding window of one entry list for batch `n` of size `take`.
pub open spec fn window<A>(list: Seq<A>, skip: int, take: int) -> Seq<A> {
    if skip >= list.len() {
        Seq::empty()
    } else if skip + take <= list.len() {
        list.subrange(skip, skip + take)
    } else {
        list.subrange(skip, list.len() as int)
    }
}

/// Batch `n`'s item queue: the windows of every entry list, in list order.
pub open spec fn queue_of(entries: Seq<Seq<Seq<char>>>, repeat: Seq<usize>, n: int) -> Seq<
    Seq<char>,
>
    decreases entries.len(),
{
    if entries.len() == 0 {
        Seq::empty()
    } else {
        window(entries[0], n * (repeat[0] as int), repeat[0] as int) + queue_of(
            entries.drop_first(),
            repeat.drop_first(),
            n,
        )
    }
}

/// Batch `n`'s tag queue, zipped positionally with the item queue.
pub open spec fn tagq_of(tags: Seq<Seq<TagsV>>, repeat: Seq<usize>, n: int) -> Seq<TagsV>
    decreases tags.len(),
{
    if tags.len() == 0 {
        Seq::empty()
    } else {
        window(tags[0], n * (repeat[0] as int), repeat[0] as int) + tagq_of(
            tags.drop_first(),
            repeat.drop_first(),
            n,
        )
    }
}

/// One generated program: the item's location, its tags, and the filler
/// pattern's instruction list, cursor on the last instruction.
pub open spec fn mk_prog(loc: Seq<char>, tags: TagsV, instrs: Seq<InstructionV>) -> ProgramV {
    ProgramV {
        location: SourceV::Pathname(loc),
        tags,
        instructions: instrs,
        current_instr: if instrs.len() == 0 {
            None
        } else {
            Some((instrs.len() - 1) as usize)
        },
    }
}

/// The pool position after `k` whole items.
pub open spec fn pos_after_batch(f: FillType, len: nat, pos: nat, k: nat) -> nat
    decreases k,
{
    if k == 0 {
        pos
    } else {
        pos_after_batch(f, len, pos_after_item(f, len, pos), (k - 1) as nat)
    }
}

/// The programs of one batch, drawing fillers from the rotating pool.
pub open spec fn batch_programs(
    queue: Seq<Seq<char>>,
    tagq: Seq<TagsV>,
    f: FillType,
    media: Seq<Seq<char>>,
    pos: nat,
) -> Seq<ProgramV>
    decreases queue.len(),
{
    if queue.len() == 0 {
        Seq::empty()
    } else {
        seq![mk_prog(queue[0], tagq[0], fill_pattern(f, media, pos))] + batch_programs(
            queue.drop_first(),
            tagq.drop_first(),
            f,
            media,
            pos_after_item(f, media.len(), pos),
        )
    }
}

/// The zero padding that keeps every batch number in a run at the same
/// width as the total.
pub open spec fn batch_pad(longest: int, num: int) -> Seq<char> {
    if longest < 10 {
        Seq::empty()
    } else if longest < 100 {
        if num < 10 {
            seq!['0']
        } else {
            Seq::empty()
        }
    } else {
        if num < 10 {
            seq!['0', '0']
        } else if num < 100 {
            seq!['0']
        } else {
            Seq::empty()
        }
    }
}

/// The name of batch `num` in a run of `longest`.
pub open spec fn batch_name(name: Seq<char>, longest: int, num: int) -> Seq<char> {
    name + seq!['-'] + batch_pad(longest, num) + dec_digits(num)
}

/// The value of a batch generator.
pub ghost struct BlockV {
    pub name: Seq<char>,
    pub entries: Seq<Seq<Seq<char>>>,
    pub filler: FillerV,
    pub repeat: Seq<usize>,
    pub longest: usize,
    pub sched_num: usize,
    pub tag_entries: Option<Seq<Seq<TagsV>>>,
}

pub struct BlockIterator {
    name: String,
    entries: Vec<Vec<String>>,
    filler: FillerIterator,
    repeat: Vec<usize>,
    longest: usize,
    sched_num: usize,
    tag_entries: Option<Vec<Vec<Tags>>>,
}

impl View for BlockIterator {
    type V = BlockV;

    closed spec fn view(&self) -> BlockV {
        BlockV {
            name: self.name@,
            entries: Seq::new(self.entries@.len(), |i: int| strings_view(self.entries@[i]@)),
            filler: self.filler@,
            repeat: self.repeat@,
            longest: self.longest,
            sched_num: self.sched_num,
            tag_entries: match self.tag_entries {
                Some(ref tv) => Some(
                    Seq::new(
                        tv@.len(),
                        |i: int| Seq::new(tv@[i]@.len(), |j: int| tv@[i]@[j]@),
                    ),
                ),
                None => None,
            },
        }
    }
}

/// A usable batch generator: shapes agree, every batch size is positive,
/// the pool is usable, and the batch count is the ceiling-division maximum.
pub open spec fn block_wf(b: BlockV) -> bool {
    &&& b.entries.len() == b.repeat.len()
    &&& forall|i: int| 0 <= i < b.repeat.len() ==> (#[trigger] b.repeat[i]) > 0
    &&& match b.tag_entries {
        Some(tv) => tv.len() == b.entries.len() && forall|i: int|
            0 <= i < tv.len() ==> (#[trigger] tv[i]).len() == b.entries[i].len(),
        None => true,
    }
    &&& filler_wf(b.filler)
    &&& b.longest as int == total_batches(b.entries, b.repeat)
    &&& b.sched_num <= b.longest
}

fn clone_strings(v: &Vec<String>) -> (r: Vec<String>)
    ensures
        r@.len() == v@.len(),
        forall|i: int| 0 <= i < r@.len() ==> (#[trigger] r@[i])@ == v@[i]@,
{
    let mut out: Vec<String> = Vec::new();
    let mut i: usize = 0;
    while i < v.len()
        invariant
            0 <= i <= v@.len(),
            out@.len() == i,
            forall|j: int| 0 <= j < i ==> (#[trigger] out@[j])@ == v@[j]@,
        decreases v@.len() - i,
    {
        out.push(v[i].clone());
        i = i + 1;
    }
    out
}

fn clone_tags_list(v: &Vec<Tags>) -> (r: Vec<Tags>)
    ensures
        r@.len() == v@.len(),
        forall|i: int| 0 <= i < r@.len() ==> (#[trigger] r@[i])@ == v@[i]@,
{
    let mut out: Vec<Tags> = Vec::new();
    let mut i: usize = 0;
    while i < v.len()
        invariant
            0 <= i <= v@.len(),
            out@.len() == i,
            forall|j: int| 0 <= j < i ==> (#[trigger] out@[j])@ == v@[j]@,
        decreases v@.len() - i,
    {
        out.push(v[i].clone());
        i = i + 1;
    }
    out
}

impl Clone for FillerIterator {
    /// A clone keeps the pool's value.
    fn clone(&self) -> (r: Self)
        ensures
            r@ == self@,
    {
        let r = FillerIterator {
            filltype: self.filltype,
            fillmedia: clone_strings(&self.fillmedia),
            fill_pos: self.fill_pos,
        };
        proof {
            assert(r@.media =~= self@.media);
        }
        r
    }
}


/// The supplied tag lists, when present, mirror the entry lists' shapes.
pub open spec fn tag_shapes_ok(tags: Option<Vec<Vec<Tags>>>, entries: Vec<Vec<String>>) -> bool {
    match tags {
        Some(tv) => tv@.len() == entries@.len() && forall|i: int|
            0 <= i < tv@.len() ==> (#[trigger] tv@[i]@).len() == entries@[i]@.len(),
        None => true,
    }
}

fn check_tag_shapes(x: &Vec<Vec<Tags>>, entries: &Vec<Vec<String>>) -> (r: bool)
    ensures
        r == (x@.len() == entries@.len() && forall|i: int|
            0 <= i < x@.len() ==> (#[trigger] x@[i]@).len() == entries@[i]@.len()),
{
    if x.len() != entries.len() {
        return false;
    }
    let mut i: usize = 0;
    while i < x.len()
        invariant
            0 <= i <= x@.len(),
            x@.len() == entries@.len(),
            forall|j: int| 0 <= j < i ==> (#[trigger] x@[j]@).len() == entries@[j]@.len(),
        decreases x@.len() - i,
    {
        if x[i].len() != entries[i].len() {
            return false;
        }
        i = i + 1;
    }
    true
}

impl BlockIterator {
    /// A batch generator over the given template lists. Validated eagerly:
    /// the fill pattern's ordering, one positive batch size per entry list,
    /// and — when tag lists are supplied — their shapes.
    pub fn new(
        nom: &str,
        entries: &Vec<Vec<String>>,
        filler: &FillerIterator,
        repeat: &Vec<usize>,
        tags: Option<Vec<Vec<Tags>>>,
    ) -> (r: Result<BlockIterator, String>)
        ensures
            match r {
                Ok(b) => {
                    &&& filltype_valid(filler@.filltype)
                    &&& filler_wf(filler@)
                    &&& b@.name == nom@
                    &&& b@.entries == Seq::new(
                        entries@.len(),
                        |i: int| strings_view(entries@[i]@),
                    )
                    &&& b@.filler == filler@
                    &&& b@.repeat == repeat@
                    &&& b@.tag_entries == (match tags {
                        Some(tv) => Some(
                            Seq::new(
                                tv@.len(),
                                |i: int| Seq::new(tv@[i]@.len(), |j: int| tv@[i]@[j]@),
                            ),
                        ),
                        None => None::<Seq<Seq<TagsV>>>,
                    })
                    &&& b@.sched_num == 0
                    &&& b@.longest as int == total_batches(b@.entries, repeat@)
                    &&& block_wf(b@)
                },
                Err(_) => !({
                    &&& filltype_valid(filler@.filltype)
                    &&& filler_wf(filler@)
                    &&& entries@.len() == repeat@.len()
                    &&& (forall|i: int| 0 <= i < repeat@.len() ==> (#[trigger] repeat@[i]) > 0)
                    &&& tag_shapes_ok(tags, *entries)
                }),
            },
    {
        if let Err(e) = filler.filltype.validate() {
            return Err(e);
        }
        let needs_pool = match filler.filltype {
            FillType::NoFill => false,
            _ => true,
        };
        if needs_pool && filler.fillmedia.len() == 0 {
            return Err(String::from_str("An empty filler pool cannot fill"));
        }
        if filler.fillmedia.len() > 0 && filler.fill_pos >= filler.fillmedia.len() {
            return Err(String::from_str("The filler pool position is out of range"));
        }
        if filler.fillmedia.len() == 0 && filler.fill_pos != 0 {
            return Err(String::from_str("The filler pool position is out of range"));
        }
        if entries.len() != repeat.len() {
            return Err(
                String::from_str(
                    "There must be the same number of elements in repeat vector as entries.",
                ),
            );
        }
        let mut i: usize = 0;
        while i < repeat.len()
            invariant
                0 <= i <= repeat@.len(),
                forall|j: int| 0 <= j < i ==> (#[trigger] repeat@[j]) > 0,
            decreases repeat@.len() - i,
        {
            if repeat[i] == 0 {
                return Err(String::from_str("Each batch size must be positive."));
            }
            i = i + 1;
        }
        match &tags {
            None => {},
            Some(x) => {
                proof {
                    assert(*x == tags->Some_0);
                }
                if !check_tag_shapes(x, entries) {
                    return Err(
                        String::from_str(
                            "The number of tag structures must match the number of elements in an entry vector.",
                        ),
                    );
                }
            },
        }
        // The batch count: the ceiling-division maximum over the lists.
        let mut longest: usize = 0;
        let mut i: usize = 0;
        let ghost eview = Seq::new(entries@.len(), |k: int| strings_view(entries@[k]@));
        while i < entries.len()
            invariant
                0 <= i <= entries@.len(),
                entries@.len() == repeat@.len(),
                eview == Seq::new(entries@.len(), |k: int| strings_view(entries@[k]@)),
                forall|j: int| 0 <= j < repeat@.len() ==> (#[trigger] repeat@[j]) > 0,
                longest as int == total_batches(
                    eview.take(i as int),
                    repeat@.take(i as int),
                ),
            decreases entries@.len() - i,
        {
            let len_i = entries[i].len();
            let rep_i = repeat[i];
            let mine: usize = if len_i == 0 {
                0
            } else {
                (len_i - 1) / rep_i + 1
            };
            proof {
                lemma_total_batches_snoc(eview, repeat@, i as int);
                assert(eview[i as int].len() == len_i);
            }
            if mine > longest {
                longest = mine;
            }
            i = i + 1;
        }
        proof {
            assert(eview.take(eview.len() as int) =~= eview);
            assert(repeat@.take(repeat@.len() as int) =~= repeat@);
        }
        let cloned_tags: Option<Vec<Vec<Tags>>> = match tags {
            None => None,
            Some(ref tv) => {
                let mut out: Vec<Vec<Tags>> = Vec::new();
                let mut i: usize = 0;
                while i < tv.len()
                    invariant
                        0 <= i <= tv@.len(),
                        out@.len() == i,
                        forall|j: int, k: int|
                            0 <= j < i && 0 <= k < out@[j]@.len() ==> (#[trigger] out@[j]@[k])@
                                == tv@[j]@[k]@,
                        forall|j: int| 0 <= j < i ==> (#[trigger] out@[j]@).len()
                            == tv@[j]@.len(),
                    decreases tv@.len() - i,
                {
                    out.push(clone_tags_list(&tv[i]));
                    i = i + 1;
                }
                Some(out)
            },
        };
        let mut cloned_entries: Vec<Vec<String>> = Vec::new();
        let mut i: usize = 0;
        while i < entries.len()
            invariant
                0 <= i <= entries@.len(),
                cloned_entries@.len() == i,
                forall|j: int, k: int|
                    0 <= j < i && 0 <= k < cloned_entries@[j]@.len() ==> (
                    #[trigger] cloned_entries@[j]@[k])@ == entries@[j]@[k]@,
                forall|j: int| 0 <= j < i ==> (#[trigger] cloned_entries@[j]@).len()
                    == entries@[j]@.len(),
            decreases entries@.len() - i,
        {
            cloned_entries.push(clone_strings(&entries[i]));
            i = i + 1;
        }
        let mut cloned_repeat: Vec<usize> = Vec::new();
        let mut i: usize = 0;
        while i < repeat.len()
            invariant
                0 <= i <= repeat@.len(),
                cloned_repeat@ == repeat@.take(i as int),
            decreases repeat@.len() - i,
        {
            cloned_repeat.push(repeat[i]);
            proof {
                assert(cloned_repeat@ =~= repeat@.take(i + 1));
            }
            i = i + 1;
        }
        proof {
            assert(repeat@.take(repeat@.len() as int) =~= repeat@);
        }
        let b = BlockIterator {
            name: String::from_str(nom),
            entries: cloned_entries,
            filler: filler.clone(),
            repeat: cloned_repeat,
            longest,
            sched_num: 0,
            tag_entries: cloned_tags,
        };
        proof {
            assert(b@.entries =~~= eview);
            match b.tag_entries {
                Some(ref tv) => {
                    match tags {
                        Some(ref tv0) => {
                            assert(b@.tag_entries->Some_0 =~~= Seq::new(
                                tv0@.len(),
                                |i: int| Seq::new(tv0@[i]@.len(), |j: int| tv0@[i]@[j]@),
                            ));
                        },
                        None => {},
                    }
                },
                None => {},
            }
            assert(block_wf(b@));
        }
        Ok(b)
    }
}

/// Extending the run by one entry list takes the larger of the old maximum
/// and that list's own batch count.
proof fn lemma_total_batches_snoc(entries: Seq<Seq<Seq<char>>>, repeat: Seq<usize>, i: int)
    requires
        0 <= i < entries.len(),
        entries.len() == repeat.len(),
    ensures
        total_batches(entries.take(i + 1), repeat.take(i + 1)) == {
            let rest = total_batches(entries.take(i), repeat.take(i));
            let mine = ceil_div(entries[i].len() as int, repeat[i] as int);
            if mine > rest {
                mine
            } else {
                rest
            }
        },
    decreases i,
{
    if i == 0 {
        assert(entries.take(1).drop_first() =~= entries.take(0));
        assert(repeat.take(1).drop_first() =~= repeat.take(0));
        assert(entries.take(1)[0] == entries[0]);
    } else {
        lemma_total_batches_snoc(entries.drop_first(), repeat.drop_first(), i - 1);
        assert(entries.take(i + 1).drop_first() =~= entries.drop_first().take(i));
        assert(repeat.take(i + 1).drop_first() =~= repeat.drop_first().take(i));
        assert(entries.take(i).drop_first() =~= entries.drop_first().take(i - 1));
        assert(repeat.take(i).drop_first() =~= repeat.drop_first().take(i - 1));
        assert(entries.drop_first()[i - 1] == entries[i]);
        assert(repeat.drop_first()[i - 1] == repeat[i]);
        assert(entries.take(i + 1)[0] == entries[0]);
        assert(entries.take(i)[0] == entries[0]);
    }
}


/// The tag values zipped with batch `n`'s queue: the supplied tag lists'
/// windows, or empty tags throughout.
pub open spec fn batch_tagq(b: BlockV, qlen: int) -> Seq<TagsV> {
    match b.tag_entries {
        Some(tv) => tagq_of(tv, b.repeat, b.sched_num as int),
        None => Seq::new(qlen as nat, |_i: int| empty_tags()),
    }
}

pub open spec fn tags_line_view(v: Seq<Tags>) -> Seq<TagsV> {
    Seq::new(v.len(), |i: int| v[i]@)
}

/// Extending the queue by one entry list appends that list's window.
proof fn lemma_queue_of_snoc(entries: Seq<Seq<Seq<char>>>, repeat: Seq<usize>, n: int, i: int)
    requires
        0 <= i < entries.len(),
        entries.len() == repeat.len(),
    ensures
        queue_of(entries.take(i + 1), repeat.take(i + 1), n) == queue_of(
            entries.take(i),
            repeat.take(i),
            n,
        ) + window(entries[i], n * (repeat[i] as int), repeat[i] as int),
    decreases i,
{
    if i == 0 {
        assert(entries.take(1).drop_first() =~= entries.take(0));
        assert(repeat.take(1).drop_first() =~= repeat.take(0));
        assert(entries.take(1)[0] == entries[0]);
        assert(queue_of(entries.take(0), repeat.take(0), n) =~= Seq::empty());
        assert(queue_of(entries.take(1), repeat.take(1), n) =~= Seq::empty() + window(
            entries[0],
            n * (repeat[0] as int),
            repeat[0] as int,
        ));
    } else {
        lemma_queue_of_snoc(entries.drop_first(), repeat.drop_first(), n, i - 1);
        assert(entries.take(i + 1).drop_first() =~= entries.drop_first().take(i));
        assert(repeat.take(i + 1).drop_first() =~= repeat.drop_first().take(i));
        assert(entries.take(i).drop_first() =~= entries.drop_first().take(i - 1));
        assert(repeat.take(i).drop_first() =~= repeat.drop_first().take(i - 1));
        assert(entries.drop_first()[i - 1] == entries[i]);
        assert(repeat.drop_first()[i - 1] == repeat[i]);
        assert(entries.take(i + 1)[0] == entries[0]);
        assert(entries.take(i)[0] == entries[0]);
        assert(queue_of(entries.take(i + 1), repeat.take(i + 1), n) =~= queue_of(
            entries.take(i),
            repeat.take(i),
            n,
        ) + window(entries[i], n * (repeat[i] as int), repeat[i] as int));
    }
}

/// Extending the tag queue by one tag list appends that list's window.
proof fn lemma_tagq_of_snoc(tags: Seq<Seq<TagsV>>, repeat: Seq<usize>, n: int, i: int)
    requires
        0 <= i < tags.len(),
        tags.len() == repeat.len(),
    ensures
        tagq_of(tags.take(i + 1), repeat.take(i + 1), n) == tagq_of(
            tags.take(i),
            repeat.take(i),
            n,
        ) + window(tags[i], n * (repeat[i] as int), repeat[i] as int),
    decreases i,
{
    if i == 0 {
        assert(tags.take(1).drop_first() =~= tags.take(0));
        assert(repeat.take(1).drop_first() =~= repeat.take(0));
        assert(tags.take(1)[0] == tags[0]);
        assert(tagq_of(tags.take(0), repeat.take(0), n) =~= Seq::empty());
        assert(tagq_of(tags.take(1), repeat.take(1), n) =~= Seq::empty() + window(
            tags[0],
            n * (repeat[0] as int),
            repeat[0] as int,
        ));
    } else {
        lemma_tagq_of_snoc(tags.drop_first(), repeat.drop_first(), n, i - 1);
        assert(tags.take(i + 1).drop_first() =~= tags.drop_first().take(i));
        assert(repeat.take(i + 1).drop_first() =~= repeat.drop_first().take(i));
        assert(tags.take(i).drop_first() =~= tags.drop_first().take(i - 1));
        assert(repeat.take(i).drop_first() =~= repeat.drop_first().take(i - 1));
        assert(tags.drop_first()[i - 1] == tags[i]);
        assert(repeat.drop_first()[i - 1] == repeat[i]);
        assert(tags.take(i + 1)[0] == tags[0]);
        assert(tags.take(i)[0] == tags[0]);
        assert(tagq_of(tags.take(i + 1), repeat.take(i + 1), n) =~= tagq_of(
            tags.take(i),
            repeat.take(i),
            n,
        ) + window(tags[i], n * (repeat[i] as int), repeat[i] as int));
    }
}

/// One batch yields exactly one program per queued item.
proof fn lemma_batch_len(
    queue: Seq<Seq<char>>,
    tagq: Seq<TagsV>,
    f: FillType,
    media: Seq<Seq<char>>,
    pos: nat,
)
    ensures
        batch_programs(queue, tagq, f, media, pos).len() == queue.len(),
    decreases queue.len(),
{
    if queue.len() > 0 {
        lemma_batch_len(
            queue.drop_first(),
            tagq.drop_first(),
            f,
            media,
            pos_after_item(f, media.len(), pos),
        );
    }
}

/// Extending the batch by one item appends one program, drawn at the pool
/// position the previous items left behind.
proof fn lemma_batch_snoc(
    queue: Seq<Seq<char>>,
    tagq: Seq<TagsV>,
    f: FillType,
    media: Seq<Seq<char>>,
    pos: nat,
    j: int,
)
    requires
        0 <= j < queue.len(),
        tagq.len() == queue.len(),
    ensures
        batch_programs(queue.take(j + 1), tagq.take(j + 1), f, media, pos) == batch_programs(
            queue.take(j),
            tagq.take(j),
            f,
            media,
            pos,
        ).push(
            mk_prog(
                queue[j],
                tagq[j],
                fill_pattern(f, media, pos_after_batch(f, media.len(), pos, j as nat)),
            ),
        ),
    decreases j,
{
    if j == 0 {
        assert(queue.take(1).drop_first() =~= queue.take(0));
        assert(tagq.take(1).drop_first() =~= tagq.take(0));
        assert(queue.take(1)[0] == queue[0]);
        assert(tagq.take(1)[0] == tagq[0]);
        assert(queue.take(0) =~= Seq::<Seq<char>>::empty());
        assert(tagq.take(0) =~= Seq::<TagsV>::empty());
        assert(batch_programs(queue.take(0), tagq.take(0), f, media, pos).len() == 0);
        assert(queue.take(1).len() == 1);
        assert(batch_programs(queue.take(1), tagq.take(1), f, media, pos) == seq![
            mk_prog(queue.take(1)[0], tagq.take(1)[0], fill_pattern(f, media, pos)),
        ] + batch_programs(
            queue.take(1).drop_first(),
            tagq.take(1).drop_first(),
            f,
            media,
            pos_after_item(f, media.len(), pos),
        ));
        assert(batch_programs(
            queue.take(1).drop_first(),
            tagq.take(1).drop_first(),
            f,
            media,
            pos_after_item(f, media.len(), pos),
        ).len() == 0);
        assert(batch_programs(queue.take(1), tagq.take(1), f, media, pos) =~= Seq::<
            ProgramV,
        >::empty().push(mk_prog(queue[0], tagq[0], fill_pattern(f, media, pos))));
    } else {
        let p1 = pos_after_item(f, media.len(), pos);
        lemma_batch_snoc(queue.drop_first(), tagq.drop_first(), f, media, p1, j - 1);
        assert(queue.take(j + 1).drop_first() =~= queue.drop_first().take(j));
        assert(tagq.take(j + 1).drop_first() =~= tagq.drop_first().take(j));
        assert(queue.take(j).drop_first() =~= queue.drop_first().take(j - 1));
        assert(tagq.take(j).drop_first() =~= tagq.drop_first().take(j - 1));
        assert(queue.drop_first()[j - 1] == queue[j]);
        assert(tagq.drop_first()[j - 1] == tagq[j]);
        assert(queue.take(j + 1)[0] == queue[0]);
        assert(queue.take(j)[0] == queue[0]);
        assert(tagq.take(j + 1)[0] == tagq[0]);
        assert(tagq.take(j)[0] == tagq[0]);
        assert(pos_after_batch(f, media.len(), pos, j as nat) == pos_after_batch(
            f,
            media.len(),
            p1,
            (j - 1) as nat,
        ));
        assert(batch_programs(queue.take(j + 1), tagq.take(j + 1), f, media, pos)
            =~= batch_programs(queue.take(j), tagq.take(j), f, media, pos).push(
            mk_prog(
                queue[j],
                tagq[j],
                fill_pattern(f, media, pos_after_batch(f, media.len(), pos, j as nat)),
            ),
        ));
    }
}

/// Stepping the pool one more item past `j` items is one item past the
/// position after `j`.
proof fn lemma_pab_snoc(f: FillType, len: nat, pos: nat, j: nat)
    ensures
        pos_after_batch(f, len, pos, (j + 1) as nat) == pos_after_item(
            f,
            len,
            pos_after_batch(f, len, pos, j),
        ),
    decreases j,
{
    if j == 0 {
        assert(pos_after_batch(f, len, pos, 1) == pos_after_batch(
            f,
            len,
            pos_after_item(f, len, pos),
            0,
        ));
        assert(pos_after_batch(f, len, pos_after_item(f, len, pos), 0) == pos_after_item(
            f,
            len,
            pos,
        ));
        assert(pos_after_batch(f, len, pos, 0) == pos);
    } else {
        lemma_pab_snoc(f, len, pos_after_item(f, len, pos), (j - 1) as nat);
        assert(pos_after_batch(f, len, pos, (j + 1) as nat) == pos_after_batch(
            f,
            len,
            pos_after_item(f, len, pos),
            j,
        ));
        assert(pos_after_batch(f, len, pos, j) == pos_after_batch(
            f,
            len,
            pos_after_item(f, len, pos),
            (j - 1) as nat,
        ));
    }
}

impl BlockIterator {
    /// The next batch of the run, or `None` once the whole batch run has been
    /// produced. Batch `n` (counting from zero) takes the `n`-th window of
    /// each entry list, zips it with its tags, and gives each item the fill
    /// pattern's instructions, drawing fillers from the rotating pool; the
    /// batch is named after the run with a zero-padded sequence number.
    pub fn next(&mut self) -> (r: Option<Schedule>)
        requires
            block_wf(old(self)@),
        ensures
            old(self)@.sched_num == old(self)@.longest ==> r is None && final (self)@ == old(
                self,
            )@,
            old(self)@.sched_num < old(self)@.longest ==> ({
                let o = old(self)@;
                let n = o.sched_num as int;
                let q = queue_of(o.entries, o.repeat, n);
                let tq = batch_tagq(o, q.len() as int);
                &&& r is Some
                &&& r->Some_0@.name == batch_name(o.name, o.longest as int, n + 1)
                &&& r->Some_0@.programs == batch_programs(
                    q,
                    tq,
                    o.filler.filltype,
                    o.filler.media,
                    o.filler.pos as nat,
                )
                &&& r->Some_0@.current_program == (if q.len() == 0 {
                    None
                } else {
                    Some((q.len() - 1) as usize)
                })
                &&& final (self)@.sched_num == o.sched_num + 1
                &&& final (self)@.filler.pos as nat == pos_after_batch(
                    o.filler.filltype,
                    o.filler.media.len(),
                    o.filler.pos as nat,
                    q.len(),
                )
                &&& final (self)@.name == o.name
                &&& final (self)@.entries == o.entries
                &&& final (self)@.repeat == o.repeat
                &&& final (self)@.longest == o.longest
                &&& final (self)@.tag_entries == o.tag_entries
                &&& final (self)@.filler.filltype == o.filler.filltype
                &&& final (self)@.filler.media == o.filler.media
                &&& block_wf(final (self)@)
            }),
    {
        let ghost o = self@;
        if self.sched_num == self.longest {
            proof {
                assert(self@ =~~= o);
            }
            return None;
        }
        let n = self.sched_num;
        let num = n + 1;

        // The batch name, zero-padded to the run's width.
        let mut name_chars = str_to_chars(self.name.as_str());
        name_chars.push('-');
        if self.longest >= 100 {
            if num < 10 {
                name_chars.push('0');
                name_chars.push('0');
            } else if num < 100 {
                name_chars.push('0');
            }
        } else if self.longest >= 10 {
            if num < 10 {
                name_chars.push('0');
            }
        }
        push_dec(&mut name_chars, num);
        proof {
            assert(name_chars@ =~= batch_name(o.name, o.longest as int, num as int));
        }
        let name_str = chars_to_string(&name_chars);

        // The item queue and its tag line: one window per entry list.
        let mut queue: Vec<String> = Vec::new();
        let mut tag_line: Vec<Tags> = Vec::new();
        let ghost has_tags = o.tag_entries is Some;
        let mut i: usize = 0;
        while i < self.entries.len()
            invariant
                0 <= i <= self.entries@.len(),
                self@ == o,
                block_wf(o),
                o.sched_num < o.longest,
                n == o.sched_num,
                strings_view(queue@) == queue_of(
                    o.entries.take(i as int),
                    o.repeat.take(i as int),
                    n as int,
                ),
                has_tags ==> tags_line_view(tag_line@) == tagq_of(
                    o.tag_entries->Some_0.take(i as int),
                    o.repeat.take(i as int),
                    n as int,
                ),
                !has_tags ==> tag_line@.len() == 0,
                has_tags == (o.tag_entries is Some),
                has_tags ==> o.tag_entries->Some_0.len() == o.entries.len(),
            decreases self.entries@.len() - i,
        {
            let ghost qbefore = strings_view(queue@);
            let ghost tbefore = tags_line_view(tag_line@);
            let rep = self.repeat[i];
            let len_i = self.entries[i].len();
            let ghost e_i = o.entries[i as int];
            proof {
                assert(e_i == strings_view(self.entries@[i as int]@));
                assert(e_i.len() == len_i);
            }
            let (start, end): (usize, usize) = match n.checked_mul(rep) {
                None => (0, 0),
                Some(skip) => {
                    if skip >= len_i {
                        (0, 0)
                    } else if len_i - skip < rep {
                        (skip, len_i)
                    } else {
                        (skip, skip + rep)
                    }
                },
            };
            proof {
                assert(window(e_i, (n as int) * (rep as int), rep as int) =~= e_i.subrange(
                    start as int,
                    end as int,
                ));
                if has_tags {
                    let t_i = o.tag_entries->Some_0[i as int];
                    assert(t_i.len() == e_i.len());
                    assert(window(t_i, (n as int) * (rep as int), rep as int) =~= t_i.subrange(
                        start as int,
                        end as int,
                    ));
                }
            }
            let mut k: usize = start;
            while k < end
                invariant
                    start <= k <= end,
                    end <= len_i,
                    i < self.entries@.len(),
                    self@ == o,
                    len_i == self.entries@[i as int]@.len(),
                    e_i == o.entries[i as int],
                    e_i == strings_view(self.entries@[i as int]@),
                    strings_view(queue@) == qbefore + e_i.subrange(start as int, k as int),
                    has_tags == (o.tag_entries is Some),
                    has_tags ==> tags_line_view(tag_line@) == tbefore + o.tag_entries->Some_0[
                        i as int
                    ].subrange(start as int, k as int),
                    has_tags ==> o.tag_entries->Some_0[i as int].len() == len_i,
                    has_tags ==> o.tag_entries->Some_0.len() == o.entries.len(),
                    o.entries.len() == self.entries@.len(),
                    !has_tags ==> tag_line@.len() == 0,
                decreases end - k,
            {
                let ghost qprev = queue@;
                let item = self.entries[i][k].clone();
                proof {
                    assert(item@ == e_i[k as int]);
                }
                queue.push(item);
                proof {
                    lemma_strings_view_push(qprev, item);
                    assert(e_i.subrange(start as int, k + 1) =~= e_i.subrange(
                        start as int,
                        k as int,
                    ).push(e_i[k as int]));
                    assert((qbefore + e_i.subrange(start as int, k as int)).push(e_i[k as int])
                        =~= qbefore + e_i.subrange(start as int, k + 1));
                    assert(strings_view(queue@) == qbefore + e_i.subrange(
                        start as int,
                        k + 1,
                    ));
                }
                match &self.tag_entries {
                    Some(tv) => {
                        proof {
                            assert(o.tag_entries->Some_0 == Seq::new(
                                tv@.len(),
                                |a: int| Seq::new(tv@[a]@.len(), |b: int| tv@[a]@[b]@),
                            ));
                            assert((i as int) < tv@.len());
                            assert(o.tag_entries->Some_0[i as int].len() == tv@[i as int]@.len());
                            assert((k as int) < tv@[i as int]@.len());
                        }
                        let ghost tprev = tag_line@;
                        let titem = tv[i][k].clone();
                        proof {
                            assert(titem@ == o.tag_entries->Some_0[i as int][k as int]);
                        }
                        tag_line.push(titem);
                        proof {
                            let t_i = o.tag_entries->Some_0[i as int];
                            lemma_tags_line_view_push(tprev, titem);
                            assert(t_i.subrange(start as int, k + 1) =~= t_i.subrange(
                                start as int,
                                k as int,
                            ).push(t_i[k as int]));
                            assert((tbefore + t_i.subrange(start as int, k as int)).push(
                                t_i[k as int],
                            ) =~= tbefore + t_i.subrange(start as int, k + 1));
                            assert(tags_line_view(tag_line@) == tbefore + t_i.subrange(
                                start as int,
                                k + 1,
                            ));
                        }
                    },
                    None => {},
                }
                k = k + 1;
            }
            proof {
                lemma_queue_of_snoc(o.entries, o.repeat, n as int, i as int);
                assert(strings_view(queue@) == queue_of(
                    o.entries.take(i + 1),
                    o.repeat.take(i + 1),
                    n as int,
                ));
                if has_tags {
                    lemma_tagq_of_snoc(o.tag_entries->Some_0, o.repeat, n as int, i as int);
                    assert(tags_line_view(tag_line@) == tagq_of(
                        o.tag_entries->Some_0.take(i + 1),
                        o.repeat.take(i + 1),
                        n as int,
                    ));
                }
            }
            i = i + 1;
        }
        proof {
            assert(o.entries.take(o.entries.len() as int) =~= o.entries);
            assert(o.repeat.take(o.repeat.len() as int) =~= o.repeat);
            if has_tags {
                assert(o.tag_entries->Some_0.take(o.tag_entries->Some_0.len() as int)
                    =~= o.tag_entries->Some_0);
            }
        }
        let ghost qv = queue_of(o.entries, o.repeat, n as int);
        if self.tag_entries.is_none() {
            while tag_line.len() < queue.len()
                invariant
                    tag_line@.len() <= queue@.len(),
                    forall|j: int| 0 <= j < tag_line@.len() ==> (#[trigger] tag_line@[j])@
                        == empty_tags(),
                decreases queue@.len() - tag_line@.len(),
            {
                tag_line.push(Tags::new());
            }
        }
        let ghost tqv = batch_tagq(o, qv.len() as int);
        proof {
            if has_tags {
                assert(tags_line_view(tag_line@) =~= tqv);
            } else {
                assert(tags_line_view(tag_line@) =~= tqv);
            }
            assert(strings_view(queue@) =~= qv);
            assert(tag_line@.len() == queue@.len()) by {
                assert(tags_line_view(tag_line@).len() == tag_line@.len());
                assert(strings_view(queue@).len() == queue@.len());
                lemma_tagq_queue_len(o, qv, tqv);
            }
        }

        // One program per queued item, drawing fillers in rotation.
        let ghost f = o.filler.filltype;
        let ghost m = o.filler.media;
        let ghost pos0 = o.filler.pos as nat;
        let mut progs: Vec<Program> = Vec::new();
        let mut j: usize = 0;
        while j < queue.len()
            invariant
                0 <= j <= queue@.len(),
                tag_line@.len() == queue@.len(),
                qv.len() == queue@.len(),
                tqv.len() == qv.len(),
                strings_view(queue@) == qv,
                tags_line_view(tag_line@) == tqv,
                self@.name == o.name,
                self@.entries == o.entries,
                self@.repeat == o.repeat,
                self@.longest == o.longest,
                self@.sched_num == o.sched_num,
                self@.tag_entries == o.tag_entries,
                self@.filler.filltype == f,
                self@.filler.media == m,
                self@.filler.pos as nat == pos_after_batch(f, m.len(), pos0, j as nat),
                filler_wf(self@.filler),
                progs_view(progs@) == batch_programs(
                    qv.take(j as int),
                    tqv.take(j as int),
                    f,
                    m,
                    pos0,
                ),
            decreases queue@.len() - j,
        {
            let instrs = match self.filler.next() {
                Some(v) => v,
                None => {
                    proof {
                        assert(false);
                    }
                    Vec::new()
                },
            };
            let p = Program::new(
                Source::Pathname(queue[j].clone()),
                tag_line[j].clone(),
                instrs,
            );
            proof {
                assert(p@ =~~= mk_prog(
                    qv[j as int],
                    tqv[j as int],
                    fill_pattern(f, m, pos_after_batch(f, m.len(), pos0, j as nat)),
                ));
                lemma_batch_snoc(qv, tqv, f, m, pos0, j as int);
                lemma_pab_snoc(f, m.len(), pos0, j as nat);
                crate::schedule::lemma_progs_view_push(progs@, p);
            }
            progs.push(p);
            j = j + 1;
        }
        proof {
            assert(qv.take(qv.len() as int) =~= qv);
            assert(tqv.take(tqv.len() as int) =~= tqv);
            lemma_batch_len(qv, tqv, f, m, pos0);
            crate::schedule::lemma_progs_view_len(progs@);
        }
        let sched = Schedule::new(name_str.as_str(), progs);
        self.sched_num = num;
        proof {
            assert(self@.entries =~~= o.entries);
            assert(block_wf(self@));
        }
        Some(sched)
    }
}

/// Windows of equally long lists are equally long.
proof fn lemma_window_len<A, B>(a: Seq<A>, b: Seq<B>, skip: int, take: int)
    requires
        a.len() == b.len(),
        0 <= skip,
        0 <= take,
    ensures
        window(a, skip, take).len() == window(b, skip, take).len(),
{
    if skip >= a.len() {
        assert(window(a, skip, take) =~= Seq::<A>::empty());
        assert(window(b, skip, take) =~= Seq::<B>::empty());
        assert(window(a, skip, take).len() == 0);
        assert(window(b, skip, take).len() == 0);
    } else if skip + take <= a.len() {
        assert(window(a, skip, take) == a.subrange(skip, skip + take));
        assert(window(b, skip, take) == b.subrange(skip, skip + take));
        assert(window(a, skip, take).len() == take);
        assert(window(b, skip, take).len() == take);
    } else {
        assert(window(a, skip, take) == a.subrange(skip, a.len() as int));
        assert(window(b, skip, take) == b.subrange(skip, b.len() as int));
        assert(window(a, skip, take).len() == a.len() - skip);
        assert(window(b, skip, take).len() == b.len() - skip);
    }
    assert(window(a, skip, take).len() == window(b, skip, take).len());
}

proof fn lemma_strings_view_push(v: Seq<String>, x: String)
    ensures
        strings_view(v.push(x)) == strings_view(v).push(x@),
{
    assert(strings_view(v.push(x)) =~= strings_view(v).push(x@));
}

proof fn lemma_tags_line_view_push(v: Seq<Tags>, x: Tags)
    ensures
        tags_line_view(v.push(x)) == tags_line_view(v).push(x@),
{
    assert(tags_line_view(v.push(x)) =~= tags_line_view(v).push(x@));
}

/// The tag queue of a batch is as long as its item queue.
proof fn lemma_tagq_queue_len(o: BlockV, qv: Seq<Seq<char>>, tqv: Seq<TagsV>)
    requires
        block_wf(o),
        qv == queue_of(o.entries, o.repeat, o.sched_num as int),
        tqv == batch_tagq(o, qv.len() as int),
    ensures
        tqv.len() == qv.len(),
{
    match o.tag_entries {
        Some(tv) => {
            lemma_tagq_queue_len_rec(tv, o.entries, o.repeat, o.sched_num as int);
        },
        None => {},
    }
}

proof fn lemma_tagq_queue_len_rec(
    tv: Seq<Seq<TagsV>>,
    entries: Seq<Seq<Seq<char>>>,
    repeat: Seq<usize>,
    n: int,
)
    requires
        tv.len() == entries.len(),
        entries.len() == repeat.len(),
        forall|i: int| 0 <= i < tv.len() ==> (#[trigger] tv[i]).len() == entries[i].len(),
        n >= 0,
    ensures
        tagq_of(tv, repeat, n).len() == queue_of(entries, repeat, n).len(),
    decreases tv.len(),
{
    if tv.len() == 0 {
        assert(tagq_of(tv, repeat, n) =~= Seq::<TagsV>::empty());
        assert(entries.len() == 0);
        assert(queue_of(entries, repeat, n) =~= Seq::<Seq<char>>::empty());
    } else {
        assert(forall|i: int|
            0 <= i < tv.drop_first().len() ==> (#[trigger] tv.drop_first()[i]).len()
                == entries.drop_first()[i].len()) by {
            assert(forall|i: int|
                0 <= i < tv.drop_first().len() ==> tv.drop_first()[i] == tv[i + 1]
                    && entries.drop_first()[i] == entries[i + 1]);
        }
        lemma_tagq_queue_len_rec(tv.drop_first(), entries.drop_first(), repeat.drop_first(), n);
        assert(tv[0].len() == entries[0].len());
        let sk = n * (repeat[0] as int);
        let tk = repeat[0] as int;
        let rp = repeat[0] as int;
        assert(n * rp >= 0) by (nonlinear_arith)
            requires
                n >= 0,
                rp >= 0,
        ;
        assert(sk >= 0);
        lemma_window_len(tv[0], entries[0], sk, tk);
        assert(window(tv[0], sk, tk).len() == window(entries[0], sk, tk).len());
        assert(tagq_of(tv, repeat, n) == window(tv[0], sk, tk) + tagq_of(
            tv.drop_first(),
            repeat.drop_first(),
            n,
        ));
        assert(queue_of(entries, repeat, n) == window(entries[0], sk, tk) + queue_of(
            entries.drop_first(),
            repeat.drop_first(),
            n,
        ));
        assert(tagq_of(tv, repeat, n).len() == window(tv[0], sk, tk).len() + tagq_of(
            tv.drop_first(),
            repeat.drop_first(),
            n,
        ).len());
        assert(queue_of(entries, repeat, n).len() == window(entries[0], sk, tk).len()
            + queue_of(entries.drop_first(), repeat.drop_first(), n).len());
        assert(tagq_of(tv.drop_first(), repeat.drop_first(), n).len() == queue_of(
            entries.drop_first(),
            repeat.drop_first(),
            n,
        ).len());
        assert(tagq_of(tv, repeat, n).len() == queue_of(entries, repeat, n).len());
    }
}

} // verus!
