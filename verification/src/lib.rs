use vstd::prelude::*;

pub mod action;
pub mod blocks;
pub mod chars;
pub mod editor;
pub mod grammar;
pub mod parse;
pub mod program;
pub mod schedule;
pub mod serialize;
pub mod tags;
pub mod tokenize;
pub mod translate;

verus! {

} // verus!
