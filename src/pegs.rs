//! Pegs: static obstacles, plain or carrying an item.

use vstd::prelude::*;

use crate::food::DropType;

verus! {

/// What a peg is: a plain board peg, or one that carries an item.
#[derive(Debug, Clone, Copy, PartialEq, Eq, Structural)]
pub enum PegType {
    PachinkoPeg,
    ItemPeg(DropType),
}

impl Default for PegType {
    fn default() -> (r: PegType)
        ensures
            r == PegType::PachinkoPeg,
    {
        PegType::PachinkoPeg
    }
}

/// A peg on the board.
#[derive(Debug, Clone, Copy, PartialEq, Eq, Structural)]
pub struct Peg(pub PegType);

impl Default for Peg {
    fn default() -> (r: Peg)
        ensures
            r == Peg(PegType::PachinkoPeg),
    {
        Peg(PegType::PachinkoPeg)
    }
}

} // verus!
