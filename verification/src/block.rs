//! Naming blocks of a chain.
use vstd::prelude::*;

verus! {

/// A block, by its number or by the role it plays.
#[derive(Debug, Clone, Copy, PartialEq, Eq, Structural)]
pub enum BlockNumberOrTag {
    Latest,
    Finalized,
    Safe,
    Number(u64),
}

/// What a node is asked for.
#[derive(Debug, Clone, Copy, PartialEq, Eq, Structural)]
pub enum BlockId {
    Number(BlockNumberOrTag),
}

} // verus!
