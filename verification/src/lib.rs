//! Extraction of state-machine event rules from implementation blocks.
//!
//! An implementation block is a set of named procedures written as ordinary
//! conditional code. This crate reads such a block as a description of a
//! state machine's transitions: [`event_rules`] classifies the block by the
//! interface it declares, extracts its rules, and hands the block back as it
//! was given.

pub mod chain;
pub mod classify;
pub mod extract;
pub mod filtering;
pub mod laws;
pub mod rule;
pub mod syntax;

use crate::extract::{block_rules, extract_rules};
use crate::rule::{rule_views, EventRule};
use crate::syntax::ImplBlock;
use vstd::prelude::*;

verus! {

/// The outcome of analysing one block: the block itself and the rules found in it.
#[derive(Debug, PartialEq, Eq)]
pub struct Analysis {
    /// The analysed block, as it was given.
    pub block: ImplBlock,
    /// The rules, in the order in which the block declares what gives them.
    pub rules: Vec<EventRule>,
}

impl Analysis {
    /// Whether this is the outcome of analysing `block`: the block is handed
    /// back unchanged, and the rules are those of the block.
    pub open spec fn is_analysis_of(self, block: ImplBlock) -> bool {
        &&& self.block == block
        &&& rule_views(self.rules@) == block_rules(block@)
    }
}

/// Analyses one implementation block.
///
/// The rules depend on the block alone. The block comes back as it went in,
/// whatever was or was not extracted from it.
pub fn event_rules(block: ImplBlock) -> (analysis: Analysis)
    ensures
        analysis.is_analysis_of(block),
{
    let rules = extract_rules(&block);
    Analysis { block, rules }
}

} // verus!
