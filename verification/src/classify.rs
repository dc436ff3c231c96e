//! How a block is to be read: by the interface it declares.

use crate::syntax::ImplBlock;
use vstd::prelude::*;

verus! {

/// The three ways a block can present itself.
#[derive(Debug, Clone, Copy, PartialEq, Eq)]
pub enum BlockKind {
    /// The block declares no interface: every procedure is a transition.
    FreeStanding,
    /// The block implements the model interface: its two event procedures are read.
    ModelInterface,
    /// The block declares some other interface: nothing is extracted.
    Unrecognized,
}

/// The identifier by which the model interface is recognised.
pub open spec fn model_interface_name() -> Seq<char> {
    "AsModel"@
}

/// Whether an interface path names the model interface: its first segment decides.
pub open spec fn names_model_interface(path: Seq<Seq<char>>) -> bool {
    path.len() > 0 && path[0] == model_interface_name()
}

/// The kind of a block, given the interface it declares.
pub open spec fn block_kind(interface: Option<Seq<Seq<char>>>) -> BlockKind {
    match interface {
        None => BlockKind::FreeStanding,
        Some(path) => if names_model_interface(path) {
            BlockKind::ModelInterface
        } else {
            BlockKind::Unrecognized
        },
    }
}

/// Whether `text` reads exactly as `expected`.
pub fn text_is(text: &String, expected: &str) -> (same: bool)
    ensures
        same == (text@ == expected@),
{
    let expected_text = expected.to_owned();
    *text == expected_text
}

/// Decides how `block` is to be read.
pub fn classify(block: &ImplBlock) -> (kind: BlockKind)
    ensures
        kind == block_kind(block@.interface),
{
    match &block.interface {
        None => BlockKind::FreeStanding,
        Some(path) => {
            if path.len() > 0 && text_is(&path[0], "AsModel") {
                BlockKind::ModelInterface
            } else {
                BlockKind::Unrecognized
            }
        },
    }
}

} // verus!
