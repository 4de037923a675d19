//! The records that scanning produces.

use vstd::prelude::*;

verus! {

/// Why a block could not be completed.
///
/// An empty input is no error: scanning it ends at once. Offsets stay within
/// the buffer by construction, so there is no error for one that does not.
#[derive(Clone, Copy, Debug, PartialEq, Eq, Structural)]
pub enum ScanError {
    /// An opening fence has no closing fence before the end of the input.
    UnterminatedFence,
}

/// A block that could not be completed.
#[derive(Clone, Copy, Debug, PartialEq, Eq, Structural)]
pub struct Failure {
    /// What went wrong.
    pub reason: ScanError,
    /// Offset of the opening fence of the block.
    pub fence_at: usize,
}

/// A [`Failure`] with its offset as a mathematical integer.
pub struct FailureView {
    pub reason: ScanError,
    pub fence_at: int,
}

impl View for Failure {
    type V = FailureView;

    open spec fn view(&self) -> FailureView {
        FailureView { reason: self.reason, fence_at: self.fence_at as int }
    }
}

/// One fenced block, copied out of the input.
#[derive(Clone, Debug, PartialEq, Eq)]
pub struct ExtractedBlock {
    /// The token that follows the opening fence; empty if there is none.
    pub language: String,
    /// The token that follows the comment prefix on the header, if any.
    pub path: Option<String>,
    /// The text between the header and the closing fence.
    pub body: String,
}

/// An [`ExtractedBlock`] as sequences of characters.
pub struct BlockView {
    pub language: Seq<char>,
    pub path: Option<Seq<char>>,
    pub body: Seq<char>,
}

impl View for ExtractedBlock {
    type V = BlockView;

    open spec fn view(&self) -> BlockView {
        BlockView {
            language: self.language@,
            path: match self.path {
                Some(p) => Some(p@),
                None => None,
            },
            body: self.body@,
        }
    }
}

/// The result of looking for the next block.
#[derive(Debug)]
pub enum Outcome {
    /// A complete block, and the offset just past its closing fence.
    Found(ExtractedBlock, usize),
    /// No opening fence is left.
    End,
    /// An opening fence whose block is incomplete, and the offset from which
    /// scanning may go on.
    Malformed(Failure, usize),
}

/// An [`Outcome`] over mathematical values.
pub enum OutcomeView {
    Found(BlockView, int),
    End,
    Malformed(FailureView, int),
}

impl View for Outcome {
    type V = OutcomeView;

    open spec fn view(&self) -> OutcomeView {
        match self {
            Outcome::Found(b, next) => OutcomeView::Found(b@, *next as int),
            Outcome::End => OutcomeView::End,
            Outcome::Malformed(f, resume) => OutcomeView::Malformed(f@, *resume as int),
        }
    }
}

/// The views of a sequence of blocks, in the same order.
pub open spec fn block_views(blocks: Seq<ExtractedBlock>) -> Seq<BlockView> {
    Seq::new(blocks.len(), |i: int| blocks[i]@)
}

/// The views of a sequence of failures, in the same order.
pub open spec fn failure_views(failures: Seq<Failure>) -> Seq<FailureView> {
    Seq::new(failures.len(), |i: int| failures[i]@)
}

} // verus!
