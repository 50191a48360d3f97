//! What a caller can do wrong at the boundary.

use vstd::prelude::*;

verus! {

/// A breach of the interface's rules by the host or by the plugin. The
/// interface has no way to report one, so the caller of this library ends
/// the process on any of them.
#[derive(Clone, Copy, Debug, PartialEq, Eq, Structural)]
pub enum Violation {
    /// A parameter index below zero, or not below the number of parameters.
    IndexOutOfRange,
    /// The plugin holds a value of another kind than it declares for the index.
    KindMismatch,
    /// The slot has not the layout of the parameter's kind.
    SlotLayout,
    /// A text slot without a terminating zero byte.
    Unterminated,
    /// A text of a description that is not zero-terminated bytes without
    /// another zero byte.
    DescriptionText,
    /// More parameters than the record's counter can hold.
    TooManyParams,
    /// A frame of another length than width times height.
    FrameLength,
}

} // verus!
