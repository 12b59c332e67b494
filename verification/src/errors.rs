use vstd::prelude::*;

verus! {

/// The ways in which a translation can fail.
///
/// `UnsupportedOperator` and `UnsupportedType` describe declarations that
/// cannot be bridged; they concern one declaration only.
/// `LifetimeConflict` and `InvalidName` describe misuse of this library by its
/// caller.
#[derive(Debug, Clone, Copy, PartialEq, Eq, Structural, Hash)]
pub enum BridgeError {
    /// No operator has the given symbol with the given number of arguments.
    UnsupportedOperator,
    /// A native type that cannot cross the foreign-function boundary, or that
    /// has no counterpart on the host side.
    UnsupportedType,
    /// A lifetime was assigned to a reference that already has one.
    LifetimeConflict,
    /// A qualified name without segments.
    InvalidName,
}

} // verus!
