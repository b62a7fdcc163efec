//! The capability that all errors share: rendering themselves for the user.
use vstd::prelude::*;
use crate::values::values::{Message, PieceView};

verus! {

/// An error that can be raised: it renders the text that the driver writes
/// to report it.
pub trait ErrTraitBase {
    /// The text that raising the error writes.
    spec fn raised(&self) -> Seq<PieceView>;

    /// Renders the error.
    fn raise(&self) -> (r: Message)
        ensures
            r@ == self.raised(),
    ;
}

/// An error that can be raised and shown while debugging.
pub trait ErrTrait: ErrTraitBase + core::fmt::Debug {

}

} // verus!
