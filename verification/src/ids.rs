//! Identifiers of collections and of the tokens inside them.

use vstd::prelude::*;

verus! {

/// Identifier of a collection.
#[derive(Clone, Copy, Debug, PartialEq, Eq, Structural, PartialOrd, Ord, Hash)]
pub struct CollectionId(pub u32);

impl Default for CollectionId {
    fn default() -> (id: CollectionId)
        ensures
            id == CollectionId(0),
    {
        CollectionId(0)
    }
}

impl From<u32> for CollectionId {
    fn from(value: u32) -> (id: CollectionId) {
        CollectionId(value)
    }
}

impl vstd::std_specs::convert::FromSpecImpl<u32> for CollectionId {
    open spec fn obeys_from_spec() -> bool {
        true
    }

    open spec fn from_spec(value: u32) -> CollectionId {
        CollectionId(value)
    }
}

/// Identifier of a token within its collection.
#[derive(Clone, Copy, Debug, PartialEq, Eq, Structural, PartialOrd, Ord, Hash)]
pub struct TokenId(pub u32);

impl Default for TokenId {
    fn default() -> (id: TokenId)
        ensures
            id == TokenId(0),
    {
        TokenId(0)
    }
}

/// What went wrong in a computation on numbers.
#[derive(Clone, Copy, Debug, PartialEq, Eq, Structural)]
pub enum ArithmeticError {
    /// The result would be below the least value of its type.
    Underflow,
    /// The result would be above the greatest value of its type.
    Overflow,
    /// A division by zero.
    DivisionByZero,
}

impl TokenId {
    /// The identifier that follows this one, or `Overflow` where this one is
    /// the greatest.
    pub fn try_next(self) -> (next: Result<TokenId, ArithmeticError>)
        ensures
            self.0 < u32::MAX ==> next == Ok::<TokenId, ArithmeticError>(
                TokenId((self.0 + 1) as u32),
            ),
            self.0 == u32::MAX ==> next == Err::<TokenId, ArithmeticError>(
                ArithmeticError::Overflow,
            ),
    {
        match self.0.checked_add(1) {
            Some(next) => Ok(TokenId(next)),
            None => Err(ArithmeticError::Overflow),
        }
    }
}

} // verus!
