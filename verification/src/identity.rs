//! Runtime type identity.

use vstd::prelude::*;

verus! {

/// The identity of a concrete type, as a value that can be compared.
#[derive(Clone, Copy, Debug, PartialEq, Eq, Structural)]
pub struct TypeId(pub u64);

/// A value that can say which concrete type it is. The answer of one value
/// never changes.
pub trait Identified {
    /// The identity of the value's concrete type.
    spec fn identity(&self) -> TypeId;

    /// Reads the identity of the value's concrete type.
    fn type_id(&self) -> (id: TypeId)
        ensures
            id == self.identity(),
    ;
}

/// An identity is a value of the type that it names.
impl Identified for TypeId {
    open spec fn identity(&self) -> TypeId {
        *self
    }

    fn type_id(&self) -> (id: TypeId) {
        *self
    }
}

} // verus!
