//! What the marshalling layers share with the static type checker.
use vstd::prelude::*;

verus! {

/// The kind of marshalling that a native parameter asks for.
#[derive(Clone, Copy, Debug, PartialEq, Eq, Structural)]
pub enum FFIAction {
    /// Lend an immutable reference.
    Share,
    /// Lend a mutable reference.
    MutShare,
    /// Copy the payload out.
    Copy,
    /// Move the payload out.
    Move,
}

/// The token under which `PhantomNullPtr` answers: it stands for any type.
pub const ANY_TYPE_TOKEN: u64 = 0;

/// A token that identifies a native type. Two tokens are the same type
/// exactly when they are equal.
#[derive(Clone, Copy, Debug, PartialEq, Eq, Structural)]
pub struct TypeIdentity {
    pub token: u64,
}

impl TypeIdentity {
    /// The identity that an absent payload answers with.
    pub open spec fn spec_any() -> TypeIdentity {
        TypeIdentity { token: ANY_TYPE_TOKEN }
    }

    /// The identity that an absent payload answers with.
    pub fn any() -> (r: TypeIdentity)
        ensures
            r == TypeIdentity::spec_any(),
    {
        TypeIdentity { token: ANY_TYPE_TOKEN }
    }
}

/// What the type checker compares a declared parameter against.
#[derive(Clone, Copy, Debug, PartialEq, Eq, Structural)]
pub enum TypeCheckInfo {
    /// A type that is known by its identity alone.
    SimpleType(TypeIdentity),
    /// A container, known by its own identity; its elements are checked
    /// apart from it.
    Container(TypeIdentity),
}

/// A native type that can say what the type checker should expect of it.
pub trait StaticBase {
    /// The identity under which this type is checked.
    spec fn spec_identity(&self) -> TypeIdentity;

    /// Whether `type_check_info` describes this type: it is a simple type
    /// of this very identity.
    fn type_check(&self, type_check_info: &TypeCheckInfo) -> (r: bool)
        ensures
            r == (*type_check_info == TypeCheckInfo::SimpleType(self.spec_identity())),
    ;

    /// The description that `type_check` accepts.
    fn type_check_info(&self) -> (r: TypeCheckInfo)
        ensures
            r == TypeCheckInfo::SimpleType(self.spec_identity()),
    ;
}

} // verus!
