//! Type-erased heap objects that keep the identity of what they hold.
//!
//! A boxed object owns a native payload and remembers the identity and the
//! name of the payload's type. Nothing here reaches into the payload: only
//! the identity is asked for, so that a native signature can be compared
//! with what a value holds, or with what a native type is expected to be
//! before any value exists.
use vstd::prelude::*;
use crate::tyck::{StaticBase, TypeCheckInfo, TypeIdentity};

verus! {

/// Where an object lives and who borrows it, in the narrow sense that heap
/// pointers record. The marshalling layers use the richer
/// `crate::data::GcInfo` instead.
#[derive(Clone, Copy, Debug, PartialEq, Eq, Structural)]
pub enum GcInfo {
    OnVMStack,
    OnVMHeap,
    SharedWithHost,
    MutSharedWithHost,
}

impl GcInfo {
    /// The number of this state: 0 to 3 in the order of declaration.
    pub open spec fn spec_code(self) -> u8 {
        match self {
            GcInfo::OnVMStack => 0,
            GcInfo::OnVMHeap => 1,
            GcInfo::SharedWithHost => 2,
            GcInfo::MutSharedWithHost => 3,
        }
    }

    /// The number of this state.
    pub fn code(self) -> (r: u8)
        ensures
            r == self.spec_code(),
    {
        match self {
            GcInfo::OnVMStack => 0,
            GcInfo::OnVMHeap => 1,
            GcInfo::SharedWithHost => 2,
            GcInfo::MutSharedWithHost => 3,
        }
    }
}

/// What every heap object can say of itself without giving its payload away.
pub trait DynBase {
    /// The identity of the payload's type.
    spec fn spec_type_id(&self) -> TypeIdentity;

    /// The name of the payload's type.
    spec fn spec_type_name(&self) -> Seq<char>;

    /// A name that the object may choose to go by.
    spec fn spec_maybe_type_name(&self) -> Option<Seq<char>>;

    /// The identity of the payload's type.
    fn static_type_id(&self) -> (r: TypeIdentity)
        ensures
            r == self.spec_type_id(),
    ;

    /// The name of the payload's type, for diagnostics.
    fn static_type_name(&self) -> (r: &'static str)
        ensures
            r@ == self.spec_type_name(),
    ;

    /// A name that the object chooses to go by, if it has one.
    fn maybe_type_name(&self) -> (r: Option<&'static str>)
        ensures
            r is Some == self.spec_maybe_type_name() is Some,
            r matches Some(name) ==> Some(name@) == self.spec_maybe_type_name(),
    ;
}

/// What a null pointer is taken to point to: an object of any type.
#[derive(Clone, Copy, Debug)]
pub struct PhantomNullPtr {}

impl DynBase for PhantomNullPtr {
    open spec fn spec_type_id(&self) -> TypeIdentity {
        TypeIdentity::spec_any()
    }

    open spec fn spec_type_name(&self) -> Seq<char> {
        "any"@
    }

    open spec fn spec_maybe_type_name(&self) -> Option<Seq<char>> {
        None
    }

    fn static_type_id(&self) -> (r: TypeIdentity) {
        TypeIdentity::any()
    }

    fn static_type_name(&self) -> (r: &'static str) {
        "any"
    }

    fn maybe_type_name(&self) -> (r: Option<&'static str>) {
        None
    }
}

/// A heap object: a payload of type `Ta` with the identity and the name of
/// the native type that it stands for.
pub struct Wrapper<Ta> {
    pub inner: Ta,
    pub identity: TypeIdentity,
    pub name: &'static str,
}

impl<Ta> DynBase for Wrapper<Ta> {
    open spec fn spec_type_id(&self) -> TypeIdentity {
        self.identity
    }

    open spec fn spec_type_name(&self) -> Seq<char> {
        self.name@
    }

    open spec fn spec_maybe_type_name(&self) -> Option<Seq<char>> {
        None
    }

    fn static_type_id(&self) -> (r: TypeIdentity) {
        self.identity
    }

    fn static_type_name(&self) -> (r: &'static str) {
        self.name
    }

    fn maybe_type_name(&self) -> (r: Option<&'static str>) {
        None
    }
}

impl<Ta> StaticBase for Wrapper<Ta> {
    open spec fn spec_identity(&self) -> TypeIdentity {
        self.identity
    }

    fn type_check(&self, type_check_info: &TypeCheckInfo) -> (r: bool) {
        if let TypeCheckInfo::SimpleType(type_id) = type_check_info {
            *type_id == self.identity
        } else {
            false
        }
    }

    fn type_check_info(&self) -> (r: TypeCheckInfo) {
        TypeCheckInfo::SimpleType(self.identity)
    }
}

/// A pointer to a heap object, or null.
pub struct Ptr<D: DynBase> {
    pub gc_info: GcInfo,
    pub data: Option<D>,
}

impl<D: DynBase> Ptr<D> {
    /// The identity that the pointer answers with: that of the object's
    /// payload, or the identity of any type where the pointer is null.
    pub open spec fn spec_static_type_id(&self) -> TypeIdentity {
        match self.data {
            Some(dyn_base) => dyn_base.spec_type_id(),
            None => TypeIdentity::spec_any(),
        }
    }

    /// The identity of what the pointer points to. A null pointer does not
    /// fail: it answers as `PhantomNullPtr` does.
    pub fn static_type_id(&self) -> (r: TypeIdentity)
        ensures
            r == self.spec_static_type_id(),
    {
        match &self.data {
            Some(dyn_base) => dyn_base.static_type_id(),
            None => (PhantomNullPtr {}).static_type_id(),
        }
    }
}

/// Says what the type checker should expect of a native type, with no value
/// of that type at hand.
pub trait TypeCheckExtractor {
    /// The description of the type.
    spec fn spec_type_check_info(&self) -> TypeCheckInfo;

    /// The description of the type.
    fn type_check_info(&self) -> (r: TypeCheckInfo)
        ensures
            r == self.spec_type_check_info(),
    ;
}

/// A native type that is known by its identity alone is described as a heap
/// object of that identity describes itself: as a simple type.
impl TypeCheckExtractor for TypeIdentity {
    open spec fn spec_type_check_info(&self) -> TypeCheckInfo {
        TypeCheckInfo::SimpleType(*self)
    }

    fn type_check_info(&self) -> (r: TypeCheckInfo) {
        TypeCheckInfo::SimpleType(*self)
    }
}

/// A heap object describes itself.
impl<Ta> TypeCheckExtractor for Wrapper<Ta> {
    open spec fn spec_type_check_info(&self) -> TypeCheckInfo {
        TypeCheckInfo::SimpleType(self.identity)
    }

    fn type_check_info(&self) -> (r: TypeCheckInfo) {
        <Wrapper<Ta> as StaticBase>::type_check_info(self)
    }
}

/// A heap object passes the check against its own description, and against
/// the description extracted from its identity alone; it passes against no
/// description of another identity.
pub proof fn lemma_type_check_agrees<Ta>(wrapper: Wrapper<Ta>, other: TypeIdentity)
    ensures
        wrapper.spec_type_check_info() == TypeCheckInfo::SimpleType(wrapper.spec_identity()),
        wrapper.identity.spec_type_check_info() == wrapper.spec_type_check_info(),
        (other.spec_type_check_info() == TypeCheckInfo::SimpleType(wrapper.spec_identity()))
            == (other == wrapper.identity),
{
}

} // verus!
