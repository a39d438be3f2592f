//! From a managed value to a native value.
//!
//! Handing a value to native code takes two steps. The first examines the
//! value's ownership tag, moves it to the state that holds during the native
//! call, and gives a [`GcInfoGuard`] that knows how to commit or undo that
//! move. The second says what is to cross the boundary: a reference, a copy
//! or the payload itself. When one argument of a native call is refused, the
//! guards of the arguments before it put their values back as they were.
//!
//! Which rule applies is decided by the shape of the requested native type
//! alone, in four layers: [`FromValue`] knows optional types and the handle
//! type, [`FromValueL1`] references, [`FromValueL2`] scalars, and
//! [`FromValueL3`] tells types that are copied from types that are moved.
use vstd::prelude::*;
use crate::data::{lemma_without_access, GcInfo, Value, ValueData, GCINFO_RW_MASK};
use crate::error::{LifetimeError, NullError, TError};
use crate::tyck::FFIAction;
use crate::void::Void;

verus! {

/// A staged change of one value's ownership tag.
///
/// `value` is the handle of the value that the guard was made for,
/// `on_finish` the state to commit once the native call has returned, and
/// `on_yank` the state to restore when the call is given up. A guard is
/// used up by the first `finish` or `yank`; after that, both do nothing.
#[derive(Debug, PartialEq, Eq, Structural)]
pub struct GcInfoGuard {
    pub value: ValueData,
    pub on_finish: Option<GcInfo>,
    pub on_yank: Option<GcInfo>,
}

impl GcInfoGuard {
    /// The guard of `value` that changes nothing, whichever way it ends.
    pub open spec fn spec_no_action(value: ValueData) -> GcInfoGuard {
        GcInfoGuard { value, on_finish: None, on_yank: None }
    }

    /// Whether the guard was made for `value`.
    pub open spec fn guards(self, value: Value) -> bool {
        self.value == value.data
    }

    /// The tag that a value in state `current` has after `finish`.
    pub open spec fn finished_tag(self, current: GcInfo) -> GcInfo {
        match self.on_finish {
            Some(to) => to,
            None => current,
        }
    }

    /// The tag that a value in state `current` has after `yank`.
    pub open spec fn yanked_tag(self, current: GcInfo) -> GcInfo {
        match self.on_yank {
            Some(to) => to,
            None => current,
        }
    }

    /// A guard of `value` that commits `on_finish` and, given up, restores
    /// `on_yank`.
    #[inline]
    pub fn new(value: &Value, on_finish: GcInfo, on_yank: GcInfo) -> (r: GcInfoGuard)
        ensures
            r == (GcInfoGuard {
                value: value.data,
                on_finish: Some(on_finish),
                on_yank: Some(on_yank),
            }),
    {
        GcInfoGuard { value: value.data, on_finish: Some(on_finish), on_yank: Some(on_yank) }
    }

    /// A guard of `value` that changes nothing.
    #[inline]
    pub fn no_action(value: &Value) -> (r: GcInfoGuard)
        ensures
            r == GcInfoGuard::spec_no_action(value.data),
    {
        GcInfoGuard { value: value.data, on_finish: None, on_yank: None }
    }

    /// Commits: the value takes the state staged for success, if one was
    /// staged, and the guard is spent. `value` is the value that the guard
    /// was made for.
    #[inline]
    pub fn finish(&mut self, value: &mut Value)
        requires
            old(self).guards(*old(value)),
        ensures
            final(value).data == old(value).data,
            final(value).gc_info == old(self).finished_tag(old(value).gc_info),
            *final(self) == GcInfoGuard::spec_no_action(old(self).value),
    {
        if let Some(on_finish) = self.on_finish {
            value.set_gc_info(on_finish);
        }
        self.on_finish = None;
        self.on_yank = None;
    }

    /// Gives up: the value takes the state staged for failure, if one was
    /// staged, and the guard is spent. This is what leaving the guard's
    /// scope without `finish` amounts to. `value` is the value that the
    /// guard was made for.
    #[inline]
    pub fn yank(&mut self, value: &mut Value)
        requires
            old(self).guards(*old(value)),
        ensures
            final(value).data == old(value).data,
            final(value).gc_info == old(self).yanked_tag(old(value).gc_info),
            *final(self) == GcInfoGuard::spec_no_action(old(self).value),
    {
        if let Some(on_yank) = self.on_yank {
            value.set_gc_info(on_yank);
        }
        self.on_finish = None;
        self.on_yank = None;
    }
}

/// A boxed native type that is handed over by value.
#[derive(Clone, Copy, Debug, PartialEq, Eq, Structural)]
pub enum BoxedType {
    /// The payload can be copied; the value keeps it.
    Copyable,
    /// The payload can only be moved; the value loses it.
    MoveOnly,
}

/// A native type that is handed over by value.
#[derive(Clone, Copy, Debug, PartialEq, Eq, Structural)]
pub enum OwnedType {
    /// A type that fits a value's inline payload, such as an integer.
    Scalar,
    /// Any other type.
    Boxed(BoxedType),
}

/// A native type that needs a value to be present.
#[derive(Clone, Copy, Debug, PartialEq, Eq, Structural)]
pub enum NativeType {
    /// An immutable reference.
    Ref,
    /// A mutable reference.
    MutRef,
    /// The thing itself.
    Owned(OwnedType),
}

/// The shape of the native type that a parameter asks for.
#[derive(Clone, Copy, Debug, PartialEq, Eq, Structural)]
pub enum RequestedType {
    /// An optional native type: a null value is accepted and means absence.
    Optional(NativeType),
    /// The handle type itself, passed through unchanged.
    Handle,
    /// A native type that is not optional.
    Plain(NativeType),
}

/// What crosses the boundary for one present value.
#[derive(Clone, Copy, Debug, PartialEq, Eq, Structural)]
pub enum Transfer {
    /// An immutable reference to what the handle refers to.
    Ref(ValueData),
    /// A mutable reference to what the handle refers to.
    MutRef(ValueData),
    /// The scalar that the handle carries inline.
    Inline(i64),
    /// A copy of the payload of the boxed object at this address.
    CopyOut(usize),
    /// The payload of the boxed object at this address, which is left empty.
    MoveOut(usize),
}

/// What a parameter receives.
#[derive(Clone, Copy, Debug, PartialEq, Eq, Structural)]
pub enum Extracted {
    /// An optional parameter whose value is null.
    Absent,
    /// An optional parameter whose value is present.
    Present(Transfer),
    /// A parameter that is not optional.
    Direct(Transfer),
    /// A copy of the handle.
    Handle(Value),
}

/// The action by which a boxed type is handed over.
pub open spec fn action_l3(requested: BoxedType) -> FFIAction {
    match requested {
        BoxedType::Copyable => FFIAction::Copy,
        BoxedType::MoveOnly => FFIAction::Move,
    }
}

/// The action by which an owned type is handed over.
pub open spec fn action_l2(requested: OwnedType) -> FFIAction {
    match requested {
        OwnedType::Scalar => FFIAction::Copy,
        OwnedType::Boxed(boxed) => action_l3(boxed),
    }
}

/// The action by which a native type is handed over.
pub open spec fn action_l1(requested: NativeType) -> FFIAction {
    match requested {
        NativeType::Ref => FFIAction::Share,
        NativeType::MutRef => FFIAction::MutShare,
        NativeType::Owned(owned) => action_l2(owned),
    }
}

/// Whether `action` is allowed on a value in state `tag`.
pub open spec fn is_legal(action: FFIAction, tag: GcInfo) -> bool {
    match action {
        FFIAction::Share => tag == GcInfo::Owned || tag == GcInfo::SharedToHost || tag
            == GcInfo::SharedFromHost,
        FFIAction::MutShare => tag.is_writable(),
        FFIAction::Copy => tag.is_readable(),
        FFIAction::Move => tag == GcInfo::Owned,
    }
}

/// The states that allow `action`, in the order in which a failure reports
/// them.
pub open spec fn legal_states(action: FFIAction) -> Seq<GcInfo> {
    match action {
        FFIAction::Share => seq![GcInfo::Owned, GcInfo::SharedToHost, GcInfo::SharedFromHost],
        FFIAction::MutShare => seq![GcInfo::MutSharedFromHost, GcInfo::Owned],
        FFIAction::Copy => seq![
            GcInfo::Owned,
            GcInfo::SharedFromHost,
            GcInfo::SharedToHost,
            GcInfo::TempObject,
        ],
        FFIAction::Move => seq![GcInfo::Owned],
    }
}

/// The state that a value found in state `tag` has while the native call
/// runs, where `action` is allowed.
pub open spec fn staged_tag(action: FFIAction, tag: GcInfo) -> GcInfo {
    match action {
        FFIAction::Share => if tag == GcInfo::Owned {
            GcInfo::SharedToHost
        } else {
            tag
        },
        FFIAction::MutShare => tag.spec_without_access(),
        FFIAction::Copy => tag,
        FFIAction::Move => GcInfo::MovedToHost,
    }
}

/// The state that a value found in state `tag` has once the native call has
/// returned and the guard is finished, where `action` is allowed.
pub open spec fn committed_tag(action: FFIAction, tag: GcInfo) -> GcInfo {
    match action {
        FFIAction::Share => if tag == GcInfo::Owned {
            GcInfo::SharedToHost
        } else {
            tag
        },
        FFIAction::MutShare => tag,
        FFIAction::Copy => tag,
        FFIAction::Move => GcInfo::MovedToHost,
    }
}

/// The guard that a successful check of `action` on `value` gives.
pub open spec fn guard_for(action: FFIAction, value: Value) -> GcInfoGuard {
    match action {
        FFIAction::Share => if value.gc_info == GcInfo::Owned {
            GcInfoGuard {
                value: value.data,
                on_finish: Some(GcInfo::SharedToHost),
                on_yank: Some(GcInfo::Owned),
            }
        } else {
            GcInfoGuard::spec_no_action(value.data)
        },
        FFIAction::MutShare => GcInfoGuard {
            value: value.data,
            on_finish: Some(value.gc_info),
            on_yank: Some(value.gc_info),
        },
        FFIAction::Copy => GcInfoGuard::spec_no_action(value.data),
        FFIAction::Move => GcInfoGuard {
            value: value.data,
            on_finish: Some(GcInfo::MovedToHost),
            on_yank: Some(GcInfo::Owned),
        },
    }
}

/// Whether `tag` is a state that a successful check of `action` leaves a
/// value in.
pub open spec fn is_staged(action: FFIAction, tag: GcInfo) -> bool {
    match action {
        FFIAction::Share => tag == GcInfo::SharedToHost || tag == GcInfo::SharedFromHost,
        FFIAction::MutShare => tag == GcInfo::MutSharedToHost || tag
            == GcInfo::MutSharedBackToHost,
        FFIAction::Copy => tag.is_readable(),
        FFIAction::Move => tag == GcInfo::MovedToHost,
    }
}

/// What a check of `action` on `value` has to give: where the action is
/// allowed, the guard for it, with the value in its staged state; where it
/// is not, the failure that reports the allowed states, the action and the
/// state found, with the value untouched.
pub open spec fn action_outcome(
    value: Value,
    action: FFIAction,
    r: Result<GcInfoGuard, TError>,
    after: Value,
) -> bool {
    if is_legal(action, value.gc_info) {
        &&& r == Ok::<GcInfoGuard, TError>(guard_for(action, value))
        &&& after == (Value { data: value.data, gc_info: staged_tag(action, value.gc_info) })
    } else {
        &&& r matches Err(e)
        &&& e.is_lifetime_error(legal_states(action), action, value.gc_info)
        &&& after == value
    }
}

/// What a check of a native type on `value` has to give: a null value is
/// refused as null; any other is judged by the type's action.
pub open spec fn native_outcome(
    value: Value,
    requested: NativeType,
    r: Result<GcInfoGuard, TError>,
    after: Value,
) -> bool {
    if value.spec_is_null() {
        &&& r matches Err(e)
        &&& e.is_null_error()
        &&& after == value
    } else {
        action_outcome(value, action_l1(requested), r, after)
    }
}

/// Whether a check of `requested` on `value` succeeds.
pub open spec fn accepts(value: Value, requested: RequestedType) -> bool {
    match requested {
        RequestedType::Optional(native) => value.spec_is_null() || is_legal(
            action_l1(native),
            value.gc_info,
        ),
        RequestedType::Handle => true,
        RequestedType::Plain(native) => !value.spec_is_null() && is_legal(
            action_l1(native),
            value.gc_info,
        ),
    }
}

/// Whether a check of `requested` on `value` changes nothing and gives the
/// guard that changes nothing: a null value where absence is allowed, or a
/// request for the handle itself.
pub open spec fn passes_untouched(value: Value, requested: RequestedType) -> bool {
    match requested {
        RequestedType::Optional(_) => value.spec_is_null(),
        RequestedType::Handle => true,
        RequestedType::Plain(_) => false,
    }
}

/// The native type inside a request, where there is one.
pub open spec fn native_of(requested: RequestedType) -> NativeType {
    match requested {
        RequestedType::Optional(native) => native,
        RequestedType::Plain(native) => native,
        RequestedType::Handle => NativeType::Ref,
    }
}

/// The value after a successful check of `requested`.
pub open spec fn staged_value(value: Value, requested: RequestedType) -> Value {
    if passes_untouched(value, requested) {
        value
    } else {
        Value {
            data: value.data,
            gc_info: staged_tag(action_l1(native_of(requested)), value.gc_info),
        }
    }
}

/// The guard that a successful check of `requested` on `value` gives.
pub open spec fn staged_guard(value: Value, requested: RequestedType) -> GcInfoGuard {
    if passes_untouched(value, requested) {
        GcInfoGuard::spec_no_action(value.data)
    } else {
        guard_for(action_l1(native_of(requested)), value)
    }
}

/// Whether `e` is the failure that a check of `requested` on `value` gives.
pub open spec fn is_refusal(value: Value, requested: RequestedType, e: TError) -> bool {
    if value.spec_is_null() {
        e.is_null_error()
    } else {
        e.is_lifetime_error(
            legal_states(action_l1(native_of(requested))),
            action_l1(native_of(requested)),
            value.gc_info,
        )
    }
}

/// What a check of `requested` on `value` has to give.
pub open spec fn request_outcome(
    value: Value,
    requested: RequestedType,
    r: Result<GcInfoGuard, TError>,
    after: Value,
) -> bool {
    if accepts(value, requested) {
        &&& r == Ok::<GcInfoGuard, TError>(staged_guard(value, requested))
        &&& after == staged_value(value, requested)
    } else {
        &&& r matches Err(e)
        &&& is_refusal(value, requested, e)
        &&& after == value
    }
}

/// The payload of a scalar or copyable type: read inline where the handle
/// carries it, copied out of the boxed object otherwise.
pub open spec fn copied(data: ValueData) -> Transfer {
    match data {
        ValueData::Int(scalar) => Transfer::Inline(scalar),
        ValueData::Boxed(address) => Transfer::CopyOut(address),
    }
}

/// What crosses the boundary for a boxed type.
pub open spec fn transfer_l3(data: ValueData, requested: BoxedType) -> Transfer {
    match requested {
        BoxedType::Copyable => copied(data),
        BoxedType::MoveOnly => match data {
            ValueData::Boxed(address) => Transfer::MoveOut(address),
            ValueData::Int(scalar) => Transfer::Inline(scalar),
        },
    }
}

/// What crosses the boundary for an owned type.
pub open spec fn transfer_l2(data: ValueData, requested: OwnedType) -> Transfer {
    match requested {
        OwnedType::Scalar => copied(data),
        OwnedType::Boxed(boxed) => transfer_l3(data, boxed),
    }
}

/// What crosses the boundary for a native type.
pub open spec fn transfer_l1(data: ValueData, requested: NativeType) -> Transfer {
    match requested {
        NativeType::Ref => Transfer::Ref(data),
        NativeType::MutRef => Transfer::MutRef(data),
        NativeType::Owned(owned) => transfer_l2(data, owned),
    }
}

/// What a parameter of type `requested` receives from `value`.
pub open spec fn extracted(value: Value, requested: RequestedType) -> Extracted {
    match requested {
        RequestedType::Optional(native) => if value.spec_is_null() {
            Extracted::Absent
        } else {
            Extracted::Present(transfer_l1(value.data, native))
        },
        RequestedType::Handle => Extracted::Handle(value),
        RequestedType::Plain(native) => Extracted::Direct(transfer_l1(value.data, native)),
    }
}

/// Whether the payload of `value` can be moved out: it is a boxed object.
pub open spec fn movable(value: Value, action: FFIAction) -> bool {
    action == FFIAction::Move ==> value.data is Boxed
}

/// Whether `value` is as a successful check of `action` leaves it: in a
/// staged state of the action, and boxed where its payload is to be moved
/// out.
pub open spec fn ready_for(value: Value, action: FFIAction) -> bool {
    &&& is_staged(action, value.gc_info)
    &&& movable(value, action)
}

/// Whether `value` is as a successful check of a native type leaves it:
/// present, and ready for the type's action.
pub open spec fn ready_l1(value: Value, requested: NativeType) -> bool {
    &&& !value.spec_is_null()
    &&& ready_for(value, action_l1(requested))
}

/// Whether `value` is as a successful check of `requested` leaves it.
pub open spec fn ready(value: Value, requested: RequestedType) -> bool {
    match requested {
        RequestedType::Optional(native) => value.spec_is_null() || ready_l1(value, native),
        RequestedType::Handle => true,
        RequestedType::Plain(native) => ready_l1(value, native),
    }
}

/// The value after a check of `requested` that succeeded and was then
/// committed.
pub open spec fn committed_value(value: Value, requested: RequestedType) -> Value {
    if passes_untouched(value, requested) {
        value
    } else {
        Value {
            data: value.data,
            gc_info: committed_tag(action_l1(native_of(requested)), value.gc_info),
        }
    }
}

/// The states that allow `action`, as a failure reports them.
pub fn expected_states(action: FFIAction) -> (r: Vec<GcInfo>)
    ensures
        r@ == legal_states(action),
{
    let r = match action {
        FFIAction::Share => vec![GcInfo::Owned, GcInfo::SharedToHost, GcInfo::SharedFromHost],
        FFIAction::MutShare => vec![GcInfo::MutSharedFromHost, GcInfo::Owned],
        FFIAction::Copy => vec![
            GcInfo::Owned,
            GcInfo::SharedFromHost,
            GcInfo::SharedToHost,
            GcInfo::TempObject,
        ],
        FFIAction::Move => vec![GcInfo::Owned],
    };
    assert(r@ =~= legal_states(action));
    r
}

/// The failure of `action` on a value found in state `actual`.
fn refuse(action: FFIAction, actual: GcInfo) -> (r: Result<GcInfoGuard, TError>)
    ensures
        r matches Err(e) && e.is_lifetime_error(legal_states(action), action, actual),
{
    Err(TError::Lifetime(LifetimeError::new(expected_states(action), action, actual)))
}

/// The check of an action that reads: allowed where the read bit is set,
/// and nothing changes.
fn check_copy(value: &mut Value) -> (r: Result<GcInfoGuard, TError>)
    ensures
        action_outcome(*old(value), FFIAction::Copy, r, *final(value)),
{
    let actual = value.gc_info();
    if actual.readable() {
        Ok(GcInfoGuard::no_action(value))
    } else {
        refuse(FFIAction::Copy, actual)
    }
}

/// The outermost layer: optional types and the handle type.
pub trait FromValue {
    /// Checks that `value` may be handed over as `requested` and stages the
    /// change of its ownership state.
    fn lifetime_check(value: &mut Value, requested: &RequestedType) -> (r: Result<
        GcInfoGuard,
        TError,
    >)
        ensures
            request_outcome(*old(value), *requested, r, *final(value)),
    ;

    /// Says what crosses the boundary. The value has to be as a successful
    /// `lifetime_check` of the same request left it.
    fn from_value(value: &Value, requested: &RequestedType) -> (r: Extracted)
        requires
            ready(*value, *requested),
        ensures
            r == extracted(*value, *requested),
    ;
}

/// The second layer: references.
pub trait FromValueL1 {
    /// Checks a request that needs the value to be present.
    fn lifetime_check_l1(value: &mut Value, requested: &NativeType) -> (r: Result<
        GcInfoGuard,
        TError,
    >)
        ensures
            native_outcome(*old(value), *requested, r, *final(value)),
    ;

    /// Says what crosses the boundary for a present value.
    fn from_value_l1(value: &Value, requested: &NativeType) -> (r: Transfer)
        requires
            ready_l1(*value, *requested),
        ensures
            r == transfer_l1(value.data, *requested),
    ;
}

/// The third layer: scalars.
pub trait FromValueL2 {
    /// Checks a request for an owned native value.
    fn lifetime_check_l2(value: &mut Value, requested: &OwnedType) -> (r: Result<
        GcInfoGuard,
        TError,
    >)
        ensures
            action_outcome(*old(value), action_l2(*requested), r, *final(value)),
    ;

    /// Says what crosses the boundary for an owned native value.
    fn from_value_l2(value: &Value, requested: &OwnedType) -> (r: Transfer)
        requires
            ready_for(*value, action_l2(*requested)),
        ensures
            r == transfer_l2(value.data, *requested),
    ;
}

/// The innermost layer: copied or moved.
pub trait FromValueL3 {
    /// Checks a request for an owned boxed value.
    fn lifetime_check_l3(value: &mut Value, requested: &BoxedType) -> (r: Result<
        GcInfoGuard,
        TError,
    >)
        ensures
            action_outcome(*old(value), action_l3(*requested), r, *final(value)),
    ;

    /// Says what crosses the boundary for an owned boxed value.
    fn from_value_l3(value: &Value, requested: &BoxedType) -> (r: Transfer)
        requires
            ready_for(*value, action_l3(*requested)),
        ensures
            r == transfer_l3(value.data, *requested),
    ;
}

impl FromValue for Void {
    fn lifetime_check(value: &mut Value, requested: &RequestedType) -> (r: Result<
        GcInfoGuard,
        TError,
    >) {
        match requested {
            RequestedType::Optional(native) => {
                if value.is_null() {
                    Ok(GcInfoGuard::no_action(value))
                } else {
                    <Void as FromValueL1>::lifetime_check_l1(value, native)
                }
            },
            RequestedType::Handle => Ok(GcInfoGuard::no_action(value)),
            RequestedType::Plain(native) => <Void as FromValueL1>::lifetime_check_l1(
                value,
                native,
            ),
        }
    }

    fn from_value(value: &Value, requested: &RequestedType) -> (r: Extracted) {
        match requested {
            RequestedType::Optional(native) => {
                if value.is_null() {
                    Extracted::Absent
                } else {
                    Extracted::Present(<Void as FromValueL1>::from_value_l1(value, native))
                }
            },
            RequestedType::Handle => Extracted::Handle(*value),
            RequestedType::Plain(native) => Extracted::Direct(
                <Void as FromValueL1>::from_value_l1(value, native),
            ),
        }
    }
}

impl FromValueL1 for Void {
    fn lifetime_check_l1(value: &mut Value, requested: &NativeType) -> (r: Result<
        GcInfoGuard,
        TError,
    >) {
        if value.is_null() {
            return Err(TError::Null(NullError()));
        }
        match requested {
            NativeType::Ref => {
                let actual = value.gc_info();
                match actual {
                    GcInfo::Owned => {
                        value.set_gc_info(GcInfo::SharedToHost);
                        Ok(GcInfoGuard::new(value, GcInfo::SharedToHost, GcInfo::Owned))
                    },
                    GcInfo::SharedToHost | GcInfo::SharedFromHost => Ok(GcInfoGuard::no_action(value)),
                    _ => refuse(FFIAction::Share, actual),
                }
            },
            NativeType::MutRef => {
                let actual = value.gc_info();
                if actual.writable() {
                    value.set_gc_info(actual.without_access());
                    Ok(GcInfoGuard::new(value, actual, actual))
                } else {
                    refuse(FFIAction::MutShare, actual)
                }
            },
            NativeType::Owned(owned) => <Void as FromValueL2>::lifetime_check_l2(value, owned),
        }
    }

    fn from_value_l1(value: &Value, requested: &NativeType) -> (r: Transfer) {
        match requested {
            NativeType::Ref => Transfer::Ref(value.data),
            NativeType::MutRef => Transfer::MutRef(value.data),
            NativeType::Owned(owned) => <Void as FromValueL2>::from_value_l2(value, owned),
        }
    }
}

impl FromValueL2 for Void {
    #[inline]
    fn lifetime_check_l2(value: &mut Value, requested: &OwnedType) -> (r: Result<
        GcInfoGuard,
        TError,
    >) {
        match requested {
            OwnedType::Scalar => check_copy(value),
            OwnedType::Boxed(boxed) => <Void as FromValueL3>::lifetime_check_l3(value, boxed),
        }
    }

    #[inline]
    fn from_value_l2(value: &Value, requested: &OwnedType) -> (r: Transfer) {
        match requested {
            OwnedType::Scalar => match value.data {
                ValueData::Int(scalar) => Transfer::Inline(scalar),
                ValueData::Boxed(address) => Transfer::CopyOut(address),
            },
            OwnedType::Boxed(boxed) => <Void as FromValueL3>::from_value_l3(value, boxed),
        }
    }
}

impl FromValueL3 for Void {
    #[inline]
    fn lifetime_check_l3(value: &mut Value, requested: &BoxedType) -> (r: Result<
        GcInfoGuard,
        TError,
    >) {
        match requested {
            BoxedType::Copyable => check_copy(value),
            BoxedType::MoveOnly => {
                let actual = value.gc_info();
                if actual == GcInfo::Owned {
                    value.set_gc_info(GcInfo::MovedToHost);
                    Ok(GcInfoGuard::new(value, GcInfo::MovedToHost, GcInfo::Owned))
                } else {
                    refuse(FFIAction::Move, actual)
                }
            },
        }
    }

    #[inline]
    fn from_value_l3(value: &Value, requested: &BoxedType) -> (r: Transfer) {
        match value.data {
            ValueData::Boxed(address) => match requested {
                BoxedType::Copyable => Transfer::CopyOut(address),
                BoxedType::MoveOnly => Transfer::MoveOut(address),
            },
            ValueData::Int(scalar) => Transfer::Inline(scalar),
        }
    }
}

/// Whether `value` is as a successful check of `requested` leaves it, so
/// that extraction may follow.
pub fn is_ready(value: &Value, requested: &RequestedType) -> (r: bool)
    ensures
        r == ready(*value, *requested),
{
    let native = match requested {
        RequestedType::Optional(native) => {
            if value.is_null() {
                return true;
            }
            native
        },
        RequestedType::Handle => {
            return true;
        },
        RequestedType::Plain(native) => native,
    };
    let tag = value.gc_info();
    !value.is_null() && match native {
        NativeType::Ref => tag == GcInfo::SharedToHost || tag == GcInfo::SharedFromHost,
        NativeType::MutRef => tag == GcInfo::MutSharedToHost || tag
            == GcInfo::MutSharedBackToHost,
        NativeType::Owned(OwnedType::Boxed(BoxedType::MoveOnly)) => tag == GcInfo::MovedToHost
            && !value.is_value(),
        NativeType::Owned(_) => tag.readable(),
    }
}

/// Giving up a guard undoes its check: after a successful check of any
/// request, a `yank` of the guard leaves the value with the tag that it had
/// before the check.
pub proof fn lemma_yank_restores(value: Value, requested: RequestedType)
    requires
        accepts(value, requested),
    ensures
        staged_guard(value, requested).guards(staged_value(value, requested)),
        staged_guard(value, requested).yanked_tag(staged_value(value, requested).gc_info)
            == value.gc_info,
        staged_value(value, requested).data == value.data,
{
}

/// Finishing a guard commits its check: after a successful check of any
/// request, a `finish` of the guard leaves the value with the tag that the
/// action ends in. Sharing an `Owned` value ends in `SharedToHost`, moving
/// ends in `MovedToHost`, and a mutable borrow or a copy ends where it began.
/// What crosses the boundary in between changes no tag.
pub proof fn lemma_finish_commits(value: Value, requested: RequestedType)
    requires
        accepts(value, requested),
    ensures
        staged_guard(value, requested).guards(staged_value(value, requested)),
        staged_guard(value, requested).finished_tag(staged_value(value, requested).gc_info)
            == committed_value(value, requested).gc_info,
        committed_value(value, requested).data == value.data,
        requested == RequestedType::Plain(NativeType::Ref) && value.gc_info == GcInfo::Owned
            ==> committed_value(value, requested).gc_info == GcInfo::SharedToHost,
        requested == RequestedType::Plain(NativeType::MutRef) ==> committed_value(
            value,
            requested,
        ).gc_info == value.gc_info,
        requested == RequestedType::Plain(
            NativeType::Owned(OwnedType::Boxed(BoxedType::MoveOnly)),
        ) ==> committed_value(value, requested).gc_info == GcInfo::MovedToHost,
{
}

/// A successful check leaves the value ready for extraction, provided that
/// a payload that is to be moved out lives in a boxed object.
pub proof fn lemma_accepted_is_ready(value: Value, requested: RequestedType)
    requires
        accepts(value, requested),
        movable(value, action_l1(native_of(requested))),
    ensures
        ready(staged_value(value, requested), requested),
{
}

/// The staged states of an action are exactly the states that its legal
/// states are taken to.
pub proof fn lemma_staged_states(action: FFIAction, tag: GcInfo)
    ensures
        is_staged(action, tag) <==> exists|before: GcInfo|
            is_legal(action, before) && #[trigger] staged_tag(action, before) == tag,
{
    if is_staged(action, tag) {
        let before = match action {
            FFIAction::Share => tag,
            FFIAction::MutShare => if tag == GcInfo::MutSharedToHost {
                GcInfo::Owned
            } else {
                GcInfo::MutSharedFromHost
            },
            FFIAction::Copy => tag,
            FFIAction::Move => GcInfo::Owned,
        };
        assert(is_legal(action, before) && staged_tag(action, before) == tag);
    }
}

/// An action is allowed in exactly the states that a failure of it reports.
pub proof fn lemma_legal_states(action: FFIAction, tag: GcInfo)
    ensures
        is_legal(action, tag) <==> legal_states(action).contains(tag),
{
    let states = legal_states(action);
    if is_legal(action, tag) {
        match action {
            FFIAction::Share => {
                assert(states[0] == GcInfo::Owned && states[1] == GcInfo::SharedToHost
                    && states[2] == GcInfo::SharedFromHost);
            },
            FFIAction::MutShare => {
                assert(states[0] == GcInfo::MutSharedFromHost && states[1] == GcInfo::Owned);
            },
            FFIAction::Copy => {
                assert(states[0] == GcInfo::Owned && states[1] == GcInfo::SharedFromHost
                    && states[2] == GcInfo::SharedToHost && states[3] == GcInfo::TempObject);
            },
            FFIAction::Move => {
                assert(states[0] == GcInfo::Owned);
            },
        }
        assert(states.contains(tag));
    }
}

/// A mutable borrow excludes every other access. Where a present value is
/// writable, a check for a mutable reference succeeds and stages the tag
/// with both permission bits cleared; while that state lasts, no check for
/// an immutable reference, a mutable reference, a copy or a move succeeds on
/// the value; and both `yank` and `finish` bring the earlier tag back.
pub proof fn lemma_mut_share_is_exclusive(value: Value, other: NativeType)
    requires
        !value.spec_is_null(),
        value.gc_info.is_writable(),
    ensures
        accepts(value, RequestedType::Plain(NativeType::MutRef)),
        staged_value(value, RequestedType::Plain(NativeType::MutRef)).gc_info.spec_bits()
            == value.gc_info.spec_bits() & !GCINFO_RW_MASK,
        !staged_value(value, RequestedType::Plain(NativeType::MutRef)).gc_info.is_readable(),
        !staged_value(value, RequestedType::Plain(NativeType::MutRef)).gc_info.is_writable(),
        !accepts(
            staged_value(value, RequestedType::Plain(NativeType::MutRef)),
            RequestedType::Plain(other),
        ),
        !accepts(
            staged_value(value, RequestedType::Plain(NativeType::MutRef)),
            RequestedType::Optional(other),
        ),
        staged_guard(value, RequestedType::Plain(NativeType::MutRef)).yanked_tag(
            staged_value(value, RequestedType::Plain(NativeType::MutRef)).gc_info,
        ) == value.gc_info,
        staged_guard(value, RequestedType::Plain(NativeType::MutRef)).finished_tag(
            staged_value(value, RequestedType::Plain(NativeType::MutRef)).gc_info,
        ) == value.gc_info,
{
    lemma_without_access(value.gc_info);
}

/// Absence is always accepted where it is allowed: on a null value, a check
/// of an optional type succeeds whatever the type inside, changes nothing,
/// stages nothing, and extraction gives `Absent`.
pub proof fn lemma_null_is_absent(value: Value, inner: NativeType)
    requires
        value.spec_is_null(),
    ensures
        accepts(value, RequestedType::Optional(inner)),
        staged_value(value, RequestedType::Optional(inner)) == value,
        staged_guard(value, RequestedType::Optional(inner)) == GcInfoGuard::spec_no_action(
            value.data,
        ),
        ready(value, RequestedType::Optional(inner)),
        extracted(value, RequestedType::Optional(inner)) == Extracted::Absent,
{
}

} // verus!
