//! Failures of marshalling.
use vstd::prelude::*;
use crate::data::GcInfo;
use crate::tyck::FFIAction;

verus! {

/// A value that had to be present was null.
#[derive(Clone, Copy, Debug, PartialEq, Eq, Structural)]
pub struct NullError();

/// The ownership state of a value does not allow the requested action.
#[derive(Debug, PartialEq, Eq)]
pub struct LifetimeError {
    /// The states in which the action is allowed.
    pub expected: Vec<GcInfo>,
    /// The action that was asked for.
    pub action: FFIAction,
    /// The state that the value was found in.
    pub actual: GcInfo,
}

impl LifetimeError {
    pub fn new(expected: Vec<GcInfo>, action: FFIAction, actual: GcInfo) -> (r: LifetimeError)
        ensures
            r.expected == expected,
            r.action == action,
            r.actual == actual,
    {
        LifetimeError { expected, action, actual }
    }
}

/// Any failure of marshalling.
#[derive(Debug, PartialEq, Eq)]
pub enum TError {
    Null(NullError),
    Lifetime(LifetimeError),
}

impl TError {
    /// Whether this is the failure on a null value.
    pub open spec fn is_null_error(self) -> bool {
        self is Null
    }

    /// Whether this is the failure of `action` on a value found in state
    /// `actual`, where `expected` lists the states that allow the action.
    pub open spec fn is_lifetime_error(
        self,
        expected: Seq<GcInfo>,
        action: FFIAction,
        actual: GcInfo,
    ) -> bool {
        match self {
            TError::Lifetime(e) => e.expected@ == expected && e.action == action && e.actual
                == actual,
            TError::Null(_) => false,
        }
    }
}

} // verus!
