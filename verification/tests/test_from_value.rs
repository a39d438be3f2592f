use t10::cast::call::{finish_all, lifetime_check_all, yank_all};
use t10::cast::from_value::{
    expected_states, is_ready, BoxedType, Extracted, FromValue, FromValueL1,
    FromValueL2, FromValueL3, GcInfoGuard, NativeType, OwnedType, RequestedType, Transfer,
};
use t10::data::{GcInfo, Value, ValueData};
use t10::error::{LifetimeError, NullError, TError};
use t10::tyck::FFIAction;
use t10::void::Void;

const ALL: [GcInfo; 8] = [
    GcInfo::Owned,
    GcInfo::SharedToHost,
    GcInfo::SharedFromHost,
    GcInfo::MutSharedFromHost,
    GcInfo::MovedToHost,
    GcInfo::TempObject,
    GcInfo::MutSharedToHost,
    GcInfo::MutSharedBackToHost,
];

const NATIVE: [NativeType; 5] = [
    NativeType::Ref,
    NativeType::MutRef,
    NativeType::Owned(OwnedType::Scalar),
    NativeType::Owned(OwnedType::Boxed(BoxedType::Copyable)),
    NativeType::Owned(OwnedType::Boxed(BoxedType::MoveOnly)),
];

const MOVE: RequestedType =
    RequestedType::Plain(NativeType::Owned(OwnedType::Boxed(BoxedType::MoveOnly)));
const COPY: RequestedType =
    RequestedType::Plain(NativeType::Owned(OwnedType::Boxed(BoxedType::Copyable)));
const SCALAR: RequestedType = RequestedType::Plain(NativeType::Owned(OwnedType::Scalar));
const REF: RequestedType = RequestedType::Plain(NativeType::Ref);
const MUT_REF: RequestedType = RequestedType::Plain(NativeType::MutRef);

fn all_requests() -> Vec<RequestedType> {
    let mut all = vec![RequestedType::Handle];
    for native in NATIVE {
        all.push(RequestedType::Plain(native));
        all.push(RequestedType::Optional(native));
    }
    all
}

fn all_values() -> Vec<Value> {
    let mut all = Vec::new();
    for tag in ALL {
        all.push(Value::boxed(0, tag));
        all.push(Value::boxed(128, tag));
        all.push(Value { data: ValueData::Int(9), gc_info: tag });
    }
    all
}

fn lifetime_error(expected: Vec<GcInfo>, action: FFIAction, actual: GcInfo) -> TError {
    TError::Lifetime(LifetimeError::new(expected, action, actual))
}

#[test]
fn test_guard_new_and_no_action() {
    let value = Value::boxed(24, GcInfo::SharedFromHost);
    let guard = GcInfoGuard::new(&value, GcInfo::MovedToHost, GcInfo::Owned);
    assert_eq!(guard.value, ValueData::Boxed(24));
    assert_eq!(guard.on_finish, Some(GcInfo::MovedToHost));
    assert_eq!(guard.on_yank, Some(GcInfo::Owned));
    let idle = GcInfoGuard::no_action(&value);
    assert_eq!(idle.value, ValueData::Boxed(24));
    assert_eq!(idle.on_finish, None);
    assert_eq!(idle.on_yank, None);
}

#[test]
fn test_guard_finish_applies_and_disarms() {
    let mut value = Value::boxed(8, GcInfo::SharedToHost);
    let mut guard = GcInfoGuard::new(&value, GcInfo::MovedToHost, GcInfo::Owned);
    guard.finish(&mut value);
    assert_eq!(value, Value::boxed(8, GcInfo::MovedToHost));
    assert_eq!(guard, GcInfoGuard::no_action(&value));
    guard.yank(&mut value);
    assert_eq!(value.gc_info(), GcInfo::MovedToHost);
}

#[test]
fn test_guard_finish_twice_is_no_op() {
    let mut value = Value::boxed(8, GcInfo::Owned);
    let mut guard = GcInfoGuard::new(&value, GcInfo::SharedToHost, GcInfo::Owned);
    guard.finish(&mut value);
    assert_eq!(value.gc_info(), GcInfo::SharedToHost);
    value.set_gc_info(GcInfo::TempObject);
    guard.finish(&mut value);
    assert_eq!(value.gc_info(), GcInfo::TempObject);
}

#[test]
fn test_guard_yank_applies_and_disarms() {
    let mut value = Value::boxed(8, GcInfo::MovedToHost);
    let mut guard = GcInfoGuard::new(&value, GcInfo::MovedToHost, GcInfo::Owned);
    guard.yank(&mut value);
    assert_eq!(value, Value::boxed(8, GcInfo::Owned));
    value.set_gc_info(GcInfo::SharedFromHost);
    guard.finish(&mut value);
    guard.yank(&mut value);
    assert_eq!(value.gc_info(), GcInfo::SharedFromHost);
}

#[test]
fn test_no_action_guard_never_changes_a_value() {
    for tag in ALL {
        let mut value = Value::boxed(8, tag);
        GcInfoGuard::no_action(&value).finish(&mut value);
        assert_eq!(value.gc_info(), tag);
        GcInfoGuard::no_action(&value).yank(&mut value);
        assert_eq!(value.gc_info(), tag);
    }
}

#[test]
fn test_expected_states() {
    assert_eq!(
        expected_states(FFIAction::Share),
        vec![GcInfo::Owned, GcInfo::SharedToHost, GcInfo::SharedFromHost]
    );
    assert_eq!(
        expected_states(FFIAction::MutShare),
        vec![GcInfo::MutSharedFromHost, GcInfo::Owned]
    );
    assert_eq!(
        expected_states(FFIAction::Copy),
        vec![GcInfo::Owned, GcInfo::SharedFromHost, GcInfo::SharedToHost, GcInfo::TempObject]
    );
    assert_eq!(expected_states(FFIAction::Move), vec![GcInfo::Owned]);
}

#[test]
fn test_abandoned_check_restores_tag() {
    for before in all_values() {
        for requested in all_requests() {
            let mut value = before;
            if let Ok(mut guard) = Void::lifetime_check(&mut value, &requested) {
                guard.yank(&mut value);
            }
            assert_eq!(value, before);
        }
    }
}

#[test]
fn test_refused_check_leaves_value_untouched() {
    let mut refused = 0;
    for before in all_values() {
        for requested in all_requests() {
            let mut value = before;
            if Void::lifetime_check(&mut value, &requested).is_err() {
                assert_eq!(value, before);
                refused += 1;
            }
        }
    }
    assert!(refused > 0);
}

#[test]
fn test_committed_tags() {
    let cases = [
        (REF, GcInfo::Owned, GcInfo::SharedToHost),
        (REF, GcInfo::SharedToHost, GcInfo::SharedToHost),
        (REF, GcInfo::SharedFromHost, GcInfo::SharedFromHost),
        (MUT_REF, GcInfo::Owned, GcInfo::Owned),
        (MUT_REF, GcInfo::MutSharedFromHost, GcInfo::MutSharedFromHost),
        (SCALAR, GcInfo::Owned, GcInfo::Owned),
        (SCALAR, GcInfo::TempObject, GcInfo::TempObject),
        (COPY, GcInfo::SharedFromHost, GcInfo::SharedFromHost),
        (COPY, GcInfo::SharedToHost, GcInfo::SharedToHost),
        (MOVE, GcInfo::Owned, GcInfo::MovedToHost),
    ];
    for (requested, before, after) in cases {
        let mut value = Value::boxed(256, before);
        let mut guard = Void::lifetime_check(&mut value, &requested).unwrap();
        assert!(is_ready(&value, &requested));
        let _ = Void::from_value(&value, &requested);
        guard.finish(&mut value);
        assert_eq!(value, Value::boxed(256, after));
    }
}

#[test]
fn test_staged_tags() {
    let cases = [
        (REF, GcInfo::Owned, GcInfo::SharedToHost),
        (REF, GcInfo::SharedFromHost, GcInfo::SharedFromHost),
        (MUT_REF, GcInfo::Owned, GcInfo::MutSharedToHost),
        (MUT_REF, GcInfo::MutSharedFromHost, GcInfo::MutSharedBackToHost),
        (SCALAR, GcInfo::SharedToHost, GcInfo::SharedToHost),
        (COPY, GcInfo::TempObject, GcInfo::TempObject),
        (MOVE, GcInfo::Owned, GcInfo::MovedToHost),
    ];
    for (requested, before, staged) in cases {
        let mut value = Value::boxed(256, before);
        assert!(Void::lifetime_check(&mut value, &requested).is_ok());
        assert_eq!(value, Value::boxed(256, staged));
    }
}

#[test]
fn test_guards_of_each_action() {
    let handle = Value::boxed(1, GcInfo::Owned);
    let mut value = handle;
    assert_eq!(
        Void::lifetime_check(&mut value, &REF),
        Ok(GcInfoGuard::new(&handle, GcInfo::SharedToHost, GcInfo::Owned))
    );
    assert_eq!(Void::lifetime_check(&mut value, &REF), Ok(GcInfoGuard::no_action(&handle)));
    let mut value = Value::boxed(1, GcInfo::MutSharedFromHost);
    assert_eq!(
        Void::lifetime_check(&mut value, &MUT_REF),
        Ok(GcInfoGuard::new(&handle, GcInfo::MutSharedFromHost, GcInfo::MutSharedFromHost))
    );
    let mut value = Value::boxed(1, GcInfo::Owned);
    assert_eq!(Void::lifetime_check(&mut value, &COPY), Ok(GcInfoGuard::no_action(&handle)));
    assert_eq!(Void::lifetime_check(&mut value, &SCALAR), Ok(GcInfoGuard::no_action(&handle)));
    assert_eq!(
        Void::lifetime_check(&mut value, &MOVE),
        Ok(GcInfoGuard::new(&handle, GcInfo::MovedToHost, GcInfo::Owned))
    );
}

#[test]
fn test_share_is_legal_in_three_states() {
    for tag in ALL {
        let mut value = Value::boxed(32, tag);
        let r = Void::lifetime_check(&mut value, &REF);
        let legal =
            matches!(tag, GcInfo::Owned | GcInfo::SharedToHost | GcInfo::SharedFromHost);
        assert_eq!(r.is_ok(), legal);
        if !legal {
            assert_eq!(
                r,
                Err(lifetime_error(
                    vec![GcInfo::Owned, GcInfo::SharedToHost, GcInfo::SharedFromHost],
                    FFIAction::Share,
                    tag
                ))
            );
        }
    }
}

#[test]
fn test_mut_share_needs_write_permission() {
    for tag in ALL {
        let mut value = Value::boxed(32, tag);
        let r = Void::lifetime_check(&mut value, &MUT_REF);
        assert_eq!(r.is_ok(), tag.writable());
        if !tag.writable() {
            assert_eq!(
                r,
                Err(lifetime_error(
                    vec![GcInfo::MutSharedFromHost, GcInfo::Owned],
                    FFIAction::MutShare,
                    tag
                ))
            );
        }
    }
}

#[test]
fn test_copy_needs_read_permission() {
    for requested in [SCALAR, COPY] {
        for tag in ALL {
            let mut value = Value::boxed(32, tag);
            let r = Void::lifetime_check(&mut value, &requested);
            assert_eq!(r.is_ok(), tag.readable());
            if !tag.readable() {
                assert_eq!(
                    r,
                    Err(lifetime_error(
                        vec![
                            GcInfo::Owned,
                            GcInfo::SharedFromHost,
                            GcInfo::SharedToHost,
                            GcInfo::TempObject
                        ],
                        FFIAction::Copy,
                        tag
                    ))
                );
            }
        }
    }
}

#[test]
fn test_move_needs_owned() {
    for tag in ALL {
        let mut value = Value::boxed(32, tag);
        let r = Void::lifetime_check(&mut value, &MOVE);
        assert_eq!(r.is_ok(), tag == GcInfo::Owned);
        if tag != GcInfo::Owned {
            assert_eq!(r, Err(lifetime_error(vec![GcInfo::Owned], FFIAction::Move, tag)));
        }
    }
}

#[test]
fn test_mut_share_is_exclusive() {
    for tag in [GcInfo::Owned, GcInfo::MutSharedFromHost] {
        let mut value = Value::boxed(512, tag);
        let mut guard = Void::lifetime_check(&mut value, &MUT_REF).unwrap();
        let staged = value.gc_info();
        assert_eq!(staged.bits(), tag.bits() & !0x03);
        assert!(!staged.readable());
        assert!(!staged.writable());
        for native in NATIVE {
            assert!(Void::lifetime_check(&mut value, &RequestedType::Plain(native)).is_err());
            assert!(Void::lifetime_check(&mut value, &RequestedType::Optional(native)).is_err());
            assert_eq!(value.gc_info(), staged);
        }
        guard.finish(&mut value);
        assert_eq!(value.gc_info(), tag);
        assert_eq!(Void::lifetime_check(&mut value, &REF).is_ok(), tag == GcInfo::Owned);
    }
    let mut value = Value::boxed(512, GcInfo::Owned);
    let mut guard = Void::lifetime_check(&mut value, &MUT_REF).unwrap();
    guard.yank(&mut value);
    assert_eq!(value.gc_info(), GcInfo::Owned);
    assert!(Void::lifetime_check(&mut value, &REF).is_ok());
}

#[test]
fn test_null_is_absent_for_every_optional_type() {
    for tag in ALL {
        for native in NATIVE {
            let requested = RequestedType::Optional(native);
            let mut value = Value::boxed(0, tag);
            assert_eq!(
                Void::lifetime_check(&mut value, &requested),
                Ok(GcInfoGuard::no_action(&Value::null()))
            );
            assert_eq!(value, Value::boxed(0, tag));
            assert!(is_ready(&value, &requested));
            assert_eq!(Void::from_value(&value, &requested), Extracted::Absent);
        }
    }
}

#[test]
fn test_null_is_refused_where_not_optional() {
    for tag in ALL {
        for native in NATIVE {
            let mut value = Value::boxed(0, tag);
            assert_eq!(
                Void::lifetime_check(&mut value, &RequestedType::Plain(native)),
                Err(TError::Null(NullError()))
            );
            assert_eq!(value, Value::boxed(0, tag));
            assert_eq!(
                Void::lifetime_check_l1(&mut value, &native),
                Err(TError::Null(NullError()))
            );
        }
    }
}

#[test]
fn test_handle_passes_through() {
    for before in all_values() {
        let mut value = before;
        assert_eq!(
            Void::lifetime_check(&mut value, &RequestedType::Handle),
            Ok(GcInfoGuard::no_action(&before))
        );
        assert_eq!(value, before);
        assert!(is_ready(&value, &RequestedType::Handle));
        assert_eq!(Void::from_value(&value, &RequestedType::Handle), Extracted::Handle(before));
    }
}

#[test]
fn test_present_optional_is_checked_as_its_inner_type() {
    let requested = RequestedType::Optional(NativeType::Ref);
    let mut value = Value::boxed(77, GcInfo::Owned);
    let mut guard = Void::lifetime_check(&mut value, &requested).unwrap();
    assert_eq!(value.gc_info(), GcInfo::SharedToHost);
    assert_eq!(
        Void::from_value(&value, &requested),
        Extracted::Present(Transfer::Ref(ValueData::Boxed(77)))
    );
    guard.finish(&mut value);
    let mut moved = Value::boxed(77, GcInfo::MovedToHost);
    assert_eq!(
        Void::lifetime_check(&mut moved, &requested),
        Err(lifetime_error(
            vec![GcInfo::Owned, GcInfo::SharedToHost, GcInfo::SharedFromHost],
            FFIAction::Share,
            GcInfo::MovedToHost
        ))
    );
}

#[test]
fn test_extraction_of_each_type() {
    let inline = Value::from_int(13);
    assert_eq!(Void::from_value(&inline, &SCALAR), Extracted::Direct(Transfer::Inline(13)));
    assert_eq!(Void::from_value(&inline, &COPY), Extracted::Direct(Transfer::Inline(13)));
    let boxed = Value::boxed(640, GcInfo::SharedFromHost);
    assert_eq!(Void::from_value(&boxed, &SCALAR), Extracted::Direct(Transfer::CopyOut(640)));
    assert_eq!(Void::from_value(&boxed, &COPY), Extracted::Direct(Transfer::CopyOut(640)));
    assert_eq!(
        Void::from_value(&boxed, &REF),
        Extracted::Direct(Transfer::Ref(ValueData::Boxed(640)))
    );
    let lent = Value::boxed(640, GcInfo::MutSharedToHost);
    assert_eq!(
        Void::from_value(&lent, &MUT_REF),
        Extracted::Direct(Transfer::MutRef(ValueData::Boxed(640)))
    );
    let moved = Value::boxed(640, GcInfo::MovedToHost);
    assert_eq!(Void::from_value(&moved, &MOVE), Extracted::Direct(Transfer::MoveOut(640)));
}

#[test]
fn test_inner_layers() {
    let mut value = Value::boxed(5, GcInfo::Owned);
    assert_eq!(
        Void::lifetime_check_l3(&mut value, &BoxedType::MoveOnly),
        Ok(GcInfoGuard::new(&Value::boxed(5, GcInfo::Owned), GcInfo::MovedToHost, GcInfo::Owned))
    );
    assert_eq!(Void::from_value_l3(&value, &BoxedType::MoveOnly), Transfer::MoveOut(5));
    assert_eq!(
        Void::lifetime_check_l2(&mut value, &OwnedType::Scalar),
        Err(lifetime_error(
            vec![
                GcInfo::Owned,
                GcInfo::SharedFromHost,
                GcInfo::SharedToHost,
                GcInfo::TempObject
            ],
            FFIAction::Copy,
            GcInfo::MovedToHost
        ))
    );
    let mut temp = Value::boxed(6, GcInfo::TempObject);
    assert_eq!(
        Void::lifetime_check_l2(&mut temp, &OwnedType::Boxed(BoxedType::Copyable)),
        Ok(GcInfoGuard::no_action(&Value::boxed(6, GcInfo::TempObject)))
    );
    assert_eq!(Void::from_value_l2(&temp, &OwnedType::Scalar), Transfer::CopyOut(6));
    assert_eq!(Void::from_value_l3(&temp, &BoxedType::Copyable), Transfer::CopyOut(6));
    assert_eq!(
        Void::lifetime_check_l1(&mut temp, &NativeType::MutRef),
        Err(lifetime_error(
            vec![GcInfo::MutSharedFromHost, GcInfo::Owned],
            FFIAction::MutShare,
            GcInfo::TempObject
        ))
    );
    let shared = Value { data: ValueData::Int(3), gc_info: GcInfo::SharedToHost };
    assert_eq!(Void::from_value_l1(&shared, &NativeType::Ref), Transfer::Ref(ValueData::Int(3)));
}

#[test]
fn test_is_ready() {
    let owned = Value::boxed(9, GcInfo::Owned);
    assert!(!is_ready(&owned, &REF));
    assert!(!is_ready(&owned, &MUT_REF));
    assert!(!is_ready(&owned, &MOVE));
    assert!(is_ready(&owned, &COPY));
    assert!(is_ready(&owned, &SCALAR));
    assert!(is_ready(&Value::boxed(9, GcInfo::SharedToHost), &REF));
    assert!(is_ready(&Value::boxed(9, GcInfo::MutSharedBackToHost), &MUT_REF));
    assert!(is_ready(&Value::boxed(9, GcInfo::MovedToHost), &MOVE));
    assert!(!is_ready(&Value { data: ValueData::Int(9), gc_info: GcInfo::MovedToHost }, &MOVE));
    assert!(!is_ready(&Value::boxed(0, GcInfo::SharedToHost), &REF));
    assert!(is_ready(&Value::boxed(0, GcInfo::MovedToHost), &RequestedType::Optional(NativeType::Ref)));
    assert!(!is_ready(&Value::boxed(9, GcInfo::MovedToHost), &RequestedType::Optional(NativeType::Ref)));
}

#[test]
fn test_move_twice_fails() {
    let mut value = Value::boxed(1024, GcInfo::Owned);
    let mut guard = Void::lifetime_check(&mut value, &MOVE).unwrap();
    assert_eq!(Void::from_value(&value, &MOVE), Extracted::Direct(Transfer::MoveOut(1024)));
    guard.finish(&mut value);
    assert_eq!(value.gc_info(), GcInfo::MovedToHost);
    match Void::lifetime_check(&mut value, &MOVE) {
        Err(TError::Lifetime(e)) => {
            assert_eq!(e.expected, vec![GcInfo::Owned]);
            assert_eq!(e.action, FFIAction::Move);
            assert_eq!(e.actual, GcInfo::MovedToHost);
        }
        other => panic!("expected a lifetime error, got {:?}", other),
    }
    assert_eq!(value.gc_info(), GcInfo::MovedToHost);
}

#[test]
fn test_share_then_mut_share_fails() {
    let mut value = Value::from_int(42);
    let mut guard = Void::lifetime_check(&mut value, &REF).unwrap();
    assert_eq!(value.gc_info(), GcInfo::SharedToHost);
    assert_eq!(
        Void::from_value(&value, &REF),
        Extracted::Direct(Transfer::Ref(ValueData::Int(42)))
    );
    guard.finish(&mut value);
    assert_eq!(value.gc_info(), GcInfo::SharedToHost);
    assert!(!value.gc_info().writable());
    match Void::lifetime_check(&mut value, &MUT_REF) {
        Err(TError::Lifetime(e)) => {
            assert_eq!(e.expected, vec![GcInfo::MutSharedFromHost, GcInfo::Owned]);
            assert_eq!(e.action, FFIAction::MutShare);
            assert_eq!(e.actual, GcInfo::SharedToHost);
        }
        other => panic!("expected a lifetime error, got {:?}", other),
    }
    assert_eq!(value.gc_info(), GcInfo::SharedToHost);
}

#[test]
fn test_failed_second_argument_restores_first() {
    let mut a = Value::boxed(100, GcInfo::Owned);
    let mut b = Value::boxed(200, GcInfo::TempObject);
    let mut guard = Void::lifetime_check(&mut a, &MOVE).unwrap();
    assert_eq!(a.gc_info(), GcInfo::MovedToHost);
    assert!(Void::lifetime_check(&mut b, &MUT_REF).is_err());
    guard.yank(&mut a);
    assert_eq!(a, Value::boxed(100, GcInfo::Owned));
    assert_eq!(b, Value::boxed(200, GcInfo::TempObject));
}

#[test]
fn test_check_all_succeeds() {
    let mut values = vec![
        Value::boxed(100, GcInfo::Owned),
        Value::from_int(5),
        Value::null(),
        Value::boxed(300, GcInfo::MutSharedFromHost),
    ];
    let requested = vec![MOVE, SCALAR, RequestedType::Optional(NativeType::MutRef), MUT_REF];
    let guards = lifetime_check_all(&mut values, &requested).unwrap();
    assert_eq!(
        guards,
        vec![
            GcInfoGuard::new(&values[0], GcInfo::MovedToHost, GcInfo::Owned),
            GcInfoGuard::no_action(&values[1]),
            GcInfoGuard::no_action(&values[2]),
            GcInfoGuard::new(&values[3], GcInfo::MutSharedFromHost, GcInfo::MutSharedFromHost),
        ]
    );
    assert_eq!(
        values,
        vec![
            Value::boxed(100, GcInfo::MovedToHost),
            Value::from_int(5),
            Value::null(),
            Value::boxed(300, GcInfo::MutSharedBackToHost),
        ]
    );
}

#[test]
fn test_check_all_rolls_back() {
    let before = vec![
        Value::boxed(100, GcInfo::Owned),
        Value::boxed(200, GcInfo::Owned),
        Value::boxed(300, GcInfo::MutSharedFromHost),
        Value::boxed(400, GcInfo::SharedFromHost),
        Value::boxed(500, GcInfo::Owned),
    ];
    let requested = vec![MOVE, REF, MUT_REF, MUT_REF, MOVE];
    let mut values = before.clone();
    let r = lifetime_check_all(&mut values, &requested);
    assert_eq!(
        r,
        Err((
            3,
            lifetime_error(
                vec![GcInfo::MutSharedFromHost, GcInfo::Owned],
                FFIAction::MutShare,
                GcInfo::SharedFromHost
            )
        ))
    );
    assert_eq!(values, before);
}

#[test]
fn test_check_all_reports_null_and_first_failure() {
    let before = vec![Value::boxed(100, GcInfo::Owned), Value::null(), Value::boxed(1, GcInfo::MovedToHost)];
    let mut values = before.clone();
    let r = lifetime_check_all(&mut values, &vec![REF, COPY, COPY]);
    assert_eq!(r, Err((1, TError::Null(NullError()))));
    assert_eq!(values, before);
    let mut none: Vec<Value> = Vec::new();
    assert_eq!(lifetime_check_all(&mut none, &Vec::new()), Ok(Vec::new()));
}

#[test]
fn test_finish_all_commits_each_argument() {
    let mut values = vec![
        Value::boxed(100, GcInfo::Owned),
        Value::boxed(200, GcInfo::Owned),
        Value::boxed(300, GcInfo::MutSharedFromHost),
        Value::from_int(1),
        Value::boxed(500, GcInfo::TempObject),
    ];
    let requested = vec![MOVE, REF, MUT_REF, SCALAR];
    values.truncate(4);
    let guards = lifetime_check_all(&mut values, &requested).unwrap();
    values.push(Value::boxed(500, GcInfo::TempObject));
    finish_all(&mut values, guards);
    assert_eq!(
        values,
        vec![
            Value::boxed(100, GcInfo::MovedToHost),
            Value::boxed(200, GcInfo::SharedToHost),
            Value::boxed(300, GcInfo::MutSharedFromHost),
            Value::from_int(1),
            Value::boxed(500, GcInfo::TempObject),
        ]
    );
}

#[test]
fn test_yank_all_restores_each_argument() {
    let before = vec![
        Value::boxed(100, GcInfo::Owned),
        Value::boxed(200, GcInfo::Owned),
        Value::boxed(300, GcInfo::MutSharedFromHost),
    ];
    let mut values = before.clone();
    let guards = lifetime_check_all(&mut values, &vec![MOVE, REF, MUT_REF]).unwrap();
    assert_ne!(values, before);
    yank_all(&mut values, guards);
    assert_eq!(values, before);
}

#[test]
fn test_yank_all_applies_guards_by_place() {
    let mut values = vec![
        Value::boxed(1, GcInfo::MovedToHost),
        Value::boxed(2, GcInfo::MovedToHost),
        Value::boxed(3, GcInfo::MovedToHost),
    ];
    let guards = vec![
        GcInfoGuard::new(&values[0], GcInfo::SharedToHost, GcInfo::Owned),
        GcInfoGuard::no_action(&values[1]),
    ];
    yank_all(&mut values, guards);
    assert_eq!(
        values,
        vec![
            Value::boxed(1, GcInfo::Owned),
            Value::boxed(2, GcInfo::MovedToHost),
            Value::boxed(3, GcInfo::MovedToHost),
        ]
    );
    let guards = vec![
        GcInfoGuard::no_action(&values[0]),
        GcInfoGuard::new(&values[1], GcInfo::SharedToHost, GcInfo::Owned),
    ];
    finish_all(&mut values, guards);
    assert_eq!(
        values,
        vec![
            Value::boxed(1, GcInfo::Owned),
            Value::boxed(2, GcInfo::SharedToHost),
            Value::boxed(3, GcInfo::MovedToHost),
        ]
    );
}
