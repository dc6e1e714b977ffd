use capng::{
    bounding_to_drop, capability_to_name, change_id_plan, clear, fill, have_capabilities,
    have_capability, have_permitted_capabilities, load_process_sets, name_to_capability,
    print_caps_numeric, print_caps_text, restore_state, save_state, setpid, update, updatev,
    Action, CUpdate, Error, Flags, HaveCapsResult, IdStep, Print, Scope, StagedState, Type,
    CAP_LAST_CAP,
};

#[test]
fn resolver_concrete_ids() {
    let chown = name_to_capability("CHOWN").unwrap();
    let fowner = name_to_capability("FOWNER").unwrap();
    let kill = name_to_capability("KILL").unwrap();
    assert_eq!(chown, 0);
    assert_eq!(fowner, 3);
    assert_eq!(kill, 5);
    assert_ne!(chown, fowner);
    assert_ne!(fowner, kill);
    assert_ne!(chown, kill);

    let mut state = StagedState::new();
    updatev(
        &mut state,
        Action::ADD,
        Type::EFFECTIVE(),
        vec!["CHOWN", "FOWNER", "KILL"],
    )
    .unwrap();
    assert!(have_capability(&state, Type::EFFECTIVE(), chown));
    assert!(have_capability(&state, Type::EFFECTIVE(), fowner));
    assert!(have_capability(&state, Type::EFFECTIVE(), kill));
}

#[test]
fn resolver_round_trip_all_ids() {
    for c in 0..=CAP_LAST_CAP {
        let name = capability_to_name(c).unwrap();
        let back = name_to_capability(name.as_str()).unwrap();
        assert_eq!(back, c);
    }
}

#[test]
fn resolver_is_case_sensitive_and_rejects_unknown() {
    match name_to_capability("chown") {
        Err(Error::GetCapabilityId(name)) => assert_eq!(name, "chown"),
        other => panic!("expected GetCapabilityId, got {:?}", other),
    }
    match name_to_capability("NO_SUCH_CAPABILITY") {
        Err(Error::GetCapabilityId(name)) => {
            assert_eq!(name, "NO_SUCH_CAPABILITY");
        }
        other => panic!("expected GetCapabilityId, got {:?}", other),
    }
}

#[test]
fn reverse_lookup_rejects_out_of_range_id() {
    match capability_to_name(CAP_LAST_CAP + 1) {
        Err(Error::NameToCapability(c)) => assert_eq!(c, CAP_LAST_CAP + 1),
        other => panic!("expected NameToCapability, got {:?}", other),
    }
    assert_eq!(capability_to_name(0).unwrap(), "CHOWN");
    assert_eq!(capability_to_name(40).unwrap(), "CHECKPOINT_RESTORE");
}

#[test]
fn batch_ordering_add_then_drop() {
    let mut state = StagedState::new();
    fill(&mut state, Scope::CAPS());
    update(
        &mut state,
        vec![
            CUpdate {
                action: Action::ADD,
                cap_type: Type::EFFECTIVE(),
                capability: 5,
            },
            CUpdate {
                action: Action::DROP,
                cap_type: Type::EFFECTIVE(),
                capability: 5,
            },
        ],
    )
    .unwrap();
    assert!(!have_capability(&state, Type::EFFECTIVE(), 5));

    let mut state = StagedState::new();
    update(
        &mut state,
        vec![
            CUpdate {
                action: Action::DROP,
                cap_type: Type::EFFECTIVE(),
                capability: 5,
            },
            CUpdate {
                action: Action::ADD,
                cap_type: Type::EFFECTIVE(),
                capability: 5,
            },
        ],
    )
    .unwrap();
    assert!(have_capability(&state, Type::EFFECTIVE(), 5));
}

#[test]
fn batch_partial_failure_keeps_prefix_and_names_culprit() {
    let mut state = StagedState::new();
    let r = update(
        &mut state,
        vec![
            CUpdate {
                action: Action::ADD,
                cap_type: Type::EFFECTIVE(),
                capability: 0,
            },
            CUpdate {
                action: Action::ADD,
                cap_type: Type::EFFECTIVE(),
                capability: 1000,
            },
            CUpdate {
                action: Action::ADD,
                cap_type: Type::EFFECTIVE(),
                capability: 5,
            },
        ],
    );
    match r {
        Err(Error::UpdateCapability(c)) => assert_eq!(c, 1000),
        other => panic!("expected UpdateCapability, got {:?}", other),
    }
    assert!(have_capability(&state, Type::EFFECTIVE(), 0));
    assert!(!have_capability(&state, Type::EFFECTIVE(), 5));
}

#[test]
fn name_batch_partial_failure_keeps_prefix() {
    let mut state = StagedState::new();
    let r = updatev(
        &mut state,
        Action::ADD,
        Type::PERMITTED(),
        vec!["CHOWN", "BOGUS", "KILL"],
    );
    match r {
        Err(Error::GetCapabilityId(name)) => assert_eq!(name, "BOGUS"),
        other => panic!("expected GetCapabilityId, got {:?}", other),
    }
    assert!(have_capability(&state, Type::PERMITTED(), 0));
    assert!(!have_capability(&state, Type::PERMITTED(), 5));
}

#[test]
fn snapshot_restores_state_verbatim() {
    let mut state = StagedState::new();
    fill(&mut state, Scope::CAPS());
    update(
        &mut state,
        vec![CUpdate {
            action: Action::DROP,
            cap_type: Type::EFFECTIVE(),
            capability: 7,
        }],
    )
    .unwrap();
    let saved = state;

    let snap = save_state(&state).unwrap();
    fill(&mut state, Scope::BOTH());
    clear(&mut state, Scope::CAPS());
    restore_state(&mut state, snap);

    assert_eq!(state, saved);
    for scope in [Scope::CAPS(), Scope::BOUNDS(), Scope::BOTH()] {
        assert_eq!(
            have_capabilities(&state, scope).unwrap(),
            have_capabilities(&saved, scope).unwrap()
        );
    }
}

#[test]
fn have_caps_monotonic() {
    let mut state = StagedState::new();
    clear(&mut state, Scope::BOTH());
    assert_eq!(
        have_capabilities(&state, Scope::CAPS()).unwrap(),
        HaveCapsResult::NONE
    );

    update(
        &mut state,
        vec![CUpdate {
            action: Action::ADD,
            cap_type: Type::EFFECTIVE(),
            capability: 17,
        }],
    )
    .unwrap();
    assert_eq!(
        have_capabilities(&state, Scope::CAPS()).unwrap(),
        HaveCapsResult::PARTIAL
    );

    for c in 0..=CAP_LAST_CAP {
        update(
            &mut state,
            vec![CUpdate {
                action: Action::ADD,
                cap_type: Type::EFFECTIVE(),
                capability: c,
            }],
        )
        .unwrap();
    }
    assert_eq!(
        have_capabilities(&state, Scope::CAPS()).unwrap(),
        HaveCapsResult::FULL
    );
}

#[test]
fn clear_fill_query_scenario() {
    let mut state = StagedState::new();
    fill(&mut state, Scope::BOTH());

    clear(&mut state, Scope::BOTH());
    assert_eq!(
        have_capabilities(&state, Scope::BOTH()).unwrap(),
        HaveCapsResult::NONE
    );

    fill(&mut state, Scope::BOTH());
    assert_eq!(
        have_capabilities(&state, Scope::BOTH()).unwrap(),
        HaveCapsResult::FULL
    );

    clear(&mut state, Scope::BOTH());
    let chown = name_to_capability("CHOWN").unwrap();
    update(
        &mut state,
        vec![CUpdate {
            action: Action::ADD,
            cap_type: Type::EFFECTIVE(),
            capability: chown,
        }],
    )
    .unwrap();
    assert!(have_capability(&state, Type::EFFECTIVE(), chown));
    assert_eq!(
        have_capabilities(&state, Scope::CAPS()).unwrap(),
        HaveCapsResult::PARTIAL
    );
}

#[test]
fn query_on_empty_scope_fails() {
    let state = StagedState::new();
    let none_scope = Scope::CAPS().intersection(Scope::BOUNDS());
    assert_eq!(none_scope.bits(), 0);
    assert_eq!(
        have_capabilities(&state, none_scope).unwrap(),
        HaveCapsResult::FAIL
    );
}

#[test]
fn permitted_query_reads_permitted_only() {
    let mut state = StagedState::new();
    assert_eq!(
        have_permitted_capabilities(&state).unwrap(),
        HaveCapsResult::NONE
    );
    update(
        &mut state,
        vec![CUpdate {
            action: Action::ADD,
            cap_type: Type::PERMITTED(),
            capability: 3,
        }],
    )
    .unwrap();
    assert_eq!(
        have_permitted_capabilities(&state).unwrap(),
        HaveCapsResult::PARTIAL
    );
    assert_eq!(
        have_capabilities(&state, Scope::CAPS()).unwrap(),
        HaveCapsResult::NONE
    );
}

#[test]
fn have_capability_needs_a_single_kind() {
    let mut state = StagedState::new();
    fill(&mut state, Scope::BOTH());
    assert!(have_capability(&state, Type::EFFECTIVE(), 0));
    let combined = Type::EFFECTIVE().union(Type::PERMITTED());
    assert!(!have_capability(&state, combined, 0));
    assert!(!have_capability(&state, Type::EFFECTIVE(), CAP_LAST_CAP + 1));
}

#[test]
fn text_rendering_lists_names_in_order() {
    let mut state = StagedState::new();
    update(
        &mut state,
        vec![
            CUpdate {
                action: Action::ADD,
                cap_type: Type::INHERITABLE(),
                capability: 3,
            },
            CUpdate {
                action: Action::ADD,
                cap_type: Type::INHERITABLE(),
                capability: 0,
            },
        ],
    )
    .unwrap();
    let text = print_caps_text(Print::BUFFER, Type::INHERITABLE(), &state).unwrap();
    assert_eq!(text, "CHOWN, FOWNER");

    let empty = print_caps_text(Print::BUFFER, Type::EFFECTIVE(), &state).unwrap();
    assert_eq!(empty, "");

    assert_eq!(
        print_caps_text(Print::STDOUT, Type::INHERITABLE(), &state),
        None
    );
}

#[test]
fn numeric_rendering_is_exact() {
    let mut state = StagedState::new();
    fill(&mut state, Scope::CAPS());
    let text = print_caps_numeric(Print::BUFFER, Scope::CAPS(), &state).unwrap();
    assert_eq!(
        text,
        "effective=000001FFFFFFFFFF\npermitted=000001FFFFFFFFFF\ninheritable=000001FFFFFFFFFF\n"
    );

    let bounds = print_caps_numeric(Print::BUFFER, Scope::BOUNDS(), &state).unwrap();
    assert_eq!(bounds, "bounding=0000000000000000\n");

    assert_eq!(print_caps_numeric(Print::STDOUT, Scope::CAPS(), &state), None);
}

#[test]
fn error_messages_are_exact() {
    assert_eq!(
        Error::UpdateCapability(1000).message(),
        "failed to update the status of the capability with name 1000"
    );
    assert_eq!(
        Error::InvalidHaveCapsResult(-5).message(),
        "invalid value -5 for HaveCapsResult"
    );
    assert_eq!(
        Error::NameToCapability(41).message(),
        "failed to find the name for capability 41"
    );
    assert_eq!(
        Error::GetCapsFile(3).message(),
        "failed to read the capabilities from the extended attributes of file descriptor 3"
    );
    assert_eq!(
        Error::ApplyCapsFile(7).message(),
        "failed to write capabilities to the extended attributes of file descriptor 7"
    );
    assert_eq!(
        Error::GetCapabilityId(String::from("BOGUS")).message(),
        "failed to get the ID for the capability with name BOGUS"
    );
    assert_eq!(
        Error::ApplyCapabilities.message(),
        "failed to sync capabilities with the kernel"
    );
    assert_eq!(
        Error::ChangeTargetId.message(),
        "failed to change target process id"
    );
    assert_eq!(
        Error::ConvertCapabilityName.message(),
        "failed to convert capability name for the platform interface"
    );
    assert_eq!(
        Error::GetProcessCapabilities.message(),
        "failed to get process capabilities"
    );
    assert_eq!(
        Error::LockCapabilities.message(),
        "failed to lock capabilities"
    );
}

#[test]
fn classification_codes_decode_exactly() {
    assert_eq!(HaveCapsResult::try_from(-1).unwrap(), HaveCapsResult::FAIL);
    assert_eq!(HaveCapsResult::try_from(0).unwrap(), HaveCapsResult::NONE);
    assert_eq!(HaveCapsResult::try_from(1).unwrap(), HaveCapsResult::PARTIAL);
    assert_eq!(HaveCapsResult::try_from(2).unwrap(), HaveCapsResult::FULL);
    match HaveCapsResult::try_from(7) {
        Err(Error::InvalidHaveCapsResult(v)) => assert_eq!(v, 7),
        other => panic!("expected InvalidHaveCapsResult, got {:?}", other),
    }
}

#[test]
fn identity_plan_orders_steps() {
    let plain = change_id_plan(Flags { bits: 0 });
    assert_eq!(
        plain,
        vec![IdStep::SetGid, IdStep::SetUid, IdStep::CommitCapabilities]
    );

    let full = change_id_plan(
        Flags::DROP_SUPP_GRP()
            .union(Flags::CLEAR_BOUNDING())
            .union(Flags::INIT_SUPP_GRP()),
    );
    assert_eq!(
        full,
        vec![
            IdStep::InitSupplementaryGroups,
            IdStep::ClearBoundingSet,
            IdStep::SetGid,
            IdStep::SetUid,
            IdStep::CommitCapabilities,
        ]
    );

    let dropping = change_id_plan(Flags::DROP_SUPP_GRP().union(Flags::CLEAR_BOUNDING()));
    assert_eq!(
        dropping,
        vec![
            IdStep::DropSupplementaryGroups,
            IdStep::ClearBoundingSet,
            IdStep::SetGid,
            IdStep::SetUid,
            IdStep::CommitCapabilities,
        ]
    );
}

#[test]
fn bounding_drop_list_names_missing_bits() {
    let mut state = StagedState::new();
    let all: Vec<u32> = (0..=CAP_LAST_CAP).collect();
    assert_eq!(bounding_to_drop(&state), all);

    fill(&mut state, Scope::BOUNDS());
    assert_eq!(bounding_to_drop(&state), Vec::<u32>::new());

    update(
        &mut state,
        vec![CUpdate {
            action: Action::DROP,
            cap_type: Type::BOUNDING_SET(),
            capability: 21,
        }],
    )
    .unwrap();
    assert_eq!(bounding_to_drop(&state), vec![21]);
}

#[test]
fn target_pid_and_loaded_sets() {
    let mut state = StagedState::new();
    setpid(&mut state, 1234);
    assert_eq!(state.pid, 1234);

    load_process_sets(&mut state, 0x3, 0x7, 0x1);
    assert_eq!(state.effective, 0x3);
    assert_eq!(state.permitted, 0x7);
    assert_eq!(state.inheritable, 0x1);
    assert_eq!(state.pid, 1234);

    load_process_sets(&mut state, u64::MAX, 0, 0);
    assert_eq!(state.effective, capng::CAP_MASK_ALL);
}

#[test]
fn file_caps_record_round_trip() {
    let mut state = StagedState::new();
    fill(&mut state, Scope::CAPS());
    let record = capng::encode_file_caps(&state);
    assert_eq!(record.len(), capng::FILE_CAPS_LEN);
    let (e, p, i) = capng::decode_file_caps(&record).unwrap();
    assert_eq!(p, state.permitted);
    assert_eq!(i, state.inheritable);
    assert_eq!(e, state.permitted);

    clear(&mut state, Scope::CAPS());
    let empty = capng::encode_file_caps(&state);
    assert_eq!(capng::decode_file_caps(&empty).unwrap(), (0, 0, 0));
}

#[test]
fn file_caps_record_layout_is_exact() {
    let state = StagedState {
        effective: 0,
        permitted: 0x0000_0102_0304_0506,
        inheritable: 0xff,
        bounding: 0,
        pid: 0,
    };
    let rec = capng::encode_file_caps(&state);
    assert_eq!(&rec[0..4], &[0x00, 0x00, 0x00, 0x02]);
    assert_eq!(&rec[4..8], &[0x06, 0x05, 0x04, 0x03]);
    assert_eq!(&rec[8..12], &[0xff, 0x00, 0x00, 0x00]);
    assert_eq!(&rec[12..16], &[0x02, 0x01, 0x00, 0x00]);
    assert_eq!(&rec[16..20], &[0x00, 0x00, 0x00, 0x00]);

    let mut wrong_revision = rec.clone();
    wrong_revision[3] = 0x03;
    assert_eq!(capng::decode_file_caps(&wrong_revision), None);

    let short = rec[..19].to_vec();
    assert_eq!(capng::decode_file_caps(&short), None);
}
