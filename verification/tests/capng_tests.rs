use capng::{
    capability_to_name, clear, fill, have_capabilities, have_capability, name_to_capability,
    print_caps_numeric, print_caps_text, update, Action, CUpdate, Capability, HaveCapsResult,
    Print, Scope, StagedState, Type,
};

#[test]
fn basic_tests() {
    let mut state = StagedState::new();

    clear(&mut state, Scope::BOTH());
    assert_eq!(
        have_capabilities(&state, Scope::BOTH()).unwrap(),
        HaveCapsResult::NONE
    );

    fill(&mut state, Scope::BOTH());
    assert_eq!(
        have_capabilities(&state, Scope::BOTH()).unwrap(),
        HaveCapsResult::FULL
    );
}

#[test]
fn print_tests() {
    let mut state = StagedState::new();

    fill(&mut state, Scope::BOTH());
    assert!(print_caps_numeric(Print::BUFFER, Scope::CAPS(), &state).is_some());
    assert!(print_caps_text(Print::BUFFER, Type::EFFECTIVE(), &state).is_some());
}

#[test]
fn update_tests() {
    let mut state = StagedState::new();

    for i in 0..5 {
        clear(&mut state, Scope::BOTH());
        update(
            &mut state,
            vec![CUpdate {
                action: Action::ADD,
                cap_type: Type::EFFECTIVE(),
                capability: i,
            }],
        )
        .unwrap();
        assert!(have_capability(&state, Type::EFFECTIVE(), i));
        assert_eq!(
            have_capabilities(&state, Scope::CAPS()).unwrap(),
            HaveCapsResult::PARTIAL
        );

        update(
            &mut state,
            vec![CUpdate {
                action: Action::ADD,
                cap_type: Type::BOUNDING_SET(),
                capability: i,
            }],
        )
        .unwrap();
        assert!(have_capability(&state, Type::BOUNDING_SET(), i));
        assert_eq!(
            have_capabilities(&state, Scope::BOUNDS()).unwrap(),
            HaveCapsResult::PARTIAL
        );

        let text = print_caps_text(Print::BUFFER, Type::EFFECTIVE(), &state).unwrap();
        let name = capability_to_name(i).unwrap();
        assert_eq!(text, name);

        fill(&mut state, Scope::BOTH());
        update(
            &mut state,
            vec![CUpdate {
                action: Action::DROP,
                cap_type: Type::EFFECTIVE(),
                capability: i,
            }],
        )
        .unwrap();
        assert_eq!(
            have_capabilities(&state, Scope::CAPS()).unwrap(),
            HaveCapsResult::PARTIAL
        );
        update(
            &mut state,
            vec![CUpdate {
                action: Action::ADD,
                cap_type: Type::EFFECTIVE(),
                capability: i,
            }],
        )
        .unwrap();
        assert_eq!(
            have_capabilities(&state, Scope::CAPS()).unwrap(),
            HaveCapsResult::FULL
        );
    }
}

#[test]
fn update_multiple_test() {
    let caps_text = vec!["CHOWN", "FOWNER", "KILL"];
    let mut caps: Vec<Capability> = Vec::new();
    for c in caps_text {
        caps.push(name_to_capability(c).unwrap());
    }

    let mut cap_updates: Vec<CUpdate> = Vec::new();
    for c in &caps {
        cap_updates.push(CUpdate {
            action: Action::ADD,
            cap_type: Type::EFFECTIVE(),
            capability: *c,
        });
    }

    let mut state = StagedState::new();
    clear(&mut state, Scope::BOTH());
    update(&mut state, cap_updates).unwrap();

    for c in caps {
        assert!(have_capability(&state, Type::EFFECTIVE(), c));
    }
}
