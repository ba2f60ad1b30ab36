use player_controller::actions::{
    ActionKind, Binding, GamepadAxis, GamepadButton, Key, MouseButton, RawInput, UserAction,
    DIGITAL_THRESHOLD_PERCENT,
};

fn digital(raw_input: RawInput) -> Binding {
    Binding::Digital { threshold_percent: 90, raw_input }
}

fn analog(invert: bool, raw_input: RawInput) -> Binding {
    Binding::Analog { invert, raw_input }
}

#[test]
fn roster_lists_every_action_once_in_order() {
    let all = UserAction::all();
    assert_eq!(
        all,
        vec![
            UserAction::DeleteVoxels,
            UserAction::DragPhysicsEntity,
            UserAction::LookVertical,
            UserAction::LookHorizontal,
            UserAction::Jump,
            UserAction::MoveForward,
            UserAction::MoveSideways,
            UserAction::PlaceVoxels,
            UserAction::Sneak,
            UserAction::SpawnPhysicsEntity,
            UserAction::ToggleItemLeft,
            UserAction::ToggleItemRight,
            UserAction::TogglePointerLock,
        ]
    );
    for (i, a) in all.iter().enumerate() {
        for b in &all[i + 1..] {
            assert_ne!(a, b);
        }
    }
}

#[test]
fn action_names_are_distinct() {
    let all = UserAction::all();
    for (i, a) in all.iter().enumerate() {
        for b in &all[i + 1..] {
            assert_ne!(a.name(), b.name());
        }
    }
}

#[test]
fn action_names_and_descriptions() {
    let expected = [
        ("Delete", "Deletes voxels where the player's pointer is."),
        ("Drag entity", "Drags a physics entity around the scene."),
        ("Look vertical", "Causes the player to look up or down."),
        ("Look horizontal", "Causes the player to look left or right."),
        ("Jump", "Causes the player to jump or move upward."),
        ("Move forward", "Causes the player to walk forward or backward."),
        ("Move sideways", "Causes the player to walk left or right."),
        ("Place", "Places voxels where the player's pointer is."),
        ("Sneak", "Causes the player to sneak or move downward."),
        ("Spawn debug entity", "Spawns a physics entity for debugging."),
        ("Toggle item (left)", "Toggles the selected item to the left."),
        ("Toggle item (right)", "Toggles the selected item to the right."),
        (
            "Toggle pointer lock",
            "Toggles whether the mouse should be locked to the center of the screen.",
        ),
    ];
    let all = UserAction::all();
    assert_eq!(all.len(), expected.len());
    for (action, (name, description)) in all.iter().zip(expected) {
        assert_eq!(action.name(), name);
        assert_eq!(action.description(), description);
    }
}

#[test]
fn action_kinds() {
    let analog_actions = [
        UserAction::LookVertical,
        UserAction::LookHorizontal,
        UserAction::MoveForward,
        UserAction::MoveSideways,
    ];
    for action in UserAction::all() {
        let expected = if analog_actions.contains(&action) {
            ActionKind::Analog
        } else {
            ActionKind::Digital
        };
        assert_eq!(action.kind(), expected);
    }
}

#[test]
fn default_bindings_match_kind_and_threshold() {
    assert_eq!(DIGITAL_THRESHOLD_PERCENT, 90);
    for action in UserAction::all() {
        let bindings = action.default_bindings();
        assert!(!bindings.is_empty());
        for binding in bindings {
            match binding {
                Binding::Digital { threshold_percent, .. } => {
                    assert_eq!(action.kind(), ActionKind::Digital);
                    assert_eq!(threshold_percent, 90);
                }
                Binding::Analog { .. } => assert_eq!(action.kind(), ActionKind::Analog),
            }
        }
    }
}

#[test]
fn default_bindings_of_each_action() {
    let button = RawInput::GamepadButton;
    let axis = RawInput::GamepadAxis;
    let key = RawInput::Key;
    let mouse = RawInput::MouseButton;
    assert_eq!(
        UserAction::DeleteVoxels.default_bindings(),
        vec![digital(button(GamepadButton::LeftTrigger)), digital(mouse(MouseButton::Left))]
    );
    assert_eq!(
        UserAction::DragPhysicsEntity.default_bindings(),
        vec![digital(button(GamepadButton::RightTrigger)), digital(mouse(MouseButton::Right))]
    );
    assert_eq!(
        UserAction::LookVertical.default_bindings(),
        vec![analog(false, axis(GamepadAxis::RightStickY))]
    );
    assert_eq!(
        UserAction::LookHorizontal.default_bindings(),
        vec![analog(false, axis(GamepadAxis::RightStickX))]
    );
    assert_eq!(
        UserAction::Jump.default_bindings(),
        vec![digital(button(GamepadButton::South)), digital(key(Key::Space))]
    );
    assert_eq!(
        UserAction::MoveForward.default_bindings(),
        vec![
            analog(false, key(Key::W)),
            analog(true, key(Key::S)),
            analog(false, axis(GamepadAxis::LeftStickY)),
        ]
    );
    assert_eq!(
        UserAction::MoveSideways.default_bindings(),
        vec![
            analog(false, key(Key::D)),
            analog(true, key(Key::A)),
            analog(false, axis(GamepadAxis::LeftStickX)),
        ]
    );
    assert_eq!(
        UserAction::PlaceVoxels.default_bindings(),
        vec![digital(button(GamepadButton::RightTrigger)), digital(mouse(MouseButton::Right))]
    );
    assert_eq!(
        UserAction::Sneak.default_bindings(),
        vec![digital(button(GamepadButton::East)), digital(key(Key::LShift))]
    );
    assert_eq!(
        UserAction::SpawnPhysicsEntity.default_bindings(),
        vec![digital(button(GamepadButton::North)), digital(key(Key::F))]
    );
    assert_eq!(
        UserAction::ToggleItemLeft.default_bindings(),
        vec![digital(button(GamepadButton::DPadLeft))]
    );
    assert_eq!(
        UserAction::ToggleItemRight.default_bindings(),
        vec![digital(button(GamepadButton::DPadRight))]
    );
    assert_eq!(UserAction::TogglePointerLock.default_bindings(), vec![digital(key(Key::T))]);
}
