//! The logical actions that the controller needs, with the names, texts and
//! default bindings under which the host registers them.

use vstd::prelude::*;

verus! {

/// Whether an action is on or off, or takes a continuous range of values.
#[derive(Clone, Copy, Debug, PartialEq, Eq, Structural)]
pub enum ActionKind {
    Digital,
    Analog,
}

/// An axis of a gamepad.
#[derive(Clone, Copy, Debug, PartialEq, Eq, Structural)]
pub enum GamepadAxis {
    LeftStickX,
    LeftStickY,
    RightStickX,
    RightStickY,
}

/// A button of a gamepad.
#[derive(Clone, Copy, Debug, PartialEq, Eq, Structural)]
pub enum GamepadButton {
    South,
    East,
    North,
    LeftTrigger,
    RightTrigger,
    DPadLeft,
    DPadRight,
}

/// A key of the keyboard.
#[derive(Clone, Copy, Debug, PartialEq, Eq, Structural)]
pub enum Key {
    A,
    D,
    F,
    S,
    T,
    W,
    Space,
    LShift,
}

/// A button of the mouse.
#[derive(Clone, Copy, Debug, PartialEq, Eq, Structural)]
pub enum MouseButton {
    Left,
    Right,
}

/// A source of raw input to which an action can be bound.
#[derive(Clone, Copy, Debug, PartialEq, Eq, Structural)]
pub enum RawInput {
    GamepadAxis(GamepadAxis),
    GamepadButton(GamepadButton),
    Key(Key),
    MouseButton(MouseButton),
}

/// Hundredths of full deflection beyond which a raw input activates a digital
/// action.
pub const DIGITAL_THRESHOLD_PERCENT: u8 = 90;

/// How one raw input drives an action.
#[derive(Clone, Copy, Debug, PartialEq, Eq, Structural)]
pub enum Binding {
    /// The action is active while the input is beyond the threshold, given in
    /// hundredths of full deflection.
    Digital { threshold_percent: u8, raw_input: RawInput },
    /// The action follows the input, with its sign turned round if `invert`.
    Analog { invert: bool, raw_input: RawInput },
}

impl Binding {
    /// The kind of action that the binding can drive.
    pub open spec fn kind(self) -> ActionKind {
        match self {
            Binding::Digital { .. } => ActionKind::Digital,
            Binding::Analog { .. } => ActionKind::Analog,
        }
    }
}

/// A digital binding at the stock threshold.
pub open spec fn digital(raw_input: RawInput) -> Binding {
    Binding::Digital { threshold_percent: DIGITAL_THRESHOLD_PERCENT, raw_input }
}

/// An analog binding.
pub open spec fn analog(invert: bool, raw_input: RawInput) -> Binding {
    Binding::Analog { invert, raw_input }
}

/// The roles in which the controller reads input.
#[derive(Clone, Copy, Debug, PartialEq, Eq, Structural)]
pub enum UserAction {
    /// Deletes voxels where the player's pointer is.
    DeleteVoxels,
    /// Drags a physics entity around the scene.
    DragPhysicsEntity,
    /// Causes the player to look up or down.
    LookVertical,
    /// Causes the player to look left or right.
    LookHorizontal,
    /// Causes the player to move upward.
    Jump,
    /// Causes the player to walk forward or backward.
    MoveForward,
    /// Causes the player to walk left or right.
    MoveSideways,
    /// Places voxels where the player's pointer is.
    PlaceVoxels,
    /// Causes the player to move downward.
    Sneak,
    /// Spawns a physics entity for debugging.
    SpawnPhysicsEntity,
    /// Toggles the selected item to the left.
    ToggleItemLeft,
    /// Toggles the selected item to the right.
    ToggleItemRight,
    /// Toggles whether the pointer is locked to the center of the screen.
    TogglePointerLock,
}

impl UserAction {
    /// All roles, in the order in which they are registered.
    pub open spec fn roster() -> Seq<UserAction> {
        seq![
            UserAction::DeleteVoxels,
            UserAction::DragPhysicsEntity,
            UserAction::LookVertical,
            UserAction::LookHorizontal,
            UserAction::Jump,
            UserAction::MoveForward,
            UserAction::MoveSideways,
            UserAction::PlaceVoxels,
            UserAction::Sneak,
            UserAction::SpawnPhysicsEntity,
            UserAction::ToggleItemLeft,
            UserAction::ToggleItemRight,
            UserAction::TogglePointerLock,
        ]
    }

    /// The kind of the action.
    pub open spec fn spec_kind(self) -> ActionKind {
        match self {
            UserAction::LookVertical
            | UserAction::LookHorizontal
            | UserAction::MoveForward
            | UserAction::MoveSideways => ActionKind::Analog,
            _ => ActionKind::Digital,
        }
    }

    /// The name under which the action is registered.
    pub open spec fn spec_name(self) -> Seq<char> {
        match self {
            UserAction::DeleteVoxels => "Delete"@,
            UserAction::DragPhysicsEntity => "Drag entity"@,
            UserAction::LookVertical => "Look vertical"@,
            UserAction::LookHorizontal => "Look horizontal"@,
            UserAction::Jump => "Jump"@,
            UserAction::MoveForward => "Move forward"@,
            UserAction::MoveSideways => "Move sideways"@,
            UserAction::PlaceVoxels => "Place"@,
            UserAction::Sneak => "Sneak"@,
            UserAction::SpawnPhysicsEntity => "Spawn debug entity"@,
            UserAction::ToggleItemLeft => "Toggle item (left)"@,
            UserAction::ToggleItemRight => "Toggle item (right)"@,
            UserAction::TogglePointerLock => "Toggle pointer lock"@,
        }
    }

    /// The text that explains the action to the user.
    pub open spec fn spec_description(self) -> Seq<char> {
        match self {
            UserAction::DeleteVoxels => "Deletes voxels where the player's pointer is."@,
            UserAction::DragPhysicsEntity => "Drags a physics entity around the scene."@,
            UserAction::LookVertical => "Causes the player to look up or down."@,
            UserAction::LookHorizontal => "Causes the player to look left or right."@,
            UserAction::Jump => "Causes the player to jump or move upward."@,
            UserAction::MoveForward => "Causes the player to walk forward or backward."@,
            UserAction::MoveSideways => "Causes the player to walk left or right."@,
            UserAction::PlaceVoxels => "Places voxels where the player's pointer is."@,
            UserAction::Sneak => "Causes the player to sneak or move downward."@,
            UserAction::SpawnPhysicsEntity => "Spawns a physics entity for debugging."@,
            UserAction::ToggleItemLeft => "Toggles the selected item to the left."@,
            UserAction::ToggleItemRight => "Toggles the selected item to the right."@,
            UserAction::TogglePointerLock => "Toggles whether the mouse should be locked to the center of the screen."@,
        }
    }

    /// The bindings that the action has until the user chooses others, in
    /// order of preference.
    pub open spec fn spec_default_bindings(self) -> Seq<Binding> {
        match self {
            UserAction::DeleteVoxels => seq![
                digital(RawInput::GamepadButton(GamepadButton::LeftTrigger)),
                digital(RawInput::MouseButton(MouseButton::Left)),
            ],
            UserAction::DragPhysicsEntity => seq![
                digital(RawInput::GamepadButton(GamepadButton::RightTrigger)),
                digital(RawInput::MouseButton(MouseButton::Right)),
            ],
            UserAction::LookVertical => seq![
                analog(false, RawInput::GamepadAxis(GamepadAxis::RightStickY)),
            ],
            UserAction::LookHorizontal => seq![
                analog(false, RawInput::GamepadAxis(GamepadAxis::RightStickX)),
            ],
            UserAction::Jump => seq![
                digital(RawInput::GamepadButton(GamepadButton::South)),
                digital(RawInput::Key(Key::Space)),
            ],
            UserAction::MoveForward => seq![
                analog(false, RawInput::Key(Key::W)),
                analog(true, RawInput::Key(Key::S)),
                analog(false, RawInput::GamepadAxis(GamepadAxis::LeftStickY)),
            ],
            UserAction::MoveSideways => seq![
                analog(false, RawInput::Key(Key::D)),
                analog(true, RawInput::Key(Key::A)),
                analog(false, RawInput::GamepadAxis(GamepadAxis::LeftStickX)),
            ],
            UserAction::PlaceVoxels => seq![
                digital(RawInput::GamepadButton(GamepadButton::RightTrigger)),
                digital(RawInput::MouseButton(MouseButton::Right)),
            ],
            UserAction::Sneak => seq![
                digital(RawInput::GamepadButton(GamepadButton::East)),
                digital(RawInput::Key(Key::LShift)),
            ],
            UserAction::SpawnPhysicsEntity => seq![
                digital(RawInput::GamepadButton(GamepadButton::North)),
                digital(RawInput::Key(Key::F)),
            ],
            UserAction::ToggleItemLeft => seq![
                digital(RawInput::GamepadButton(GamepadButton::DPadLeft)),
            ],
            UserAction::ToggleItemRight => seq![
                digital(RawInput::GamepadButton(GamepadButton::DPadRight)),
            ],
            UserAction::TogglePointerLock => seq![digital(RawInput::Key(Key::T))],
        }
    }

    /// All roles, in the order in which they are registered.
    pub fn all() -> (actions: Vec<UserAction>)
        ensures
            actions@ == UserAction::roster(),
    {
        let actions = vec![
            UserAction::DeleteVoxels,
            UserAction::DragPhysicsEntity,
            UserAction::LookVertical,
            UserAction::LookHorizontal,
            UserAction::Jump,
            UserAction::MoveForward,
            UserAction::MoveSideways,
            UserAction::PlaceVoxels,
            UserAction::Sneak,
            UserAction::SpawnPhysicsEntity,
            UserAction::ToggleItemLeft,
            UserAction::ToggleItemRight,
            UserAction::TogglePointerLock,
        ];
        actions
    }

    /// The kind of the action.
    #[verifier::when_used_as_spec(spec_kind)]
    pub fn kind(self) -> (kind: ActionKind)
        ensures
            kind == self.spec_kind(),
    {
        match self {
            UserAction::LookVertical
            | UserAction::LookHorizontal
            | UserAction::MoveForward
            | UserAction::MoveSideways => ActionKind::Analog,
            _ => ActionKind::Digital,
        }
    }

    /// The name under which the action is registered.
    pub fn name(self) -> (text: &'static str)
        ensures
            text@ == self.spec_name(),
    {
        match self {
            UserAction::DeleteVoxels => "Delete",
            UserAction::DragPhysicsEntity => "Drag entity",
            UserAction::LookVertical => "Look vertical",
            UserAction::LookHorizontal => "Look horizontal",
            UserAction::Jump => "Jump",
            UserAction::MoveForward => "Move forward",
            UserAction::MoveSideways => "Move sideways",
            UserAction::PlaceVoxels => "Place",
            UserAction::Sneak => "Sneak",
            UserAction::SpawnPhysicsEntity => "Spawn debug entity",
            UserAction::ToggleItemLeft => "Toggle item (left)",
            UserAction::ToggleItemRight => "Toggle item (right)",
            UserAction::TogglePointerLock => "Toggle pointer lock",
        }
    }

    /// The text that explains the action to the user.
    pub fn description(self) -> (text: &'static str)
        ensures
            text@ == self.spec_description(),
    {
        match self {
            UserAction::DeleteVoxels => "Deletes voxels where the player's pointer is.",
            UserAction::DragPhysicsEntity => "Drags a physics entity around the scene.",
            UserAction::LookVertical => "Causes the player to look up or down.",
            UserAction::LookHorizontal => "Causes the player to look left or right.",
            UserAction::Jump => "Causes the player to jump or move upward.",
            UserAction::MoveForward => "Causes the player to walk forward or backward.",
            UserAction::MoveSideways => "Causes the player to walk left or right.",
            UserAction::PlaceVoxels => "Places voxels where the player's pointer is.",
            UserAction::Sneak => "Causes the player to sneak or move downward.",
            UserAction::SpawnPhysicsEntity => "Spawns a physics entity for debugging.",
            UserAction::ToggleItemLeft => "Toggles the selected item to the left.",
            UserAction::ToggleItemRight => "Toggles the selected item to the right.",
            UserAction::TogglePointerLock => "Toggles whether the mouse should be locked to the center of the screen.",
        }
    }

    /// The bindings that the action has until the user chooses others, in
    /// order of preference.
    pub fn default_bindings(self) -> (bindings: Vec<Binding>)
        ensures
            bindings@ == self.spec_default_bindings(),
    {
        let t = DIGITAL_THRESHOLD_PERCENT;
        let bindings = match self {
            UserAction::DeleteVoxels => vec![
                Binding::Digital {
                    threshold_percent: t,
                    raw_input: RawInput::GamepadButton(GamepadButton::LeftTrigger),
                },
                Binding::Digital {
                    threshold_percent: t,
                    raw_input: RawInput::MouseButton(MouseButton::Left),
                },
            ],
            UserAction::DragPhysicsEntity => vec![
                Binding::Digital {
                    threshold_percent: t,
                    raw_input: RawInput::GamepadButton(GamepadButton::RightTrigger),
                },
                Binding::Digital {
                    threshold_percent: t,
                    raw_input: RawInput::MouseButton(MouseButton::Right),
                },
            ],
            UserAction::LookVertical => vec![
                Binding::Analog {
                    invert: false,
                    raw_input: RawInput::GamepadAxis(GamepadAxis::RightStickY),
                },
            ],
            UserAction::LookHorizontal => vec![
                Binding::Analog {
                    invert: false,
                    raw_input: RawInput::GamepadAxis(GamepadAxis::RightStickX),
                },
            ],
            UserAction::Jump => vec![
                Binding::Digital {
                    threshold_percent: t,
                    raw_input: RawInput::GamepadButton(GamepadButton::South),
                },
                Binding::Digital { threshold_percent: t, raw_input: RawInput::Key(Key::Space) },
            ],
            UserAction::MoveForward => vec![
                Binding::Analog { invert: false, raw_input: RawInput::Key(Key::W) },
                Binding::Analog { invert: true, raw_input: RawInput::Key(Key::S) },
                Binding::Analog {
                    invert: false,
                    raw_input: RawInput::GamepadAxis(GamepadAxis::LeftStickY),
                },
            ],
            UserAction::MoveSideways => vec![
                Binding::Analog { invert: false, raw_input: RawInput::Key(Key::D) },
                Binding::Analog { invert: true, raw_input: RawInput::Key(Key::A) },
                Binding::Analog {
                    invert: false,
                    raw_input: RawInput::GamepadAxis(GamepadAxis::LeftStickX),
                },
            ],
            UserAction::PlaceVoxels => vec![
                Binding::Digital {
                    threshold_percent: t,
                    raw_input: RawInput::GamepadButton(GamepadButton::RightTrigger),
                },
                Binding::Digital {
                    threshold_percent: t,
                    raw_input: RawInput::MouseButton(MouseButton::Right),
                },
            ],
            UserAction::Sneak => vec![
                Binding::Digital {
                    threshold_percent: t,
                    raw_input: RawInput::GamepadButton(GamepadButton::East),
                },
                Binding::Digital { threshold_percent: t, raw_input: RawInput::Key(Key::LShift) },
            ],
            UserAction::SpawnPhysicsEntity => vec![
                Binding::Digital {
                    threshold_percent: t,
                    raw_input: RawInput::GamepadButton(GamepadButton::North),
                },
                Binding::Digital { threshold_percent: t, raw_input: RawInput::Key(Key::F) },
            ],
            UserAction::ToggleItemLeft => vec![
                Binding::Digital {
                    threshold_percent: t,
                    raw_input: RawInput::GamepadButton(GamepadButton::DPadLeft),
                },
            ],
            UserAction::ToggleItemRight => vec![
                Binding::Digital {
                    threshold_percent: t,
                    raw_input: RawInput::GamepadButton(GamepadButton::DPadRight),
                },
            ],
            UserAction::TogglePointerLock => vec![
                Binding::Digital { threshold_percent: t, raw_input: RawInput::Key(Key::T) },
            ],
        };
        bindings
    }
}

/// The roster names every role, and each once.
pub proof fn lemma_roster_is_complete(action: UserAction)
    ensures
        UserAction::roster().len() == 13,
        UserAction::roster().contains(action),
        UserAction::roster().no_duplicates(),
{
    let roster = UserAction::roster();
    let i: int = match action {
        UserAction::DeleteVoxels => 0,
        UserAction::DragPhysicsEntity => 1,
        UserAction::LookVertical => 2,
        UserAction::LookHorizontal => 3,
        UserAction::Jump => 4,
        UserAction::MoveForward => 5,
        UserAction::MoveSideways => 6,
        UserAction::PlaceVoxels => 7,
        UserAction::Sneak => 8,
        UserAction::SpawnPhysicsEntity => 9,
        UserAction::ToggleItemLeft => 10,
        UserAction::ToggleItemRight => 11,
        UserAction::TogglePointerLock => 12,
    };
    assert(roster[i] == action);
}

/// Every action has a default binding, and each of its default bindings is
/// of the action's own kind.
pub proof fn lemma_bindings_match_kind(action: UserAction)
    ensures
        action.spec_default_bindings().len() > 0,
        forall|i: int|
            0 <= i < action.spec_default_bindings().len()
                ==> (#[trigger] action.spec_default_bindings()[i]).kind() == action.kind(),
        forall|i: int|
            0 <= i < action.spec_default_bindings().len()
                ==> ((#[trigger] action.spec_default_bindings()[i]) matches Binding::Digital {
                threshold_percent,
                ..
            } ==> threshold_percent == DIGITAL_THRESHOLD_PERCENT),
{
}

/// No two actions are registered under one name.
pub proof fn lemma_names_are_distinct(a: UserAction, b: UserAction)
    requires
        a != b,
    ensures
        a.spec_name() != b.spec_name(),
{
    reveal_strlit("Delete");
    reveal_strlit("Drag entity");
    reveal_strlit("Look vertical");
    reveal_strlit("Look horizontal");
    reveal_strlit("Jump");
    reveal_strlit("Move forward");
    reveal_strlit("Move sideways");
    reveal_strlit("Place");
    reveal_strlit("Sneak");
    reveal_strlit("Spawn debug entity");
    reveal_strlit("Toggle item (left)");
    reveal_strlit("Toggle item (right)");
    reveal_strlit("Toggle pointer lock");
    // Names of different length differ; the rest differ in one character.
    assert("Delete"@.len() == 6);
    assert("Drag entity"@.len() == 11);
    assert("Look vertical"@.len() == 13 && "Look vertical"@[0] == 'L');
    assert("Look horizontal"@.len() == 15);
    assert("Jump"@.len() == 4);
    assert("Move forward"@.len() == 12);
    assert("Move sideways"@.len() == 13 && "Move sideways"@[0] == 'M');
    assert("Place"@.len() == 5 && "Place"@[0] == 'P');
    assert("Sneak"@.len() == 5 && "Sneak"@[0] == 'S');
    assert("Spawn debug entity"@.len() == 18 && "Spawn debug entity"@[0] == 'S');
    assert("Toggle item (left)"@.len() == 18 && "Toggle item (left)"@[0] == 'T');
    assert("Toggle item (right)"@.len() == 19 && "Toggle item (right)"@[7] == 'i');
    assert("Toggle pointer lock"@.len() == 19 && "Toggle pointer lock"@[7] == 'p');
}

} // verus!
